//! Classification of one external command invocation, and the report lines
//! that the pipeline narrates for it.
//!
//! The process itself is launched outside the library; the library receives
//! the captured streams as plain values and decides everything that follows:
//! whether the invocation counts as a success, what its failure description
//! is, and which lines are printed for it under the verbose policy.

use vstd::prelude::*;
use vstd::string::StringExecFns;

verus! {

/// What a finished child process left behind: its exit classification and
/// the fully buffered text of its two output streams.
pub struct CapturedOutput {
    /// True exactly when the process terminated with a successful status.
    pub status_success: bool,
    /// The captured standard output, decoded to text.
    pub stdout: String,
    /// The captured standard error, decoded to text.
    pub stderr: String,
}

/// The outcome of one invocation of an external program.
pub enum Outcome {
    /// The program ran and exited successfully; both captured streams are
    /// kept, though nothing reads the standard error of a success.
    Success { stdout: String, stderr: String },
    /// The program could not be launched at all; the launcher's description
    /// of the error is kept.
    LaunchFailure { error: String },
    /// The program ran but exited abnormally; its standard error is kept.
    NonZeroExit { stderr: String },
}

impl Outcome {
    /// True of the one variant that counts as a success.
    pub open spec fn is_success(self) -> bool {
        self is Success
    }
}

/// Classifies a completed launch: a successful exit keeps both captured
/// streams, any other exit keeps the standard error as the failure.
pub fn outcome_of_capture(capture: CapturedOutput) -> (r: Outcome)
    ensures
        capture.status_success ==> r == (Outcome::Success {
            stdout: capture.stdout,
            stderr: capture.stderr,
        }),
        !capture.status_success ==> r == (Outcome::NonZeroExit { stderr: capture.stderr }),
{
    if capture.status_success {
        Outcome::Success { stdout: capture.stdout, stderr: capture.stderr }
    } else {
        Outcome::NonZeroExit { stderr: capture.stderr }
    }
}

/// The description kept for a failed invocation.
pub open spec fn spec_failure_description(o: Outcome) -> Seq<char>
    recommends
        !o.is_success(),
{
    match o {
        Outcome::Success { .. } => Seq::empty(),
        Outcome::LaunchFailure { error } => "[x] failed to execute command "@ + error@,
        Outcome::NonZeroExit { stderr } => "[x] failed command output: "@ + stderr@,
    }
}

/// The lines the pipeline narrates for one step: always the step's label
/// first; then, for a success, the captured output — but only in verbose
/// mode — and, for a failure, its description. A failure is reported and
/// nothing more: reporting never stops the pipeline.
pub open spec fn spec_report_lines(o: Outcome, label: Seq<char>, verbose: bool) -> Seq<Seq<char>> {
    match o {
        Outcome::Success { stdout, .. } => if verbose {
            seq![label, "The executed command output is \n"@ + stdout@]
        } else {
            seq![label]
        },
        Outcome::LaunchFailure { error } => seq![
            label,
            "error occurred \n"@ + spec_failure_description(o),
        ],
        Outcome::NonZeroExit { stderr } => seq![
            label,
            "error occurred \n"@ + spec_failure_description(o),
        ],
    }
}

/// Computes the report lines for one step's outcome.
pub fn report_lines(o: &Outcome, label: &str, verbose: bool) -> (r: Vec<String>)
    ensures
        r.deep_view() == spec_report_lines(*o, label@, verbose),
{
    let mut lines: Vec<String> = Vec::new();
    lines.push(String::from_str(label));
    match o {
        Outcome::Success { stdout, .. } => {
            if verbose {
                let mut line = String::from_str("The executed command output is \n");
                line.append(stdout.as_str());
                lines.push(line);
            }
        },
        Outcome::LaunchFailure { error } => {
            let mut line = String::from_str("error occurred \n[x] failed to execute command ");
            line.append(error.as_str());
            lines.push(line);
            proof {
                reveal_strlit("error occurred \n[x] failed to execute command ");
                reveal_strlit("error occurred \n");
                reveal_strlit("[x] failed to execute command ");
                assert(line@ =~= "error occurred \n"@ + spec_failure_description(*o));
            }
        },
        Outcome::NonZeroExit { stderr } => {
            let mut line = String::from_str("error occurred \n[x] failed command output: ");
            line.append(stderr.as_str());
            lines.push(line);
            proof {
                reveal_strlit("error occurred \n[x] failed command output: ");
                reveal_strlit("error occurred \n");
                reveal_strlit("[x] failed command output: ");
                assert(line@ =~= "error occurred \n"@ + spec_failure_description(*o));
            }
        },
    }
    proof {
        assert(lines.deep_view() =~= spec_report_lines(*o, label@, verbose));
    }
    lines
}

/// Law: with verbose mode off, a successful step narrates its label and
/// nothing else — no captured output is ever reported.
pub proof fn lemma_quiet_success_reports_label_only(o: Outcome, label: Seq<char>)
    requires
        o.is_success(),
    ensures
        spec_report_lines(o, label, false) =~= seq![label],
{
}

} // verus!
