//! The scaffold plan and its sequencing policy.
//!
//! The pipeline is an ordered list of operations: provision the root
//! directory, run the install steps, provision the subdirectories, write the
//! template files, patch the manifest. Each operation carries an explicit
//! `continue_on_error` flag: a failing install step never stops the
//! pipeline, while a failing directory or file operation aborts everything
//! after it. The plan is fixed data; the driver around the library performs
//! one operation at a time and asks [`next_index`] what to do after it.

use vstd::prelude::*;
use vstd::string::StringExecFns;

verus! {

/// One external-tool invocation: the program, its arguments in order, and a
/// human-readable label narrated when the step runs.
pub struct Step {
    pub program: String,
    pub args: Vec<String>,
    pub label: String,
}

/// The mathematical model of a [`Step`].
pub struct StepModel {
    pub program: Seq<char>,
    pub args: Seq<Seq<char>>,
    pub label: Seq<char>,
}

impl View for Step {
    type V = StepModel;

    open spec fn view(&self) -> StepModel {
        StepModel { program: self.program@, args: self.args.deep_view(), label: self.label@ }
    }
}

/// What one operation of the pipeline does.
pub enum OpKind {
    /// Create this directory and all its missing ancestors.
    EnsureDir { path: String },
    /// Run this external invocation, inside this working directory, and
    /// report its outcome.
    RunStep { step: Step, cwd: String },
    /// Write this literal content to this file, verbatim.
    WriteFile { path: String, content: String },
    /// Patch the manifest file at this path: set `scripts.build` and
    /// `scripts.start` to these two commands.
    PatchManifest { path: String, build_cmd: String, start_cmd: String },
}

/// The mathematical model of an [`OpKind`].
pub enum OpKindModel {
    EnsureDir { path: Seq<char> },
    RunStep { step: StepModel, cwd: Seq<char> },
    WriteFile { path: Seq<char>, content: Seq<char> },
    PatchManifest { path: Seq<char>, build_cmd: Seq<char>, start_cmd: Seq<char> },
}

impl View for OpKind {
    type V = OpKindModel;

    open spec fn view(&self) -> OpKindModel {
        match self {
            OpKind::EnsureDir { path } => OpKindModel::EnsureDir { path: path@ },
            OpKind::RunStep { step, cwd } => OpKindModel::RunStep { step: step@, cwd: cwd@ },
            OpKind::WriteFile { path, content } => OpKindModel::WriteFile {
                path: path@,
                content: content@,
            },
            OpKind::PatchManifest { path, build_cmd, start_cmd } => OpKindModel::PatchManifest {
                path: path@,
                build_cmd: build_cmd@,
                start_cmd: start_cmd@,
            },
        }
    }
}

/// One operation of the pipeline, with its error policy: when the operation
/// fails and `continue_on_error` is false, everything after it is skipped.
pub struct Operation {
    pub kind: OpKind,
    pub continue_on_error: bool,
}

/// The mathematical model of an [`Operation`].
pub struct OpModel {
    pub kind: OpKindModel,
    pub continue_on_error: bool,
}

impl View for Operation {
    type V = OpModel;

    open spec fn view(&self) -> OpModel {
        OpModel { kind: self.kind@, continue_on_error: self.continue_on_error }
    }
}

/// The models of a sequence of operations.
pub open spec fn ops_view(s: Seq<Operation>) -> Seq<OpModel> {
    s.map_values(|o: Operation| o@)
}

/// A directory operation: fatal on failure.
pub open spec fn dir_op(path: Seq<char>) -> OpModel {
    OpModel { kind: OpKindModel::EnsureDir { path }, continue_on_error: false }
}

/// An install-step operation, run inside the given working directory:
/// never fatal.
pub open spec fn step_op(step: StepModel, cwd: Seq<char>) -> OpModel {
    OpModel { kind: OpKindModel::RunStep { step, cwd }, continue_on_error: true }
}

/// A file operation: fatal on failure.
pub open spec fn file_op(path: Seq<char>, content: Seq<char>) -> OpModel {
    OpModel { kind: OpKindModel::WriteFile { path, content }, continue_on_error: false }
}

/// A manifest-patch operation; whether its failure is fatal is the one
/// configurable policy of the plan.
pub open spec fn patch_op(
    path: Seq<char>,
    build_cmd: Seq<char>,
    start_cmd: Seq<char>,
    fatal: bool,
) -> OpModel {
    OpModel {
        kind: OpKindModel::PatchManifest { path, build_cmd, start_cmd },
        continue_on_error: !fatal,
    }
}

/// A step model from its parts.
pub open spec fn step_model(program: Seq<char>, args: Seq<Seq<char>>, label: Seq<char>) -> StepModel {
    StepModel { program, args, label }
}

/// The bundler configuration template.
pub open spec fn webpack_config_text() -> Seq<char> {
    r#"
const path = require('path')
const HTMLWebpackPlugin = require('html-webpack-plugin')

module.exports={
    entry: "./src/index.js",
    output: {
        path: path.join(__dirname,"/dist"),
        filename: "bundle.js"
    },
    plugins: [
        new HTMLWebpackPlugin({
            template: "./public/index.html"
        })
    ],
    module: {
        rules: [
            {
                test: /\.js$/,
                exclude: /node_modules/,
                use: {
                    loader: "babel-loader",
                    options: {
                        presets: ["@babel/preset-react", "@babel/preset-env"]
                    }
                }
            }
        ]
    },
    
} 
"#@
}

/// The entry-point template.
pub open spec fn index_js_text() -> Seq<char> {
    r#"
import React from "react";
import ReactDOM from "react-dom";
import App from "./components/App";

ReactDOM.render(<App/> , document.getElementById('root'))
"#@
}

/// The sample-component template.
pub open spec fn app_component_text() -> Seq<char> {
    r#"
import React , {Component} from "react";

class App extends Component {
    render(){
        return(
            <div>
                Hello World!
            </div>        
        )
    }
}
export default App;
"#@
}

/// The HTML-shell template.
pub open spec fn index_html_text() -> Seq<char> {
    r#"
<!DOCTYPE html>
<html lang="en">
    <head>
        <meta charset="UTF-8">
        <meta name="viewport" content="width=device-width, initial-scale=1.0">
        <title>Document</title>
    </head>
    <body>
        <div id="root"></div>
    </body>
</html>
"#@
}

/// The command wired into `scripts.build`.
pub open spec fn build_command_text() -> Seq<char> {
    "webpack --mode production"@
}

/// The command wired into `scripts.start`.
pub open spec fn start_command_text() -> Seq<char> {
    "webpack-dev-server --mode development --open --hot"@
}

/// The ordered install steps: initialize the manifest, install the runtime
/// dependencies, then install each development-only group.
pub open spec fn spec_install_steps() -> Seq<StepModel> {
    seq![
        step_model("npm"@, seq!["init"@, "-y"@], "[*] initializing npm project."@),
        step_model(
            "npm"@,
            seq!["install"@, "react"@, "react-dom"@],
            "[*] installing react & react-dom"@,
        ),
        step_model(
            "npm"@,
            seq!["install"@, "webpack"@, "--save-dev"@],
            "[*] installing webpack"@,
        ),
        step_model(
            "npm"@,
            seq!["install"@, "webpack-cli"@, "webpack-dev-server"@, "--save-dev"@],
            "[*] installing webpack cli & dev-server"@,
        ),
        step_model(
            "npm"@,
            seq![
                "install"@,
                "@babel/core"@,
                "@babel/preset-react"@,
                "@babel/preset-env"@,
                "babel-loader"@,
                "--save-dev"@,
            ],
            "[*] installing babel & babel-components"@,
        ),
        step_model(
            "npm"@,
            seq!["install"@, "html-webpack-plugin"@, "--save-dev"@],
            "[*] installing html-webpack-plugin"@,
        ),
    ]
}

/// The whole scaffold plan, in execution order: the root directory, the six
/// install steps (run inside the freshly provisioned root, so that the
/// manifest they initialize lands there), the three subdirectories (parents
/// before children), the four template files (whose parent directories all
/// come earlier), and the manifest patch. Every path hangs off the given
/// root, and no ambient working-directory state is touched.
pub open spec fn spec_scaffold_ops(root: Seq<char>, manifest_fatal: bool) -> Seq<OpModel> {
    seq![
        dir_op(root),
        step_op(spec_install_steps()[0], root),
        step_op(spec_install_steps()[1], root),
        step_op(spec_install_steps()[2], root),
        step_op(spec_install_steps()[3], root),
        step_op(spec_install_steps()[4], root),
        step_op(spec_install_steps()[5], root),
        dir_op(root + "/public"@),
        dir_op(root + "/src"@),
        dir_op(root + "/src/components"@),
        file_op(root + "/webpack.config.js"@, webpack_config_text()),
        file_op(root + "/src/index.js"@, index_js_text()),
        file_op(root + "/src/components/App.js"@, app_component_text()),
        file_op(root + "/public/index.html"@, index_html_text()),
        patch_op(root + "/package.json"@, build_command_text(), start_command_text(), manifest_fatal),
    ]
}


/// The bundler configuration, as written to disk.
pub fn webpack_config() -> (r: String)
    ensures
        r@ == webpack_config_text(),
{
    String::from_str(r#"
const path = require('path')
const HTMLWebpackPlugin = require('html-webpack-plugin')

module.exports={
    entry: "./src/index.js",
    output: {
        path: path.join(__dirname,"/dist"),
        filename: "bundle.js"
    },
    plugins: [
        new HTMLWebpackPlugin({
            template: "./public/index.html"
        })
    ],
    module: {
        rules: [
            {
                test: /\.js$/,
                exclude: /node_modules/,
                use: {
                    loader: "babel-loader",
                    options: {
                        presets: ["@babel/preset-react", "@babel/preset-env"]
                    }
                }
            }
        ]
    },
    
} 
"#)
}

/// The entry point, as written to disk.
pub fn index_js() -> (r: String)
    ensures
        r@ == index_js_text(),
{
    String::from_str(r#"
import React from "react";
import ReactDOM from "react-dom";
import App from "./components/App";

ReactDOM.render(<App/> , document.getElementById('root'))
"#)
}

/// The sample component, as written to disk.
pub fn app_component() -> (r: String)
    ensures
        r@ == app_component_text(),
{
    String::from_str(r#"
import React , {Component} from "react";

class App extends Component {
    render(){
        return(
            <div>
                Hello World!
            </div>        
        )
    }
}
export default App;
"#)
}

/// The HTML shell, as written to disk.
pub fn index_html() -> (r: String)
    ensures
        r@ == index_html_text(),
{
    String::from_str(r#"
<!DOCTYPE html>
<html lang="en">
    <head>
        <meta charset="UTF-8">
        <meta name="viewport" content="width=device-width, initial-scale=1.0">
        <title>Document</title>
    </head>
    <body>
        <div id="root"></div>
    </body>
</html>
"#)
}

/// The build command wired into the manifest.
pub fn build_command() -> (r: String)
    ensures
        r@ == build_command_text(),
{
    String::from_str("webpack --mode production")
}

/// The start command wired into the manifest.
pub fn start_command() -> (r: String)
    ensures
        r@ == start_command_text(),
{
    String::from_str("webpack-dev-server --mode development --open --hot")
}

/// Joins a path onto the root; every operation's path is the root followed
/// by a fixed relative path.
fn join(root: &str, rel: &str) -> (r: String)
    ensures
        r@ == root@ + rel@,
{
    let mut s = String::from_str(root);
    s.append(rel);
    s
}

/// Appends one argument to an argument list.
fn push_arg(args: &mut Vec<String>, a: &str)
    ensures
        final(args).deep_view() == old(args).deep_view().push(a@),
{
    args.push(String::from_str(a));
    proof {
        assert(args.deep_view() =~= old(args).deep_view().push(a@));
    }
}

/// A directory operation.
fn dir_operation(path: String) -> (r: Operation)
    ensures
        r@ == dir_op(path@),
{
    Operation { kind: OpKind::EnsureDir { path }, continue_on_error: false }
}

/// An install-step operation.
fn step_operation(program: &str, args: Vec<String>, label: &str, cwd: String) -> (r: Operation)
    ensures
        r@ == step_op(step_model(program@, args.deep_view(), label@), cwd@),
{
    Operation {
        kind: OpKind::RunStep {
            step: Step { program: String::from_str(program), args, label: String::from_str(label) },
            cwd,
        },
        continue_on_error: true,
    }
}

/// A file operation.
fn file_operation(path: String, content: String) -> (r: Operation)
    ensures
        r@ == file_op(path@, content@),
{
    Operation { kind: OpKind::WriteFile { path, content }, continue_on_error: false }
}

/// The manifest-patch operation.
fn patch_operation(path: String, build_cmd: String, start_cmd: String, fatal: bool) -> (r: Operation)
    ensures
        r@ == patch_op(path@, build_cmd@, start_cmd@, fatal),
{
    Operation {
        kind: OpKind::PatchManifest { path, build_cmd, start_cmd },
        continue_on_error: !fatal,
    }
}

/// Builds the scaffold plan for the given root directory. The one policy
/// choice left to the caller is whether a manifest-patch failure aborts the
/// pipeline; install-step failures never do, directory and file failures
/// always do.
pub fn scaffold_ops(root: &str, manifest_fatal: bool) -> (r: Vec<Operation>)
    ensures
        ops_view(r@) == spec_scaffold_ops(root@, manifest_fatal),
{
    let mut ops: Vec<Operation> = Vec::new();
    ops.push(dir_operation(String::from_str(root)));

    let mut a: Vec<String> = Vec::new();
    push_arg(&mut a, "init");
    push_arg(&mut a, "-y");
    proof {
        assert(a.deep_view() =~= seq!["init"@, "-y"@]);
    }
    ops.push(step_operation("npm", a, "[*] initializing npm project.", String::from_str(root)));

    let mut a: Vec<String> = Vec::new();
    push_arg(&mut a, "install");
    push_arg(&mut a, "react");
    push_arg(&mut a, "react-dom");
    proof {
        assert(a.deep_view() =~= seq!["install"@, "react"@, "react-dom"@]);
    }
    ops.push(step_operation("npm", a, "[*] installing react & react-dom", String::from_str(root)));

    let mut a: Vec<String> = Vec::new();
    push_arg(&mut a, "install");
    push_arg(&mut a, "webpack");
    push_arg(&mut a, "--save-dev");
    proof {
        assert(a.deep_view() =~= seq!["install"@, "webpack"@, "--save-dev"@]);
    }
    ops.push(step_operation("npm", a, "[*] installing webpack", String::from_str(root)));

    let mut a: Vec<String> = Vec::new();
    push_arg(&mut a, "install");
    push_arg(&mut a, "webpack-cli");
    push_arg(&mut a, "webpack-dev-server");
    push_arg(&mut a, "--save-dev");
    proof {
        assert(a.deep_view() =~= seq![
            "install"@,
            "webpack-cli"@,
            "webpack-dev-server"@,
            "--save-dev"@,
        ]);
    }
    ops.push(step_operation("npm", a, "[*] installing webpack cli & dev-server", String::from_str(root)));

    let mut a: Vec<String> = Vec::new();
    push_arg(&mut a, "install");
    push_arg(&mut a, "@babel/core");
    push_arg(&mut a, "@babel/preset-react");
    push_arg(&mut a, "@babel/preset-env");
    push_arg(&mut a, "babel-loader");
    push_arg(&mut a, "--save-dev");
    proof {
        assert(a.deep_view() =~= seq![
            "install"@,
            "@babel/core"@,
            "@babel/preset-react"@,
            "@babel/preset-env"@,
            "babel-loader"@,
            "--save-dev"@,
        ]);
    }
    ops.push(step_operation("npm", a, "[*] installing babel & babel-components", String::from_str(root)));

    let mut a: Vec<String> = Vec::new();
    push_arg(&mut a, "install");
    push_arg(&mut a, "html-webpack-plugin");
    push_arg(&mut a, "--save-dev");
    proof {
        assert(a.deep_view() =~= seq!["install"@, "html-webpack-plugin"@, "--save-dev"@]);
    }
    ops.push(step_operation("npm", a, "[*] installing html-webpack-plugin", String::from_str(root)));

    ops.push(dir_operation(join(root, "/public")));
    ops.push(dir_operation(join(root, "/src")));
    ops.push(dir_operation(join(root, "/src/components")));

    ops.push(file_operation(join(root, "/webpack.config.js"), webpack_config()));
    ops.push(file_operation(join(root, "/src/index.js"), index_js()));
    ops.push(file_operation(join(root, "/src/components/App.js"), app_component()));
    ops.push(file_operation(join(root, "/public/index.html"), index_html()));

    ops.push(patch_operation(
        join(root, "/package.json"),
        build_command(),
        start_command(),
        manifest_fatal,
    ));

    proof {
        assert(ops_view(ops@) =~= spec_scaffold_ops(root@, manifest_fatal));
    }
    ops
}


/// Which index the pipeline performs after finishing operation `i`: the
/// next one, unless `i` failed fatally or was the last.
pub fn next_index(ops: &Vec<Operation>, i: usize, failed: bool) -> (r: Option<usize>)
    requires
        i < ops@.len(),
    ensures
        (failed && !ops@[i as int]@.continue_on_error) ==> r is None,
        !(failed && !ops@[i as int]@.continue_on_error) && i + 1 < ops@.len() ==> (r matches Some(n)
            && n == i + 1),
        !(failed && !ops@[i as int]@.continue_on_error) && i + 1 >= ops@.len() ==> r is None,
{
    if failed && !ops[i].continue_on_error {
        None
    } else if i < ops.len() - 1 {
        Some(i + 1)
    } else {
        None
    }
}

/// Whether operation `i` runs, given which operations fail: the first
/// operation always runs, and each later one runs exactly when its
/// predecessor ran and did not fail fatally.
pub open spec fn runs(ops: Seq<OpModel>, failed: Seq<bool>, i: int) -> bool
    decreases i,
{
    if i <= 0 {
        true
    } else {
        runs(ops, failed, i - 1) && !(failed[i - 1] && !ops[i - 1].continue_on_error)
    }
}

/// Law: a failing operation that is marked to continue on error never
/// prevents the operation after it from running; neither does a succeeding
/// one.
pub proof fn lemma_nonfatal_failure_is_isolated(ops: Seq<OpModel>, failed: Seq<bool>, i: int)
    requires
        0 <= i,
        runs(ops, failed, i),
        ops[i].continue_on_error || !failed[i],
    ensures
        runs(ops, failed, i + 1),
{
}

/// Law: as long as every failure strikes an operation that is marked to
/// continue on error, every operation of the plan runs.
pub proof fn lemma_runs_despite_nonfatal_failures(ops: Seq<OpModel>, failed: Seq<bool>, i: int)
    requires
        forall|j: int| 0 <= j < i && #[trigger] failed[j] ==> ops[j].continue_on_error,
    ensures
        runs(ops, failed, i),
    decreases i,
{
    if i > 0 {
        lemma_runs_despite_nonfatal_failures(ops, failed, i - 1);
    }
}

/// An operation that runs ran after every operation before it.
pub proof fn lemma_runs_monotone(ops: Seq<OpModel>, failed: Seq<bool>, i: int, j: int)
    requires
        i <= j,
        runs(ops, failed, j),
    ensures
        runs(ops, failed, i),
    decreases j - i,
{
    if i < j {
        lemma_runs_monotone(ops, failed, i, j - 1);
    }
}

/// Every install step of the scaffold plan is marked to continue on error.
pub proof fn lemma_scaffold_steps_are_nonfatal(root: Seq<char>, manifest_fatal: bool, j: int)
    requires
        0 <= j < spec_scaffold_ops(root, manifest_fatal).len(),
        spec_scaffold_ops(root, manifest_fatal)[j].kind is RunStep,
    ensures
        spec_scaffold_ops(root, manifest_fatal)[j].continue_on_error,
{
}

/// Law: however many install steps fail, every directory, file and (when
/// the patch is not configured fatal) patch operation of the scaffold plan
/// still runs.
pub proof fn lemma_scaffold_survives_step_failures(
    root: Seq<char>,
    manifest_fatal: bool,
    failed: Seq<bool>,
    i: int,
)
    requires
        i <= spec_scaffold_ops(root, manifest_fatal).len(),
        forall|j: int| 0 <= j < i && #[trigger] failed[j] ==> spec_scaffold_ops(
            root,
            manifest_fatal,
        )[j].kind is RunStep,
    ensures
        runs(spec_scaffold_ops(root, manifest_fatal), failed, i),
{
    let ops = spec_scaffold_ops(root, manifest_fatal);
    assert forall|j: int| 0 <= j < i && #[trigger] failed[j] implies ops[j].continue_on_error by {
        lemma_scaffold_steps_are_nonfatal(root, manifest_fatal, j);
    }
    lemma_runs_despite_nonfatal_failures(ops, failed, i);
}

/// How many operations of the plan run, given which of them would fail:
/// the operations performed are exactly the indices below the returned
/// count, in order.
pub fn executed_prefix_len(ops: &Vec<Operation>, failed: &Vec<bool>) -> (k: usize)
    requires
        failed@.len() == ops@.len(),
    ensures
        k <= ops@.len(),
        forall|i: int| 0 <= i < ops@.len() ==> (runs(ops_view(ops@), failed@, i) <==> i < k),
{
    let ghost m = ops_view(ops@);
    let n = ops.len();
    let mut i: usize = 0;
    while i < n
        invariant
            i <= n,
            n == ops@.len(),
            n == failed@.len(),
            m == ops_view(ops@),
            runs(m, failed@, i as int),
        decreases n - i,
    {
        if failed[i] && !ops[i].continue_on_error {
            proof {
                assert(!runs(m, failed@, i + 1));
                assert forall|j: int| 0 <= j < n implies (runs(m, failed@, j) <==> j < i
                    + 1) by {
                    if j <= i {
                        lemma_runs_monotone(m, failed@, j, i as int);
                    } else if runs(m, failed@, j) {
                        lemma_runs_monotone(m, failed@, i + 1, j);
                    }
                }
            }
            return i + 1;
        }
        proof {
            assert(runs(m, failed@, i + 1));
        }
        i = i + 1;
    }
    proof {
        assert forall|j: int| 0 <= j < n implies runs(m, failed@, j) by {
            lemma_runs_monotone(m, failed@, j, n as int);
        }
    }
    n
}

} // verus!
