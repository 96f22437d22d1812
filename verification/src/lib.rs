//! Verified core of a project-scaffolding pipeline.
//!
//! The library models the three concerns of the scaffolder that carry any
//! design weight: classifying the outcome of an external command, planning
//! the ordered list of provisioning operations together with the
//! fatal/non-fatal sequencing policy, and patching the generated manifest
//! file at two fixed key paths. All file, process and console I/O is left
//! to the thin binary around the library.

pub mod manifest;
pub mod outcome;
pub mod plan;
