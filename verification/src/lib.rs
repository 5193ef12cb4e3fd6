//! A harness for testing command-line programs.
//!
//! A test gets a disposable directory, fills it with fixture files, runs the
//! program under test inside it, and judges what the program wrote. This
//! library holds the rules of that judgement, each with a proved contract:
//! the recognition of executable files by their leading bytes, the comparison
//! of captured output with a literal, a pattern or a reference file, and the
//! checks on the paths and variables that a sandbox touches. Reading files,
//! starting processes and changing the environment is left to the caller, who
//! hands the library what was read.

pub mod bytes;
pub mod capture;
pub mod failure;
pub mod file;
pub mod fuzz;
pub mod magic;
pub mod pattern;
pub mod sandbox;
pub mod text;

pub use capture::{Capture, ExitStatus, Launch, Stream, WithStdout};
pub use failure::Failure;
pub use file::FileRead;
