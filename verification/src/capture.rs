//! The record of one run of the program under test, and the checks on it.
//!
//! A [`Capture`] is taken once and never changes. Each check names the
//! stream it looks at, so one capture serves exact and pattern checks alike.

use crate::bytes::{contains_bytes, occurs_in};
use crate::failure::{outcome, Failure, FailureModel};
use crate::file::{expect_reference, reference_verdict, FileRead};
use crate::pattern::{expect_pattern, pattern_verdict};
use crate::text::{expect_text, text_verdict};
use vstd::prelude::*;
use vstd::utf8::encode_utf8;

verus! {

/// One of the two streams that a run is captured from.
#[derive(Clone, Copy, Debug, PartialEq, Eq, Structural)]
pub enum Stream {
    Stdout,
    Stderr,
}

/// How a run ended. The status is data: whether a status means success is
/// for the checks that the caller chooses to say.
#[derive(Clone, Copy, Debug, PartialEq, Eq, Structural)]
pub enum ExitStatus {
    /// The program exited with this code.
    Code(i32),
    /// The program was ended by a signal.
    Signal,
}

/// What one run of the program wrote and how it ended.
#[derive(Debug, PartialEq, Eq)]
pub struct Capture {
    stdout: Vec<u8>,
    stderr: Vec<u8>,
    status: ExitStatus,
}

impl Capture {
    /// The bytes captured from `stream`.
    pub closed spec fn bytes(&self, stream: Stream) -> Seq<u8> {
        match stream {
            Stream::Stdout => self.stdout@,
            Stream::Stderr => self.stderr@,
        }
    }

    /// How the run ended.
    pub closed spec fn exit(&self) -> ExitStatus {
        self.status
    }

    /// Records a run.
    pub fn new(stdout: Vec<u8>, stderr: Vec<u8>, status: ExitStatus) -> (capture: Capture)
        ensures
            capture.bytes(Stream::Stdout) == stdout@,
            capture.bytes(Stream::Stderr) == stderr@,
            capture.exit() == status,
    {
        Capture { stdout, stderr, status }
    }

    /// The bytes captured from `stream`, as they came.
    pub fn stream(&self, stream: Stream) -> (bytes: &[u8])
        ensures
            bytes@ == self.bytes(stream),
    {
        match stream {
            Stream::Stdout => self.stdout.as_slice(),
            Stream::Stderr => self.stderr.as_slice(),
        }
    }

    /// How the run ended.
    pub fn status(&self) -> (status: ExitStatus)
        ensures
            status == self.exit(),
    {
        self.status
    }

    /// Checks that `stream`, read as UTF-8, is exactly `expected`.
    pub fn with_text(&self, stream: Stream, expected: &str) -> (result: Result<(), Failure>)
        ensures
            outcome(result) == text_verdict(self.bytes(stream), expected@),
    {
        expect_text(self.stream(stream), expected)
    }

    /// Checks that `stream`, read as UTF-8, holds a match of `pattern`
    /// somewhere. A pattern that the engine refuses is reported before the
    /// stream is looked at.
    pub fn with_pattern(&self, stream: Stream, pattern: &str) -> (result: Result<(), Failure>)
        ensures
            outcome(result) == pattern_verdict(self.bytes(stream), pattern@),
    {
        expect_pattern(self.stream(stream), pattern)
    }

    /// Checks that `stream` is the text of a reference file, which the
    /// caller has read from its own file system.
    pub fn with_file(&self, stream: Stream, reference: &FileRead) -> (result: Result<(), Failure>)
        ensures
            outcome(result) == reference_verdict(self.bytes(stream), reference@),
    {
        expect_reference(self.stream(stream), reference)
    }

    /// Tells whether nothing was captured from `stream`. The bytes are
    /// counted, not read: this is safe on output that is no text.
    pub fn is_empty(&self, stream: Stream) -> (empty: bool)
        ensures
            empty == (self.bytes(stream).len() == 0),
    {
        self.stream(stream).len() == 0
    }

    /// Tells whether the bytes of `marker` stand somewhere in `stream`.
    pub fn contains_marker(&self, stream: Stream, marker: &str) -> (found: bool)
        ensures
            found == occurs_in(self.bytes(stream), encode_utf8(marker@)),
    {
        contains_bytes(self.stream(stream), marker.as_bytes())
    }
}

/// What came of starting the program under test.
#[derive(Debug, PartialEq, Eq)]
pub enum Launch {
    /// The program started and ran to its end, whatever its status.
    Ran { stdout: Vec<u8>, stderr: Vec<u8>, status: ExitStatus },
    /// The program could not be started: it is missing, or may not be run.
    Refused { detail: String },
}

/// Records a run from what came of starting the program. A program that
/// ran has a capture, also where it ended with a failing status or was
/// killed; only a program that could not be started is a failure.
pub fn record(launch: Launch) -> (result: Result<Capture, Failure>)
    ensures
        match launch {
            Launch::Ran { stdout, stderr, status } => result.is_ok() && result.unwrap().bytes(
                Stream::Stdout,
            ) == stdout@ && result.unwrap().bytes(Stream::Stderr) == stderr@
                && result.unwrap().exit() == status,
            Launch::Refused { detail } => result.is_err() && result.unwrap_err()@
                == (FailureModel::Launch { detail: detail@ }),
        },
{
    match launch {
        Launch::Ran { stdout, stderr, status } => Ok(Capture::new(stdout, stderr, status)),
        Launch::Refused { detail } => Err(Failure::Launch { detail }),
    }
}

/// The text that marks a warning in the output of a build.
pub open spec fn warning_marker() -> Seq<char> {
    "warnings:"@
}

/// The checks on a run, one method for each stream.
///
/// A type that records a run says which bytes it captured from either
/// stream; the contracts of the checks speak of those bytes.
pub trait WithStdout {
    /// The bytes captured from the standard output.
    spec fn captured_stdout(&self) -> Seq<u8>;

    /// The bytes captured from the standard error.
    spec fn captured_stderr(&self) -> Seq<u8>;

    /// Checks that the standard output is exactly the text `stdout`.
    fn with_stdout(&self, stdout: &str) -> (result: Result<(), Failure>)
        ensures
            outcome(result) == text_verdict(self.captured_stdout(), stdout@),
    ;

    /// Checks that the standard error is exactly the text `stderr`.
    fn with_stderr(&self, stderr: &str) -> (result: Result<(), Failure>)
        ensures
            outcome(result) == text_verdict(self.captured_stderr(), stderr@),
    ;

    /// Checks that the standard output holds a match of the pattern `stdout`.
    fn with_stdout_regex(&self, stdout: &str) -> (result: Result<(), Failure>)
        ensures
            outcome(result) == pattern_verdict(self.captured_stdout(), stdout@),
    ;

    /// Checks that the standard error holds a match of the pattern `stderr`.
    fn with_stderr_regex(&self, stderr: &str) -> (result: Result<(), Failure>)
        ensures
            outcome(result) == pattern_verdict(self.captured_stderr(), stderr@),
    ;

    /// Tells whether the standard output holds the warning marker.
    fn stdout_warns(&self) -> (warns: bool)
        ensures
            warns == occurs_in(self.captured_stdout(), encode_utf8(warning_marker())),
    ;

    /// Tells whether the standard error holds the warning marker.
    fn stderr_warns(&self) -> (warns: bool)
        ensures
            warns == occurs_in(self.captured_stderr(), encode_utf8(warning_marker())),
    ;

    /// Tells whether nothing was written to the standard error.
    fn empty_stderr(&self) -> (empty: bool)
        ensures
            empty == (self.captured_stderr().len() == 0),
    ;

    /// Tells whether nothing was written to the standard output.
    fn empty_stdout(&self) -> (empty: bool)
        ensures
            empty == (self.captured_stdout().len() == 0),
    ;

    /// Checks that the standard output is the text of the reference file
    /// that the caller has read.
    fn with_stdout_file(&self, reference: &FileRead) -> (result: Result<(), Failure>)
        ensures
            outcome(result) == reference_verdict(self.captured_stdout(), reference@),
    ;

    /// Checks that the standard error is the text of the reference file
    /// that the caller has read.
    fn with_stderr_file(&self, reference: &FileRead) -> (result: Result<(), Failure>)
        ensures
            outcome(result) == reference_verdict(self.captured_stderr(), reference@),
    ;
}

impl WithStdout for Capture {
    open spec fn captured_stdout(&self) -> Seq<u8> {
        self.bytes(Stream::Stdout)
    }

    open spec fn captured_stderr(&self) -> Seq<u8> {
        self.bytes(Stream::Stderr)
    }

    fn with_stdout(&self, stdout: &str) -> (result: Result<(), Failure>) {
        self.with_text(Stream::Stdout, stdout)
    }

    fn with_stderr(&self, stderr: &str) -> (result: Result<(), Failure>) {
        self.with_text(Stream::Stderr, stderr)
    }

    fn with_stdout_regex(&self, stdout: &str) -> (result: Result<(), Failure>) {
        self.with_pattern(Stream::Stdout, stdout)
    }

    fn with_stderr_regex(&self, stderr: &str) -> (result: Result<(), Failure>) {
        self.with_pattern(Stream::Stderr, stderr)
    }

    fn stdout_warns(&self) -> (warns: bool) {
        self.contains_marker(Stream::Stdout, "warnings:")
    }

    fn stderr_warns(&self) -> (warns: bool) {
        self.contains_marker(Stream::Stderr, "warnings:")
    }

    fn empty_stderr(&self) -> (empty: bool) {
        self.is_empty(Stream::Stderr)
    }

    fn empty_stdout(&self) -> (empty: bool) {
        self.is_empty(Stream::Stdout)
    }

    fn with_stdout_file(&self, reference: &FileRead) -> (result: Result<(), Failure>) {
        self.with_file(Stream::Stdout, reference)
    }

    fn with_stderr_file(&self, reference: &FileRead) -> (result: Result<(), Failure>) {
        self.with_file(Stream::Stderr, reference)
    }
}

} // verus!
