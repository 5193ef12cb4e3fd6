//! The ways in which a step of a test can fail.

use vstd::prelude::*;
use vstd::string::StringExecFns;

verus! {

/// A failure of one step of a test. Every failure reaches the caller at the
/// call that caused it; nothing is retried.
#[derive(Debug, PartialEq, Eq)]
pub enum Failure {
    /// The file system refused an access: creating the sandbox, writing or
    /// reading a file.
    Io { detail: String },
    /// The program under test could not be started. A program that started
    /// and exited with a failing status is no launch failure.
    Launch { detail: String },
    /// A pattern is not a regular expression that the engine accepts.
    Pattern { pattern: String, diagnostic: String },
    /// What was found is not what was expected. `actual` is `None` where
    /// there was nothing to look at: the file is missing.
    Assertion { actual: Option<String>, expected: String },
    /// Bytes that had to be text are not valid UTF-8.
    Encoding,
}

/// What a [`Failure`] holds, as mathematical values.
pub enum FailureModel {
    Io { detail: Seq<char> },
    Launch { detail: Seq<char> },
    Pattern { pattern: Seq<char>, diagnostic: Seq<char> },
    Assertion { actual: Option<Seq<char>>, expected: Seq<char> },
    Encoding,
}

impl View for Failure {
    type V = FailureModel;

    open spec fn view(&self) -> FailureModel {
        match *self {
            Failure::Io { detail } => FailureModel::Io { detail: detail@ },
            Failure::Launch { detail } => FailureModel::Launch { detail: detail@ },
            Failure::Pattern { pattern, diagnostic } => FailureModel::Pattern {
                pattern: pattern@,
                diagnostic: diagnostic@,
            },
            Failure::Assertion { actual, expected } => FailureModel::Assertion {
                actual: match actual {
                    Some(text) => Some(text@),
                    None => None,
                },
                expected: expected@,
            },
            Failure::Encoding => FailureModel::Encoding,
        }
    }
}

/// The view of the result of a check: success, or the view of its failure.
pub open spec fn outcome(result: Result<(), Failure>) -> Result<(), FailureModel> {
    match result {
        Ok(()) => Ok(()),
        Err(failure) => Err(failure@),
    }
}

/// The words in which a failure is told to a person. An assertion shows
/// the expected text and the actual one in full, each from the start of a
/// line, so that the two can be held against each other.
pub open spec fn description(failure: FailureModel) -> Seq<char> {
    match failure {
        FailureModel::Io { detail } => "file system: "@ + detail,
        FailureModel::Launch { detail } => "could not start the program: "@ + detail,
        FailureModel::Pattern { pattern, diagnostic } => "the pattern "@ + pattern
            + " is not valid: "@ + diagnostic,
        FailureModel::Assertion { actual: Some(actual), expected } => "expected:\n"@ + expected
            + "\nactual:\n"@ + actual,
        FailureModel::Assertion { actual: None, expected } => "expected:\n"@ + expected
            + "\nactual: nothing, the file is missing"@,
        FailureModel::Encoding => "the bytes are not valid UTF-8"@,
    }
}

impl Failure {
    /// Tells the failure in words.
    pub fn describe(&self) -> (text: String)
        ensures
            text@ == description(self@),
    {
        match self {
            Failure::Io { detail } => {
                let mut text = "file system: ".to_owned();
                text.append(detail.as_str());
                text
            },
            Failure::Launch { detail } => {
                let mut text = "could not start the program: ".to_owned();
                text.append(detail.as_str());
                text
            },
            Failure::Pattern { pattern, diagnostic } => {
                let mut text = "the pattern ".to_owned();
                text.append(pattern.as_str());
                text.append(" is not valid: ");
                text.append(diagnostic.as_str());
                text
            },
            Failure::Assertion { actual: Some(actual), expected } => {
                let mut text = "expected:\n".to_owned();
                text.append(expected.as_str());
                text.append("\nactual:\n");
                text.append(actual.as_str());
                text
            },
            Failure::Assertion { actual: None, expected } => {
                let mut text = "expected:\n".to_owned();
                text.append(expected.as_str());
                text.append("\nactual: nothing, the file is missing");
                text
            },
            Failure::Encoding => "the bytes are not valid UTF-8".to_owned(),
        }
    }
}

} // verus!
