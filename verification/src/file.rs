//! Judgement of files that the program under test has written, and of
//! reference files that hold an expected text.
//!
//! The caller reads; this module judges what was read.

use crate::failure::{outcome, Failure, FailureModel};
use crate::text::{decode, expect_text, lemma_written_text_passes, text_verdict};
use vstd::prelude::*;
use vstd::utf8::{decode_utf8, encode_utf8, valid_utf8};

verus! {

/// What came of reading a file, whole or from its start.
#[derive(Debug, PartialEq, Eq)]
pub enum FileRead {
    /// There is no file at the path.
    Missing,
    /// The file is there and could not be read.
    Unreadable { detail: String },
    /// The bytes of the file.
    Contents { bytes: Vec<u8> },
}

/// What a [`FileRead`] holds, as mathematical values.
pub enum FileReadModel {
    Missing,
    Unreadable { detail: Seq<char> },
    Contents { bytes: Seq<u8> },
}

impl View for FileRead {
    type V = FileReadModel;

    open spec fn view(&self) -> FileReadModel {
        match *self {
            FileRead::Missing => FileReadModel::Missing,
            FileRead::Unreadable { detail } => FileReadModel::Unreadable { detail: detail@ },
            FileRead::Contents { bytes } => FileReadModel::Contents { bytes: bytes@ },
        }
    }
}

/// The detail of the failure that reports a missing reference file.
pub open spec fn missing_reference() -> Seq<char> {
    "the reference file does not exist"@
}

/// The judgement on a file that is expected to hold the text `expected`.
pub open spec fn file_verdict(read: FileReadModel, expected: Seq<char>) -> Result<(), FailureModel> {
    match read {
        FileReadModel::Missing => Err(FailureModel::Assertion { actual: None, expected }),
        FileReadModel::Unreadable { detail } => Err(FailureModel::Io { detail }),
        FileReadModel::Contents { bytes } => text_verdict(bytes, expected),
    }
}

/// Checks that a file holds exactly the text `expected`. A missing file
/// fails the check with nothing for the actual text; a file that is no valid
/// UTF-8 is reported as that, not as a mismatch; a file that could not be
/// read passes the reader's complaint on.
pub fn check_file(read: &FileRead, expected: &str) -> (result: Result<(), Failure>)
    ensures
        outcome(result) == file_verdict(read@, expected@),
{
    match read {
        FileRead::Missing => Err(Failure::Assertion { actual: None, expected: expected.to_owned() }),
        FileRead::Unreadable { detail } => Err(Failure::Io { detail: detail.clone() }),
        FileRead::Contents { bytes } => expect_text(bytes.as_slice(), expected),
    }
}

/// A file that holds a text as it was written out passes the check against
/// that text: what was written is what is found.
pub proof fn lemma_written_file_passes(text: Seq<char>)
    ensures
        file_verdict(FileReadModel::Contents { bytes: encode_utf8(text) }, text) == Ok::<
            (),
            FailureModel,
        >(()),
{
    lemma_written_text_passes(text);
}

/// The expected text that a reference file stands for, or the failure that
/// keeps it from standing for one.
pub open spec fn reference_reading(reference: FileReadModel) -> Result<Seq<char>, FailureModel> {
    match reference {
        FileReadModel::Missing => Err(FailureModel::Io { detail: missing_reference() }),
        FileReadModel::Unreadable { detail } => Err(FailureModel::Io { detail }),
        FileReadModel::Contents { bytes } => if valid_utf8(bytes) {
            Ok(decode_utf8(bytes))
        } else {
            Err(FailureModel::Encoding)
        },
    }
}

/// Takes the expected text out of a reference file. A reference file is
/// plain UTF-8 text and is taken whole, with its line endings.
pub fn reference_text(reference: &FileRead) -> (result: Result<String, Failure>)
    ensures
        match result {
            Ok(text) => reference_reading(reference@) == Ok::<Seq<char>, FailureModel>(text@),
            Err(failure) => reference_reading(reference@) == Err::<Seq<char>, FailureModel>(
                failure@,
            ),
        },
{
    match reference {
        FileRead::Missing => Err(
            Failure::Io { detail: "the reference file does not exist".to_owned() },
        ),
        FileRead::Unreadable { detail } => Err(Failure::Io { detail: detail.clone() }),
        FileRead::Contents { bytes } => match decode(bytes.as_slice()) {
            Some(text) => Ok(text.to_owned()),
            None => Err(Failure::Encoding),
        },
    }
}

/// The judgement on captured bytes that are expected to be the text of a
/// reference file.
pub open spec fn reference_verdict(captured: Seq<u8>, reference: FileReadModel) -> Result<
    (),
    FailureModel,
> {
    match reference_reading(reference) {
        Ok(expected) => text_verdict(captured, expected),
        Err(failure) => Err(failure),
    }
}

/// Checks that `captured` is the text that a reference file holds. The
/// reference is read first: where it cannot serve, that is the failure.
pub fn expect_reference(captured: &[u8], reference: &FileRead) -> (result: Result<(), Failure>)
    ensures
        outcome(result) == reference_verdict(captured@, reference@),
{
    match reference_text(reference) {
        Ok(expected) => expect_text(captured, expected.as_str()),
        Err(failure) => Err(failure),
    }
}

} // verus!
