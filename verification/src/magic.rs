//! Recognition of executable files by their magic numbers.
//!
//! A file is classified by its first [`WINDOW_LEN`] bytes. A shorter file is
//! padded with [`SENTINEL`], a byte that occurs in no signature, so that a
//! short file matches exactly the signatures that it holds in full.

use crate::bytes::starts_with;
use crate::file::{FileRead, FileReadModel};
use vstd::prelude::*;

verus! {

/// The number of leading bytes that a classification looks at: the length of
/// the longest signature.
pub const WINDOW_LEN: usize = 8;

/// The byte that fills the window behind the end of a short file.
pub const SENTINEL: u8 = 0x01;

/// The number of entries in the table of signatures.
pub const TABLE_LEN: usize = 6;

/// An executable container format that the classifier knows.
#[derive(Clone, Copy, Debug, PartialEq, Eq, Structural)]
pub enum ExecutableFormat {
    /// DOS MZ executable and its descendants (`4D 5A`).
    DosMz,
    /// DOS ZM executable, the rare byte-swapped variant (`5A 4D`).
    DosZm,
    /// Executable and Linkable Format (`7F 45 4C 46`).
    Elf,
    /// Dalvik executable, version 035 (`64 65 78 0A 30 33 35 00`).
    Dalvik,
    /// Preferred Executable Format (`4A 6F 79 21`).
    PreferredExecutable,
    /// Amiga Hunk executable (`00 00 03 F3`).
    AmigaHunk,
}

impl ExecutableFormat {
    /// The bytes with which a file of this format begins.
    pub open spec fn signature(self) -> Seq<u8> {
        match self {
            ExecutableFormat::DosMz => seq![0x4Du8, 0x5Au8],
            ExecutableFormat::DosZm => seq![0x5Au8, 0x4Du8],
            ExecutableFormat::Elf => seq![0x7Fu8, 0x45u8, 0x4Cu8, 0x46u8],
            ExecutableFormat::Dalvik => seq![
                0x64u8,
                0x65u8,
                0x78u8,
                0x0Au8,
                0x30u8,
                0x33u8,
                0x35u8,
                0x00u8,
            ],
            ExecutableFormat::PreferredExecutable => seq![0x4Au8, 0x6Fu8, 0x79u8, 0x21u8],
            ExecutableFormat::AmigaHunk => seq![0x00u8, 0x00u8, 0x03u8, 0xF3u8],
        }
    }

    /// The name by which the format goes.
    pub open spec fn title(self) -> Seq<char> {
        match self {
            ExecutableFormat::DosMz => "DOS MZ executable"@,
            ExecutableFormat::DosZm => "DOS ZM executable"@,
            ExecutableFormat::Elf => "ELF"@,
            ExecutableFormat::Dalvik => "Dalvik executable"@,
            ExecutableFormat::PreferredExecutable => "Preferred Executable Format"@,
            ExecutableFormat::AmigaHunk => "Amiga Hunk executable"@,
        }
    }

    /// The name by which the format goes.
    pub fn name(self) -> (name: &'static str)
        ensures
            name@ == self.title(),
    {
        match self {
            ExecutableFormat::DosMz => "DOS MZ executable",
            ExecutableFormat::DosZm => "DOS ZM executable",
            ExecutableFormat::Elf => "ELF",
            ExecutableFormat::Dalvik => "Dalvik executable",
            ExecutableFormat::PreferredExecutable => "Preferred Executable Format",
            ExecutableFormat::AmigaHunk => "Amiga Hunk executable",
        }
    }

    /// The signature as bytes to compare a file with.
    pub fn magic(self) -> (bytes: Vec<u8>)
        ensures
            bytes@ == self.signature(),
            0 < bytes@.len() <= WINDOW_LEN,
    {
        let bytes = match self {
            ExecutableFormat::DosMz => vec![0x4Du8, 0x5Au8],
            ExecutableFormat::DosZm => vec![0x5Au8, 0x4Du8],
            ExecutableFormat::Elf => vec![0x7Fu8, 0x45u8, 0x4Cu8, 0x46u8],
            ExecutableFormat::Dalvik => vec![
                0x64u8,
                0x65u8,
                0x78u8,
                0x0Au8,
                0x30u8,
                0x33u8,
                0x35u8,
                0x00u8,
            ],
            ExecutableFormat::PreferredExecutable => vec![0x4Au8, 0x6Fu8, 0x79u8, 0x21u8],
            ExecutableFormat::AmigaHunk => vec![0x00u8, 0x00u8, 0x03u8, 0xF3u8],
        };
        assert(bytes@ =~= self.signature());
        bytes
    }
}

/// The table of signatures, in the order in which they are tried.
pub open spec fn table() -> Seq<ExecutableFormat> {
    seq![
        ExecutableFormat::DosMz,
        ExecutableFormat::DosZm,
        ExecutableFormat::Elf,
        ExecutableFormat::Dalvik,
        ExecutableFormat::PreferredExecutable,
        ExecutableFormat::AmigaHunk,
    ]
}

/// The entry of the table at `index`, if the table is that long.
pub fn entry(index: usize) -> (format: Option<ExecutableFormat>)
    ensures
        format == if index < TABLE_LEN {
            Some(table()[index as int])
        } else {
            None
        },
{
    if index == 0 {
        Some(ExecutableFormat::DosMz)
    } else if index == 1 {
        Some(ExecutableFormat::DosZm)
    } else if index == 2 {
        Some(ExecutableFormat::Elf)
    } else if index == 3 {
        Some(ExecutableFormat::Dalvik)
    } else if index == 4 {
        Some(ExecutableFormat::PreferredExecutable)
    } else if index == 5 {
        Some(ExecutableFormat::AmigaHunk)
    } else {
        None
    }
}

/// The window that a file with the bytes `leading` is classified by: its
/// first [`WINDOW_LEN`] bytes, and [`SENTINEL`] wherever the file has ended.
pub open spec fn window(leading: Seq<u8>) -> Seq<u8> {
    Seq::new(
        WINDOW_LEN as nat,
        |i: int|
            if i < leading.len() {
                leading[i]
            } else {
                SENTINEL
            },
    )
}

/// The first entry of the table, from index `from` on, whose signature the
/// bytes `window` begin with.
pub open spec fn first_match(window: Seq<u8>, from: int) -> Option<ExecutableFormat>
    decreases table().len() - from,
{
    if from < 0 || from >= table().len() {
        None
    } else if table()[from].signature().is_prefix_of(window) {
        Some(table()[from])
    } else {
        first_match(window, from + 1)
    }
}

/// The format that a file with the bytes `leading` is classified as, if any.
pub open spec fn classification(leading: Seq<u8>) -> Option<ExecutableFormat> {
    first_match(window(leading), 0)
}

/// Builds the window of a file from the bytes read at its start.
pub fn padded_window(leading: &[u8]) -> (filled: Vec<u8>)
    ensures
        filled@ == window(leading@),
{
    let mut filled: Vec<u8> = Vec::new();
    let mut i: usize = 0;
    while i < WINDOW_LEN
        invariant
            i <= WINDOW_LEN,
            filled@.len() == i,
            forall|k: int| 0 <= k < i ==> filled@[k] == window(leading@)[k],
        decreases WINDOW_LEN - i,
    {
        if i < leading.len() {
            filled.push(leading[i]);
        } else {
            filled.push(SENTINEL);
        }
        i += 1;
    }
    assert(filled@ =~= window(leading@));
    filled
}

/// Classifies a file by the bytes read at its start. The caller hands over
/// the first [`WINDOW_LEN`] bytes of the file, or all of it where it is
/// shorter; bytes behind the window are not looked at.
pub fn classify(leading: &[u8]) -> (format: Option<ExecutableFormat>)
    ensures
        format == classification(leading@),
        forall|known: ExecutableFormat|
            format == Some(known) <==> #[trigger] known.signature().is_prefix_of(leading@),
{
    proof {
        assert forall|known: ExecutableFormat|
            classification(leading@) == Some(known) <==> #[trigger] known.signature().is_prefix_of(
                leading@,
            ) by {
            lemma_classified_by_prefix(leading@, known);
        }
    }
    let filled = padded_window(leading);
    let mut i: usize = 0;
    while i < TABLE_LEN
        invariant
            i <= TABLE_LEN,
            filled@ == window(leading@),
            first_match(filled@, 0) == first_match(filled@, i as int),
        decreases TABLE_LEN - i,
    {
        if let Some(candidate) = entry(i) {
            let signature = candidate.magic();
            if starts_with(filled.as_slice(), signature.as_slice()) {
                return Some(candidate);
            }
        }
        i += 1;
    }
    None
}

/// Tells whether a file that begins with `leading` is an executable of a
/// known format.
pub fn is_executable_format(leading: &[u8]) -> (executable: bool)
    ensures
        executable == classification(leading@).is_some(),
        executable <==> exists|known: ExecutableFormat|
            #[trigger] known.signature().is_prefix_of(leading@),
{
    proof {
        lemma_executable_iff_some_signature(leading@);
    }
    classify(leading).is_some()
}

/// The format of a file, given what came of reading it.
pub open spec fn read_classification(read: FileReadModel) -> Option<ExecutableFormat> {
    match read {
        FileReadModel::Contents { bytes } => classification(bytes),
        _ => None,
    }
}

/// Classifies a file from what came of reading its start. A file that is
/// missing or could not be read is no executable; this never fails.
pub fn classify_read(read: &FileRead) -> (format: Option<ExecutableFormat>)
    ensures
        format == read_classification(read@),
{
    match read {
        FileRead::Contents { bytes } => classify(bytes.as_slice()),
        _ => None,
    }
}

/// No signature holds the padding byte, so padding never completes a match.
pub proof fn lemma_sentinel_in_no_signature(format: ExecutableFormat)
    ensures
        forall|i: int| 0 <= i < format.signature().len() ==> format.signature()[i] != SENTINEL,
{
}

/// A file is classified as a format exactly when it begins with all the
/// bytes of that format's signature. In particular no two signatures fit the
/// same file, and a file too short for a signature does not match it.
pub proof fn lemma_classified_by_prefix(leading: Seq<u8>, format: ExecutableFormat)
    ensures
        classification(leading) == Some(format) <==> format.signature().is_prefix_of(leading),
{
    reveal_with_fuel(first_match, 7);
    let w = window(leading);
    assert forall|f: ExecutableFormat|
        f.signature().is_prefix_of(w) <==> #[trigger] f.signature().is_prefix_of(leading) by {
        lemma_padding_keeps_matches(leading, f);
    }
    assert forall|f: ExecutableFormat| #[trigger]
        f.signature().is_prefix_of(w) implies f.signature()[0] == w[0] by {
        assert(f.signature()[0] == w.subrange(0, f.signature().len() as int)[0]);
    }
}

/// A signature fits the padded window of a file exactly when it fits the
/// file itself.
pub proof fn lemma_padding_keeps_matches(leading: Seq<u8>, format: ExecutableFormat)
    ensures
        format.signature().is_prefix_of(window(leading)) <==> format.signature().is_prefix_of(
            leading,
        ),
{
    let sig = format.signature();
    let w = window(leading);
    let n = sig.len() as int;
    lemma_sentinel_in_no_signature(format);
    if sig.is_prefix_of(w) {
        if leading.len() < n {
            let k = leading.len() as int;
            assert(sig[k] == w.subrange(0, n)[k]);
            assert(w[k] == SENTINEL);
        }
        assert(sig =~= leading.subrange(0, n)) by {
            assert forall|i: int| 0 <= i < n implies sig[i] == leading.subrange(0, n)[i] by {
                assert(sig[i] == w.subrange(0, n)[i]);
            }
        }
    }
    if sig.is_prefix_of(leading) {
        assert(sig =~= w.subrange(0, n)) by {
            assert forall|i: int| 0 <= i < n implies sig[i] == w.subrange(0, n)[i] by {
                assert(sig[i] == leading.subrange(0, n)[i]);
            }
        }
    }
}

/// A file is an executable of a known format exactly when it begins with
/// one of the signatures of the table.
pub proof fn lemma_executable_iff_some_signature(leading: Seq<u8>)
    ensures
        classification(leading).is_some() <==> exists|format: ExecutableFormat|
            #[trigger] format.signature().is_prefix_of(leading),
{
    if classification(leading).is_some() {
        let format = classification(leading).unwrap();
        lemma_classified_by_prefix(leading, format);
    }
    if exists|format: ExecutableFormat| #[trigger] format.signature().is_prefix_of(leading) {
        let format = choose|format: ExecutableFormat| #[trigger]
            format.signature().is_prefix_of(leading);
        lemma_classified_by_prefix(leading, format);
    }
}

/// Only the window counts: bytes behind it do not change the classification.
pub proof fn lemma_only_the_window_counts(leading: Seq<u8>)
    requires
        leading.len() >= WINDOW_LEN,
    ensures
        classification(leading) == classification(leading.subrange(0, WINDOW_LEN as int)),
{
    assert(window(leading) =~= window(leading.subrange(0, WINDOW_LEN as int)));
}

/// A file that begins with `4D 5A` is a DOS MZ executable.
pub proof fn lemma_dos_mz_is_executable(leading: Seq<u8>)
    requires
        leading.len() >= 2,
        leading[0] == 0x4D,
        leading[1] == 0x5A,
    ensures
        classification(leading) == Some(ExecutableFormat::DosMz),
{
    assert(ExecutableFormat::DosMz.signature() =~= leading.subrange(0, 2));
    lemma_classified_by_prefix(leading, ExecutableFormat::DosMz);
}

/// A file that begins with `7F 45 4C 46` is an ELF executable.
pub proof fn lemma_elf_is_executable(leading: Seq<u8>)
    requires
        leading.len() >= 4,
        leading[0] == 0x7F,
        leading[1] == 0x45,
        leading[2] == 0x4C,
        leading[3] == 0x46,
    ensures
        classification(leading) == Some(ExecutableFormat::Elf),
{
    assert(ExecutableFormat::Elf.signature() =~= leading.subrange(0, 4));
    lemma_classified_by_prefix(leading, ExecutableFormat::Elf);
}

/// A file shorter than the window that begins with no signature is not an
/// executable; the padding does not make it one.
pub proof fn lemma_short_file_without_signature(leading: Seq<u8>)
    requires
        leading.len() < WINDOW_LEN,
        forall|format: ExecutableFormat| !#[trigger] format.signature().is_prefix_of(leading),
    ensures
        classification(leading).is_none(),
{
    lemma_executable_iff_some_signature(leading);
}

/// An empty file is not an executable.
pub proof fn lemma_empty_file_is_not_executable()
    ensures
        classification(Seq::<u8>::empty()).is_none(),
{
    assert forall|format: ExecutableFormat|
        !#[trigger] format.signature().is_prefix_of(Seq::<u8>::empty()) by {
        assert(format.signature().len() > 0);
    }
    lemma_short_file_without_signature(Seq::<u8>::empty());
}

} // verus!
