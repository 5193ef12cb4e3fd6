use cli_sandbox::failure::Failure;
use cli_sandbox::file::{check_file, expect_reference, reference_text, FileRead};

#[test]
fn file_with_the_expected_text_passes() {
    let read = FileRead::Contents { bytes: b"fn main() {\n    println!(\"Hi!\");\n}\n".to_vec() };
    assert_eq!(check_file(&read, "fn main() {\n    println!(\"Hi!\");\n}\n"), Ok(()));
}

#[test]
fn write_then_check_round_trips() {
    for contents in ["def main(): pass", "", "\u{3b1}\u{3b2}\u{3b3}\n", "a\0b"] {
        let read = FileRead::Contents { bytes: contents.as_bytes().to_vec() };
        assert_eq!(check_file(&read, contents), Ok(()));
    }
}

#[test]
fn missing_file_fails_the_check() {
    assert_eq!(
        check_file(&FileRead::Missing, "expected"),
        Err(Failure::Assertion { actual: None, expected: String::from("expected") })
    );
}

#[test]
fn file_with_other_text_reports_both() {
    let read = FileRead::Contents { bytes: b"actual".to_vec() };
    assert_eq!(
        check_file(&read, "expected"),
        Err(Failure::Assertion {
            actual: Some(String::from("actual")),
            expected: String::from("expected"),
        })
    );
}

#[test]
fn file_that_is_no_text_is_an_encoding_failure() {
    let read = FileRead::Contents { bytes: vec![0x7F, 0x45, 0x4C, 0x46, 0xFF] };
    assert_eq!(check_file(&read, "expected"), Err(Failure::Encoding));
}

#[test]
fn unreadable_file_is_an_io_failure() {
    let read = FileRead::Unreadable { detail: String::from("permission denied") };
    assert_eq!(
        check_file(&read, "expected"),
        Err(Failure::Io { detail: String::from("permission denied") })
    );
}

#[test]
fn reference_text_is_taken_whole() {
    let read = FileRead::Contents { bytes: b"line one\nline two\n".to_vec() };
    assert_eq!(reference_text(&read), Ok(String::from("line one\nline two\n")));
    assert_eq!(reference_text(&FileRead::Contents { bytes: Vec::new() }), Ok(String::new()));
}

#[test]
fn reference_that_cannot_serve_is_a_failure() {
    assert_eq!(
        reference_text(&FileRead::Missing),
        Err(Failure::Io { detail: String::from("the reference file does not exist") })
    );
    assert_eq!(
        reference_text(&FileRead::Unreadable { detail: String::from("is a directory") }),
        Err(Failure::Io { detail: String::from("is a directory") })
    );
    assert_eq!(reference_text(&FileRead::Contents { bytes: vec![0xC3] }), Err(Failure::Encoding));
}

#[test]
fn expect_reference_reads_the_reference_first() {
    // Both sides are no text: the reference is the one that is reported.
    assert_eq!(expect_reference(&[0xFF], &FileRead::Missing).unwrap_err(), Failure::Io {
        detail: String::from("the reference file does not exist"),
    });
    let reference = FileRead::Contents { bytes: b"same".to_vec() };
    assert_eq!(expect_reference(b"same", &reference), Ok(()));
    assert_eq!(expect_reference(&[0xFF], &reference), Err(Failure::Encoding));
    assert_eq!(
        expect_reference(b"same\n", &reference),
        Err(Failure::Assertion {
            actual: Some(String::from("same\n")),
            expected: String::from("same"),
        })
    );
}
