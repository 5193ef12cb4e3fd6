use cli_sandbox::failure::Failure;

#[test]
fn assertion_shows_expected_and_actual() {
    let failure = Failure::Assertion {
        actual: Some(String::from("File transpiled wrongly!")),
        expected: String::from("File transpiled correctly!"),
    };
    assert_eq!(
        failure.describe(),
        "expected:\nFile transpiled correctly!\nactual:\nFile transpiled wrongly!"
    );
}

#[test]
fn missing_file_is_told_as_such() {
    let failure = Failure::Assertion { actual: None, expected: String::from("fn main() {}") };
    assert_eq!(
        failure.describe(),
        "expected:\nfn main() {}\nactual: nothing, the file is missing"
    );
}

#[test]
fn pattern_failure_names_pattern_and_diagnostic() {
    let failure = Failure::Pattern {
        pattern: String::from("["),
        diagnostic: String::from("unclosed character class"),
    };
    assert_eq!(failure.describe(), "the pattern [ is not valid: unclosed character class");
}

#[test]
fn other_failures_carry_their_detail() {
    assert_eq!(
        Failure::Io { detail: String::from("permission denied") }.describe(),
        "file system: permission denied"
    );
    assert_eq!(
        Failure::Launch { detail: String::from("no such file") }.describe(),
        "could not start the program: no such file"
    );
    assert_eq!(Failure::Encoding.describe(), "the bytes are not valid UTF-8");
}

#[test]
fn encoding_failure_differs_from_a_mismatch() {
    let mismatch = Failure::Assertion { actual: Some(String::new()), expected: String::new() };
    assert_ne!(Failure::Encoding, mismatch);
}
