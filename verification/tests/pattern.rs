use cli_sandbox::failure::Failure;
use cli_sandbox::pattern::{expect_pattern, judge_search, Pattern};

#[test]
fn pattern_matches_part_of_the_text() {
    assert_eq!(expect_pattern(b"File transpiled correctly!", "transpiled"), Ok(()));
    assert_eq!(expect_pattern(b"File transpiled correctly!", r"^File \w+ correctly!$"), Ok(()));
    assert_eq!(expect_pattern(b"build took 12 ms", r"\d+ ms"), Ok(()));
}

#[test]
fn pattern_need_not_cover_the_text() {
    assert_eq!(expect_pattern(b"xxabcxx", "abc"), Ok(()));
    assert!(expect_pattern(b"xxabcxx", "^abc$").is_err());
}

#[test]
fn pattern_without_a_match_reports_text_and_pattern() {
    assert_eq!(
        expect_pattern(b"hello", r"\d+"),
        Err(Failure::Assertion {
            actual: Some(String::from("hello")),
            expected: String::from(r"\d+"),
        })
    );
}

#[test]
fn invalid_pattern_is_a_pattern_failure() {
    match expect_pattern(b"hello", "[unbalanced") {
        Err(Failure::Pattern { pattern, diagnostic }) => {
            assert_eq!(pattern, "[unbalanced");
            assert!(!diagnostic.is_empty());
        }
        other => panic!("expected a pattern failure, got {:?}", other),
    }
}

#[test]
fn invalid_pattern_is_reported_before_the_content() {
    // Neither a matching text nor bytes that are no text get in the way.
    assert!(matches!(expect_pattern(b"[", "["), Err(Failure::Pattern { .. })));
    assert!(matches!(expect_pattern(&[0xFF, 0xFE], "(" ), Err(Failure::Pattern { .. })));
    assert!(matches!(expect_pattern(b"", "a{2,1}"), Err(Failure::Pattern { .. })));
}

#[test]
fn oversized_pattern_is_a_pattern_failure() {
    assert!(matches!(expect_pattern(b"x", r"\w{1000}"), Err(Failure::Pattern { .. })));
}

#[test]
fn invalid_utf8_is_an_encoding_failure_for_a_valid_pattern() {
    assert_eq!(expect_pattern(&[0xFF, 0xFE], "a"), Err(Failure::Encoding));
    assert_eq!(expect_pattern(&[0xFF], ""), Err(Failure::Encoding));
}

#[test]
fn compile_keeps_the_source() {
    let pattern = Pattern::compile(r"a+b").expect("the pattern is valid");
    assert_eq!(pattern.as_str(), r"a+b");
    assert!(pattern.is_match("xaaab"));
    assert!(!pattern.is_match("ab".strip_prefix("a").unwrap()));
    assert!(!pattern.is_match(""));
}

#[test]
fn compile_refuses_a_malformed_pattern() {
    match Pattern::compile("(open") {
        Err(Failure::Pattern { pattern, diagnostic }) => {
            assert_eq!(pattern, "(open");
            assert!(diagnostic.contains("unclosed group"));
        }
        Err(other) => panic!("expected a pattern failure, got {:?}", other),
        Ok(_) => panic!("the pattern must be refused"),
    }
}

#[test]
fn empty_pattern_matches_everything() {
    assert_eq!(expect_pattern(b"", ""), Ok(()));
    assert_eq!(expect_pattern(b"anything", ""), Ok(()));
}

#[test]
fn judge_search_follows_what_was_found() {
    assert_eq!(judge_search(true, "text", "pattern"), Ok(()));
    assert_eq!(
        judge_search(false, "text", "pattern"),
        Err(Failure::Assertion {
            actual: Some(String::from("text")),
            expected: String::from("pattern"),
        })
    );
}
