use cli_sandbox::capture::{record, Capture, ExitStatus, Launch, Stream, WithStdout};
use cli_sandbox::failure::Failure;
use cli_sandbox::file::{check_file, FileRead};

fn capture(stdout: &[u8], stderr: &[u8]) -> Capture {
    Capture::new(stdout.to_vec(), stderr.to_vec(), ExitStatus::Code(0))
}

#[test]
fn capture_keeps_what_it_was_given() {
    let run = Capture::new(b"out".to_vec(), b"err".to_vec(), ExitStatus::Code(3));
    assert_eq!(run.stream(Stream::Stdout), b"out");
    assert_eq!(run.stream(Stream::Stderr), b"err");
    assert_eq!(run.status(), ExitStatus::Code(3));
    let killed = Capture::new(Vec::new(), Vec::new(), ExitStatus::Signal);
    assert_eq!(killed.status(), ExitStatus::Signal);
}

#[test]
fn failing_status_is_data_not_an_error() {
    let run = Capture::new(b"partial".to_vec(), b"boom".to_vec(), ExitStatus::Code(101));
    assert_eq!(run.status(), ExitStatus::Code(101));
    assert_eq!(run.with_text(Stream::Stdout, "partial"), Ok(()));
    assert_eq!(run.with_text(Stream::Stderr, "boom"), Ok(()));
}

#[test]
fn transpiler_scenario() {
    // The program was run with the argument "build" on a sandbox that holds main.py.
    let written = FileRead::Contents { bytes: b"fn main() {}\n".to_vec() };
    let run = capture(b"File transpiled correctly!", b"");
    assert_eq!(check_file(&written, "fn main() {}\n"), Ok(()));
    assert_eq!(run.with_text(Stream::Stdout, "File transpiled correctly!"), Ok(()));
    assert!(run.is_empty(Stream::Stderr));
}

#[test]
fn with_text_looks_at_the_named_stream() {
    let run = capture(b"out", b"err");
    assert_eq!(run.with_text(Stream::Stdout, "out"), Ok(()));
    assert_eq!(run.with_text(Stream::Stderr, "err"), Ok(()));
    assert_eq!(
        run.with_text(Stream::Stdout, "err"),
        Err(Failure::Assertion {
            actual: Some(String::from("out")),
            expected: String::from("err"),
        })
    );
}

#[test]
fn one_capture_serves_text_and_pattern_checks() {
    let run = capture(b"compiled 3 files in 120 ms\n", b"");
    assert_eq!(run.with_text(Stream::Stdout, "compiled 3 files in 120 ms\n"), Ok(()));
    assert_eq!(run.with_pattern(Stream::Stdout, r"compiled \d+ files"), Ok(()));
    assert!(run.with_pattern(Stream::Stderr, r"compiled").is_err());
}

#[test]
fn with_pattern_reports_an_invalid_pattern_first() {
    let run = capture(&[0xFF], b"[");
    assert!(matches!(run.with_pattern(Stream::Stdout, "["), Err(Failure::Pattern { .. })));
    assert!(matches!(run.with_pattern(Stream::Stderr, "["), Err(Failure::Pattern { .. })));
    assert_eq!(run.with_pattern(Stream::Stdout, "x"), Err(Failure::Encoding));
}

#[test]
fn is_empty_counts_bytes_only() {
    assert!(capture(b"", b"x").is_empty(Stream::Stdout));
    assert!(!capture(b"", b"x").is_empty(Stream::Stderr));
    assert!(!capture(&[0xFF], b"").is_empty(Stream::Stdout));
    assert!(!capture(b"\n", b"").is_empty(Stream::Stdout));
    assert!(!capture(b" ", b"").is_empty(Stream::Stdout));
}

#[test]
fn empty_checks_look_at_their_own_stream() {
    let quiet_stdout = capture(b"", b"error: something broke");
    assert!(quiet_stdout.empty_stdout());
    assert!(!quiet_stdout.empty_stderr());
    let quiet_stderr = capture(b"all good", b"");
    assert!(!quiet_stderr.empty_stdout());
    assert!(quiet_stderr.empty_stderr());
}

#[test]
fn contains_marker_never_fails() {
    let run = capture(b"note: fine", &[0xFF, b'w', b'a', b'r', b'n', b'i', b'n', b'g', b's', b':', 0xFE]);
    assert!(run.contains_marker(Stream::Stderr, "warnings:"));
    assert!(!run.contains_marker(Stream::Stdout, "warnings:"));
    assert!(run.contains_marker(Stream::Stdout, "fine"));
    assert!(run.contains_marker(Stream::Stdout, ""));
    assert!(!run.contains_marker(Stream::Stdout, "note: fine and more"));
}

#[test]
fn warns_look_for_the_warning_marker() {
    let run = capture(b"2 warnings: unused variable", b"warning: one");
    assert!(run.stdout_warns());
    assert!(!run.stderr_warns());
    let other = capture(b"", b"finished with warnings:\n");
    assert!(!other.stdout_warns());
    assert!(other.stderr_warns());
}

#[test]
fn trait_checks_agree_with_the_stream_checks() {
    let run = capture(b"out 1", b"err 2");
    assert_eq!(run.with_stdout("out 1"), Ok(()));
    assert_eq!(run.with_stderr("err 2"), Ok(()));
    assert!(run.with_stdout("err 2").is_err());
    assert!(run.with_stderr("out 1").is_err());
    assert_eq!(run.with_stdout_regex(r"^out \d$"), Ok(()));
    assert_eq!(run.with_stderr_regex(r"^err \d$"), Ok(()));
    assert!(run.with_stdout_regex(r"^err").is_err());
    assert!(run.with_stderr_regex(r"^out").is_err());
    assert!(matches!(run.with_stdout_regex("("), Err(Failure::Pattern { .. })));
    assert!(matches!(run.with_stderr_regex("("), Err(Failure::Pattern { .. })));
}

#[test]
fn with_file_compares_with_the_reference() {
    let run = capture(b"expected output\n", b"expected errors\n");
    let stdout_reference = FileRead::Contents { bytes: b"expected output\n".to_vec() };
    let stderr_reference = FileRead::Contents { bytes: b"expected errors\n".to_vec() };
    assert_eq!(run.with_file(Stream::Stdout, &stdout_reference), Ok(()));
    assert_eq!(run.with_stdout_file(&stdout_reference), Ok(()));
    assert_eq!(run.with_stderr_file(&stderr_reference), Ok(()));
    assert_eq!(
        run.with_stdout_file(&stderr_reference),
        Err(Failure::Assertion {
            actual: Some(String::from("expected output\n")),
            expected: String::from("expected errors\n"),
        })
    );
}

#[test]
fn with_file_reports_a_reference_that_cannot_serve() {
    let run = capture(b"out", b"");
    assert_eq!(
        run.with_stdout_file(&FileRead::Missing),
        Err(Failure::Io { detail: String::from("the reference file does not exist") })
    );
    assert_eq!(
        run.with_stderr_file(&FileRead::Unreadable { detail: String::from("permission denied") }),
        Err(Failure::Io { detail: String::from("permission denied") })
    );
    assert_eq!(
        run.with_stdout_file(&FileRead::Contents { bytes: vec![0xFF] }),
        Err(Failure::Encoding)
    );
}

#[test]
fn checks_are_reachable_from_the_crate_root() {
    let run = cli_sandbox::Capture::new(b"ok".to_vec(), Vec::new(), cli_sandbox::ExitStatus::Code(0));
    assert_eq!(cli_sandbox::WithStdout::with_stdout(&run, "ok"), Ok(()));
    assert!(cli_sandbox::WithStdout::empty_stderr(&run));
    assert_eq!(
        run.with_file(cli_sandbox::Stream::Stdout, &cli_sandbox::FileRead::Missing).unwrap_err(),
        cli_sandbox::Failure::Io { detail: String::from("the reference file does not exist") }
    );
}

#[test]
fn failing_run_is_recorded_not_refused() {
    let ran = Launch::Ran {
        stdout: b"partial".to_vec(),
        stderr: b"error: it broke".to_vec(),
        status: ExitStatus::Code(1),
    };
    let run = record(ran).expect("the program has run");
    assert_eq!(run.status(), ExitStatus::Code(1));
    assert_eq!(run.stream(Stream::Stdout), b"partial");
    assert_eq!(run.stream(Stream::Stderr), b"error: it broke");
    let killed = Launch::Ran { stdout: Vec::new(), stderr: Vec::new(), status: ExitStatus::Signal };
    assert_eq!(record(killed).map(|run| run.status()), Ok(ExitStatus::Signal));
}

#[test]
fn program_that_cannot_start_is_a_launch_failure() {
    let refused = Launch::Refused { detail: String::from("No such file or directory (os error 2)") };
    assert_eq!(
        record(refused),
        Err(Failure::Launch { detail: String::from("No such file or directory (os error 2)") })
    );
}
