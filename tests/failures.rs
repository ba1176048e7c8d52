use arqonship::heal::parser_py::PythonLogParser;
use arqonship::heal::parser_rust::RustLogParser;
use arqonship::json::parse_json;

#[test]
fn pytest_report_blocks() {
    let report = "collected 2 items\nFAILED tests/test_a.py::test_one - AssertionError\nE   assert 1 == 2\n  where x\n=== short test summary info ===\nFAILED tests/test_b.py::test_two\nE boom\n";
    let fs = PythonLogParser::parse_pytest_output(report).unwrap();
    assert_eq!(fs.len(), 1);
    assert_eq!(fs[0].file_path, "tests/test_a.py");
    assert_eq!(fs[0].test_name, "test_one");
    assert_eq!(fs[0].error_message, "E   assert 1 == 2\n  where x");
    assert_eq!(fs[0].line, None);
    assert!(PythonLogParser::parse_pytest_output("").unwrap().is_empty());
}

#[test]
fn pytest_path_without_test_name() {
    let fs = PythonLogParser::parse_pytest_output("FAILED   mod.py\nmsg\n==== short test summary ====\n").unwrap();
    assert_eq!(fs.len(), 1);
    assert_eq!(fs[0].file_path, "mod.py");
    assert_eq!(fs[0].test_name, "");
    assert_eq!(fs[0].error_message, "msg");
}

const ERR_LINE: &str = r#"{"reason":"compiler-message","message":{"message":"cannot find value `x` in this scope","level":"error","code":{"code":"E0425"},"spans":[{"file_name":"src/lib.rs","line_start":42,"line_end":42},{"file_name":"src/main.rs","line_start":7,"line_end":8}]}}"#;

#[test]
fn cargo_errors_one_failure_per_span() {
    let stream = format!(
        "{}\n\nnot json at all\n{}\n{}\n",
        ERR_LINE,
        r#"{"reason":"compiler-message","message":{"message":"unused","level":"warning","spans":[{"file_name":"a.rs","line_start":1,"line_end":1}]}}"#,
        r#"{"reason":"build-finished","success":false}"#
    );
    let fs = RustLogParser::parse_cargo_output(&stream).unwrap();
    assert_eq!(fs.len(), 2);
    assert_eq!(fs[0].file_path, "src/lib.rs");
    assert_eq!(fs[0].line, Some(42));
    assert_eq!(fs[0].error_message, "cannot find value `x` in this scope");
    assert_eq!(fs[0].test_name, "");
    assert_eq!(fs[1].file_path, "src/main.rs");
    assert_eq!(fs[1].line, Some(7));
}

#[test]
fn malformed_message_is_skipped() {
    let bad_span = r#"{"reason":"compiler-message","message":{"message":"m","level":"error","spans":[{"file_name":"a.rs","line_start":-1,"line_end":1}]}}"#;
    let bad_code = r#"{"reason":"compiler-message","message":{"message":"m","level":"error","code":7,"spans":[]}}"#;
    let stream = format!("{}\n{}\n{}", bad_span, bad_code, ERR_LINE);
    let fs = RustLogParser::parse_cargo_output(&stream).unwrap();
    assert_eq!(fs.len(), 2);
    assert!(RustLogParser::parse_cargo_output("").unwrap().is_empty());
}

#[test]
fn failures_from_a_parsed_message() {
    let v = parse_json(ERR_LINE).unwrap();
    let fs = RustLogParser::failures_from_message(&v);
    assert_eq!(fs.len(), 2);
    assert_eq!(fs[1].error_message, "cannot find value `x` in this scope");
    assert!(parse_json("{oops").is_none());
}
