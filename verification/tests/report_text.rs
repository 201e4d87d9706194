//! Exact expected text for every line the runner builds.

use golden_vectors::report::decimal_string;
use golden_vectors::report::exit_code;
use golden_vectors::report::failure_message;
use golden_vectors::report::header_line;
use golden_vectors::report::progress_line;
use golden_vectors::report::skip_schema_line;
use golden_vectors::report::skip_vectors_line;
use golden_vectors::report::summary_lines;
use golden_vectors::result::TestResult;

#[test]
fn decimal_rendering() {
    assert_eq!(decimal_string(0), "0");
    assert_eq!(decimal_string(7), "7");
    assert_eq!(decimal_string(10), "10");
    assert_eq!(decimal_string(100), "100");
    assert_eq!(decimal_string(40296), "40296");
    assert_eq!(decimal_string(u32::MAX), "4294967295");
}

#[test]
fn failure_message_both_directions() {
    assert_eq!(
        failure_message("conversation", "c-1", true),
        "conversation/c-1: expected valid, got invalid"
    );
    assert_eq!(
        failure_message("billing-entry", "b-2", false),
        "billing-entry/b-2: expected invalid, got valid"
    );
}

#[test]
fn progress_line_markers() {
    assert_eq!(progress_line("v-1", true), "  [PASS] v-1");
    assert_eq!(progress_line("v-2", false), "  [FAIL] v-2");
}

#[test]
fn header_and_skip_lines() {
    assert_eq!(header_line("domain-event", "events.json"), "domain-event (events.json):");
    assert_eq!(
        skip_schema_line("/r/schemas/x.schema.json"),
        "  SKIP: schema not found: /r/schemas/x.schema.json"
    );
    assert_eq!(
        skip_vectors_line("/r/vectors/x.json"),
        "  SKIP: vectors not found: /r/vectors/x.json"
    );
}

#[test]
fn summary_without_failures() {
    let mut result = TestResult::new();
    result.record_pass();
    result.record_pass();
    let lines = summary_lines(&result);
    assert_eq!(lines.len(), 3);
    assert_eq!(lines[0], "");
    assert_eq!(lines[1], "==================================================");
    assert_eq!(lines[2], "Results: 2 passed, 0 failed");
}

#[test]
fn summary_with_failures() {
    let mut result = TestResult::new();
    result.record_pass();
    result.record_fail("one/a: expected valid, got invalid".to_string());
    result.record_fail("two/b: expected invalid, got valid".to_string());
    let lines = summary_lines(&result);
    assert_eq!(lines.len(), 7);
    assert_eq!(lines[0], "");
    assert_eq!(lines[1], "==================================================");
    assert_eq!(lines[2], "Results: 1 passed, 2 failed");
    assert_eq!(lines[3], "");
    assert_eq!(lines[4], "Failures:");
    assert_eq!(lines[5], "  one/a: expected valid, got invalid");
    assert_eq!(lines[6], "  two/b: expected invalid, got valid");
}

#[test]
fn exit_status_law() {
    let mut clean = TestResult::new();
    assert_eq!(exit_code(&clean), 0);
    clean.record_pass();
    assert_eq!(exit_code(&clean), 0);
    let mut broken = TestResult::new();
    broken.record_fail("one/a: expected valid, got invalid".to_string());
    assert_eq!(exit_code(&broken), 1);
    broken.record_pass();
    assert_eq!(exit_code(&broken), 1);
}
