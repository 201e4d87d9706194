//! The aggregate's operations and the bucket classifier on hand-built
//! observation records.

use golden_vectors::result::TestResult;
use golden_vectors::runner::apply_bucket;
use golden_vectors::runner::EntryRecord;
use golden_vectors::runner::FatalError;

fn rec(id: &str, has_data: bool, accepted: bool) -> EntryRecord {
    EntryRecord { id: id.to_string(), has_data, accepted }
}

#[test]
fn fresh_aggregate_is_empty() {
    let result = TestResult::new();
    assert_eq!(result.passed(), 0);
    assert_eq!(result.failed(), 0);
    assert!(result.messages().is_empty());
}

#[test]
fn counters_grow_and_messages_keep_order() {
    let mut result = TestResult::new();
    result.record_pass();
    result.record_fail("first".to_string());
    result.record_pass();
    result.record_fail("second".to_string());
    assert_eq!(result.passed(), 2);
    assert_eq!(result.failed(), 2);
    assert_eq!(result.messages(), &vec!["first".to_string(), "second".to_string()]);
}

#[test]
fn valid_bucket_counts_each_record_once() {
    let mut result = TestResult::new();
    let recs = vec![rec("a", true, true), rec("b", true, false), rec("c", true, true)];
    let r = apply_bucket(&mut result, "demo", true, &recs);
    assert!(r.is_ok());
    assert_eq!(result.passed(), 2);
    assert_eq!(result.failed(), 1);
    assert_eq!(result.messages()[0], "demo/b: expected valid, got invalid");
}

#[test]
fn invalid_bucket_rewards_rejection() {
    let mut result = TestResult::new();
    let recs = vec![rec("a", true, false), rec("b", true, true)];
    let r = apply_bucket(&mut result, "demo", false, &recs);
    assert!(r.is_ok());
    assert_eq!(result.passed(), 1);
    assert_eq!(result.failed(), 1);
    assert_eq!(result.messages()[0], "demo/b: expected invalid, got valid");
}

#[test]
fn three_records_one_dataless_in_invalid_bucket() {
    let mut result = TestResult::new();
    let recs = vec![rec("a", true, false), rec("c", false, false), rec("b", true, false)];
    let r = apply_bucket(&mut result, "demo", false, &recs);
    assert!(r.is_ok());
    assert_eq!(result.passed(), 2);
    assert_eq!(result.failed(), 0);
    assert!(result.messages().is_empty());
}

#[test]
fn dataless_record_in_valid_bucket_stops_there() {
    let mut result = TestResult::new();
    let recs = vec![rec("a", true, true), rec("c", false, false), rec("b", true, true)];
    let r = apply_bucket(&mut result, "demo", true, &recs);
    assert!(matches!(r, Err(FatalError::MissingData)));
    assert_eq!(result.passed(), 1);
    assert_eq!(result.failed(), 0);
}
