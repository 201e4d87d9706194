//! The fixed suite list and the path helpers.

use golden_vectors::suites::repo_root;
use golden_vectors::suites::schema_rel_path;
use golden_vectors::suites::suite_list;

#[test]
fn eight_suites_in_declared_order() {
    let suites = suite_list();
    assert_eq!(suites.len(), 8);
    let names: Vec<&str> = suites.iter().map(|s| s.schema_name.as_str()).collect();
    assert_eq!(
        names,
        vec![
            "domain-event",
            "domain-event-batch",
            "conversation",
            "billing-entry",
            "transfer-spec",
            "lifecycle-transition-payload",
            "health-status",
            "thinking-trace",
        ]
    );
}

#[test]
fn first_suite_descriptor_fields() {
    let suites = suite_list();
    assert_eq!(suites[0].schema_name, "domain-event");
    assert_eq!(suites[0].vector_rel_path, "vectors/domain-event/events.json");
    assert_eq!(suites[0].valid_key, "valid_events");
    assert_eq!(suites[0].invalid_key, "invalid");
}

#[test]
fn bucket_keys_vary_per_suite() {
    let suites = suite_list();
    assert_eq!(suites[1].valid_key, "valid_batches");
    assert_eq!(suites[1].invalid_key, "invalid_batches");
    assert_eq!(suites[6].valid_key, "valid");
    assert_eq!(suites[6].invalid_key, "invalid");
    assert_eq!(suites[7].vector_rel_path, "vectors/thinking/thinking-traces.json");
}

#[test]
fn schema_path_from_name() {
    assert_eq!(schema_rel_path("domain-event"), "schemas/domain-event.schema.json");
    assert_eq!(schema_rel_path("health-status"), "schemas/health-status.schema.json");
}

#[test]
fn root_is_three_levels_up() {
    assert_eq!(repo_root("/repo/vectors/runners/rust"), "/repo/vectors/runners/rust/../../..");
}
