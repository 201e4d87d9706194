//! The fixed, ordered list of suites the run drives, and the path
//! arithmetic that locates each suite's files under the repository root.

use vstd::prelude::*;
use vstd::string::StringExecFns;

verus! {

/// One suite: a schema name paired with the vector file that exercises it
/// and the names of that file's two buckets.
pub struct SuiteDescriptor {
    pub schema_name: String,
    pub vector_rel_path: String,
    pub valid_key: String,
    pub invalid_key: String,
}

impl SuiteDescriptor {
    /// Builds one descriptor from its four fixed names.
    fn new(
        schema_name: &str,
        vector_rel_path: &str,
        valid_key: &str,
        invalid_key: &str,
    ) -> (s: Self)
        ensures
            s.schema_name@ == schema_name@,
            s.vector_rel_path@ == vector_rel_path@,
            s.valid_key@ == valid_key@,
            s.invalid_key@ == invalid_key@,
    {
        SuiteDescriptor {
            schema_name: String::from_str(schema_name),
            vector_rel_path: String::from_str(vector_rel_path),
            valid_key: String::from_str(valid_key),
            invalid_key: String::from_str(invalid_key),
        }
    }
}

/// The descriptors, in the fixed order the run drives them.
pub fn suite_list() -> (r: Vec<SuiteDescriptor>)
    ensures
        r@.len() == 8,
        r@[0].schema_name@ == "domain-event"@,
        r@[0].vector_rel_path@ == "vectors/domain-event/events.json"@,
        r@[0].valid_key@ == "valid_events"@,
        r@[0].invalid_key@ == "invalid"@,
        r@[1].schema_name@ == "domain-event-batch"@,
        r@[1].vector_rel_path@ == "vectors/domain-event/batches.json"@,
        r@[1].valid_key@ == "valid_batches"@,
        r@[1].invalid_key@ == "invalid_batches"@,
        r@[2].schema_name@ == "conversation"@,
        r@[2].vector_rel_path@ == "vectors/conversation/conversations.json"@,
        r@[2].valid_key@ == "valid_conversations"@,
        r@[2].invalid_key@ == "invalid"@,
        r@[3].schema_name@ == "billing-entry"@,
        r@[3].vector_rel_path@ == "vectors/billing/allocation.json"@,
        r@[3].valid_key@ == "valid_entries"@,
        r@[3].invalid_key@ == "invalid_entries"@,
        r@[4].schema_name@ == "transfer-spec"@,
        r@[4].vector_rel_path@ == "vectors/transfer/transfers.json"@,
        r@[4].valid_key@ == "valid_transfers"@,
        r@[4].invalid_key@ == "invalid_transfers"@,
        r@[5].schema_name@ == "lifecycle-transition-payload"@,
        r@[5].vector_rel_path@ == "vectors/agent/lifecycle-payloads.json"@,
        r@[5].valid_key@ == "valid_payloads"@,
        r@[5].invalid_key@ == "invalid_payloads"@,
        r@[6].schema_name@ == "health-status"@,
        r@[6].vector_rel_path@ == "vectors/health/health-status.json"@,
        r@[6].valid_key@ == "valid"@,
        r@[6].invalid_key@ == "invalid"@,
        r@[7].schema_name@ == "thinking-trace"@,
        r@[7].vector_rel_path@ == "vectors/thinking/thinking-traces.json"@,
        r@[7].valid_key@ == "valid"@,
        r@[7].invalid_key@ == "invalid"@,
{
    let mut r: Vec<SuiteDescriptor> = Vec::new();
    r.push(SuiteDescriptor::new(
        "domain-event",
        "vectors/domain-event/events.json",
        "valid_events",
        "invalid",
    ));
    r.push(SuiteDescriptor::new(
        "domain-event-batch",
        "vectors/domain-event/batches.json",
        "valid_batches",
        "invalid_batches",
    ));
    r.push(SuiteDescriptor::new(
        "conversation",
        "vectors/conversation/conversations.json",
        "valid_conversations",
        "invalid",
    ));
    r.push(SuiteDescriptor::new(
        "billing-entry",
        "vectors/billing/allocation.json",
        "valid_entries",
        "invalid_entries",
    ));
    r.push(SuiteDescriptor::new(
        "transfer-spec",
        "vectors/transfer/transfers.json",
        "valid_transfers",
        "invalid_transfers",
    ));
    r.push(SuiteDescriptor::new(
        "lifecycle-transition-payload",
        "vectors/agent/lifecycle-payloads.json",
        "valid_payloads",
        "invalid_payloads",
    ));
    r.push(SuiteDescriptor::new(
        "health-status",
        "vectors/health/health-status.json",
        "valid",
        "invalid",
    ));
    r.push(SuiteDescriptor::new(
        "thinking-trace",
        "vectors/thinking/thinking-traces.json",
        "valid",
        "invalid",
    ));
    r
}

/// The path of a suite's schema file, relative to the repository root.
pub open spec fn schema_rel_text(schema_name: Seq<char>) -> Seq<char> {
    "schemas/"@ + schema_name + ".schema.json"@
}

/// Builds the root-relative path of a schema file from the schema's name.
pub fn schema_rel_path(schema_name: &str) -> (r: String)
    ensures
        r@ == schema_rel_text(schema_name@),
{
    let mut s = String::from_str("schemas/");
    s.append(schema_name);
    s.append(".schema.json");
    proof {
        assert(s@ =~= schema_rel_text(schema_name@));
    }
    s
}

/// The repository root as seen from the program's own install directory:
/// three parent levels up, still to be canonicalized by the caller.
pub fn repo_root(manifest_dir: &str) -> (r: String)
    ensures
        r@ == manifest_dir@ + "/../../.."@,
{
    let mut s = String::from_str(manifest_dir);
    s.append("/../../..");
    s
}

} // verus!
