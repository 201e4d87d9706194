//! The suite runner: reads one suite's parsed buckets, classifies every
//! vector against its expected outcome, updates the shared aggregate and
//! emits the per-entry progress lines.

use vstd::prelude::*;
use vstd::string::StringExecFns;
use crate::classify::apply_bucket_entries;
use crate::classify::lemma_bucket_counts;
use crate::classify::lemma_data_count_le_len;
use crate::classify::EntryView;
use crate::emit::emit_err;
use crate::emit::emit_out;
use crate::json::compile_validator;
use crate::json::json_as_array;
use crate::json::json_as_str;
use crate::json::json_get;
use crate::json::parse_json;
use crate::json::parses_as_json;
use crate::json::validate_ok;
use crate::json::CompiledSchema;
use crate::report::failure_message;
use crate::report::header_line;
use crate::report::progress_line;
use crate::report::skip_schema_line;
use crate::report::skip_vectors_line;
use crate::result::TestResult;

verus! {

/// A condition that aborts the whole run: no suite is credited past it and
/// the orchestrator stops with a diagnostic.
pub enum FatalError {
    /// The schema file's text is not valid JSON; carries the parser's diagnostic.
    SchemaParse(String),
    /// The schema document was rejected by the schema compiler; carries its diagnostic.
    SchemaCompile(String),
    /// The vector file's text is not valid JSON; carries the parser's diagnostic.
    VectorParse(String),
    /// A valid-bucket entry carries no `data` field: a fixture defect.
    MissingData,
    /// A bucket holds more entries than a counter has room left for.
    CounterOverflow,
}

/// How one suite invocation ended when nothing fatal happened.
#[derive(PartialEq, Eq, Structural, Clone, Copy, Debug)]
pub enum SuiteOutcome {
    /// Both files were found; every bucket was classified.
    Ran,
    /// The schema file is absent; the suite contributed nothing.
    SkippedMissingSchema,
    /// The vector file is absent; the suite contributed nothing.
    SkippedMissingVectors,
}

/// What the orchestrator hands the runner about one suite's files: the text
/// of each file when it exists, and display labels for diagnostics.
pub struct SuiteInput {
    pub schema_text: Option<String>,
    pub vector_text: Option<String>,
    pub schema_path_label: String,
    pub vector_path_label: String,
    pub vector_file_label: String,
}

/// What was observed of one vector once its fields were read and, where data
/// was present, the validator consulted.
pub struct EntryRecord {
    pub id: String,
    pub has_data: bool,
    pub accepted: bool,
}

impl View for EntryRecord {
    type V = EntryView;

    open spec fn view(&self) -> EntryView {
        EntryView { id: self.id@, has_data: self.has_data, accepted: self.accepted }
    }
}

/// The observations of a whole bucket, in file order.
pub open spec fn views_of(recs: Seq<EntryRecord>) -> Seq<EntryView> {
    recs.map_values(|e: EntryRecord| e@)
}

/// Whether an optional file text is present and accepted by the JSON parser.
pub open spec fn text_parses(text: Option<String>) -> bool {
    match text {
        Some(t) => parses_as_json(t@),
        None => false,
    }
}

/// The id a vector reports under: its `id` field where that is a string,
/// "unknown" otherwise.
pub fn entry_id<'a>(raw: Option<&'a str>) -> (r: &'a str)
    ensures
        r@ == (match raw {
            Some(s) => s@,
            None => "unknown"@,
        }),
{
    match raw {
        Some(s) => s,
        None => "unknown",
    }
}

/// Reads each entry of a bucket: its id (with the default applied), whether
/// it carries `data`, and, when it does, the validator's verdict on the data.
fn collect_records(validator: &CompiledSchema, entries: &Vec<serde_json::Value>) -> (recs: Vec<
    EntryRecord,
>)
    ensures
        recs@.len() == entries@.len(),
{
    let mut recs: Vec<EntryRecord> = Vec::new();
    let mut i: usize = 0;
    while i < entries.len()
        invariant
            0 <= i <= entries@.len(),
            recs@.len() == i as int,
        decreases entries@.len() - i,
    {
        let entry = &entries[i];
        let id_str = match json_get(entry, "id") {
            Some(v) => json_as_str(v),
            None => None,
        };
        let id = entry_id(id_str);
        let (has_data, accepted) = match json_get(entry, "data") {
            Some(d) => (true, validate_ok(validator, d)),
            None => (false, false),
        };
        recs.push(EntryRecord { id: String::from_str(id), has_data, accepted });
        i = i + 1;
    }
    recs
}

/// Classifies the recorded observations of one bucket, in file order: each
/// classifiable entry moves the aggregate as `apply_entry` says and gets its
/// progress line; a dataless entry is silently skipped in the invalid bucket
/// and is a fatal fixture defect in the valid bucket, stopping right there.
pub fn apply_bucket(
    result: &mut TestResult,
    schema_name: &str,
    expect_valid: bool,
    recs: &Vec<EntryRecord>,
) -> (r: Result<(), FatalError>)
    requires
        old(result)@.passed + recs@.len() <= u32::MAX,
        old(result)@.failed + recs@.len() <= u32::MAX,
    ensures
        r is Ok ==> final(result)@ == apply_bucket_entries(
            old(result)@,
            schema_name@,
            expect_valid,
            views_of(recs@),
        ),
        r is Ok && expect_valid ==> forall|k: int|
            0 <= k < recs@.len() ==> (#[trigger] recs@[k])@.has_data,
        r is Err ==> expect_valid && r == Err::<(), FatalError>(FatalError::MissingData),
        r is Err ==> exists|k: int|
            0 <= k < recs@.len() && !(#[trigger] recs@[k])@.has_data && (forall|j: int|
                0 <= j < k ==> (#[trigger] recs@[j])@.has_data) && final(result)@
                == apply_bucket_entries(
                old(result)@,
                schema_name@,
                expect_valid,
                views_of(recs@).take(k),
            ),
        !expect_valid ==> r is Ok,
        old(result)@.passed <= final(result)@.passed,
        old(result)@.failed <= final(result)@.failed,
        old(result)@.messages.len() <= final(result)@.messages.len(),
        forall|i: int|
            0 <= i < old(result)@.messages.len() ==> final(result)@.messages[i] == old(
                result,
            )@.messages[i],
        final(result)@.messages.len() == old(result)@.messages.len() + final(result)@.failed - old(
            result,
        )@.failed,
{
    let ghost t0 = result@;
    let mut i: usize = 0;
    while i < recs.len()
        invariant
            0 <= i <= recs@.len(),
            t0 == old(result)@,
            t0.passed + recs@.len() <= u32::MAX,
            t0.failed + recs@.len() <= u32::MAX,
            result@ == apply_bucket_entries(t0, schema_name@, expect_valid, views_of(recs@).take(
                i as int,
            )),
            expect_valid ==> forall|j: int| 0 <= j < i ==> (#[trigger] recs@[j])@.has_data,
        decreases recs@.len() - i,
    {
        proof {
            lemma_bucket_counts(t0, schema_name@, expect_valid, views_of(recs@).take(i as int));
            lemma_data_count_le_len(views_of(recs@).take(i as int));
        }
        let rec = &recs[i];
        if rec.has_data {
            let pass = rec.accepted == expect_valid;
            if pass {
                result.record_pass();
            } else {
                let msg = failure_message(schema_name, rec.id.as_str(), expect_valid);
                result.record_fail(msg);
            }
            let line = progress_line(rec.id.as_str(), pass);
            emit_out(line.as_str());
        } else if expect_valid {
            proof {
                assert((i as int) < recs@.len());
                assert(!recs@[i as int]@.has_data);
                assert(t0 == old(result)@);
                assert(result@ == apply_bucket_entries(
                    old(result)@,
                    schema_name@,
                    expect_valid,
                    views_of(recs@).take(i as int),
                ));
                lemma_bucket_counts(
                    old(result)@,
                    schema_name@,
                    expect_valid,
                    views_of(recs@).take(i as int),
                );
            }
            return Err(FatalError::MissingData);
        }
        proof {
            let s = views_of(recs@).take(i + 1);
            assert(s.drop_last() =~= views_of(recs@).take(i as int));
            assert(s.last() == recs@[i as int]@);
        }
        i = i + 1;
    }
    proof {
        assert(views_of(recs@).take(recs@.len() as int) =~= views_of(recs@));
        lemma_bucket_counts(old(result)@, schema_name@, expect_valid, views_of(recs@));
    }
    Ok(())
}

/// Ensures both counters have room for one more bucket of the given size.
fn counts_fit(result: &TestResult, n: usize) -> (b: bool)
    ensures
        b == (result@.passed + n <= u32::MAX && result@.failed + n <= u32::MAX),
{
    let p = result.passed();
    let f = result.failed();
    n <= (u32::MAX - p) as usize && n <= (u32::MAX - f) as usize
}

/// Runs one suite. A missing file skips the whole suite with a diagnostic and
/// no effect on the aggregate. With both files present, the schema is parsed
/// and compiled and the vector document parsed — each failure there is fatal
/// — then the valid bucket and the invalid bucket are classified in file
/// order against the compiled schema, moving the aggregate entry by entry.
pub fn run_suite(
    result: &mut TestResult,
    schema_name: &str,
    input: &SuiteInput,
    valid_key: &str,
    invalid_key: &str,
) -> (r: Result<SuiteOutcome, FatalError>)
    ensures
        input.schema_text is None ==> r == Ok::<SuiteOutcome, FatalError>(
            SuiteOutcome::SkippedMissingSchema,
        ) && final(result)@ == old(result)@,
        input.schema_text is Some && input.vector_text is None ==> r == Ok::<
            SuiteOutcome,
            FatalError,
        >(SuiteOutcome::SkippedMissingVectors) && final(result)@ == old(result)@,
        input.schema_text is Some && input.vector_text is Some ==> (!text_parses(input.schema_text)
            <==> r matches Err(FatalError::SchemaParse(_))),
        r matches Err(FatalError::VectorParse(_)) ==> text_parses(input.schema_text)
            && !text_parses(input.vector_text),
        (r matches Err(FatalError::SchemaParse(_)) || r matches Err(FatalError::SchemaCompile(_))
            || r matches Err(FatalError::VectorParse(_))) ==> final(result)@ == old(result)@,
        r == Ok::<SuiteOutcome, FatalError>(SuiteOutcome::Ran) ==> text_parses(input.schema_text)
            && text_parses(input.vector_text) && exists|vs: Seq<EntryView>, ws: Seq<EntryView>|
            (forall|k: int| 0 <= k < vs.len() ==> (#[trigger] vs[k]).has_data) && final(result)@
                == apply_bucket_entries(
                apply_bucket_entries(old(result)@, schema_name@, true, vs),
                schema_name@,
                false,
                ws,
            ),
        (r matches Err(FatalError::MissingData) || r matches Err(FatalError::CounterOverflow))
            ==> exists|vs: Seq<EntryView>|
            final(result)@ == apply_bucket_entries(old(result)@, schema_name@, true, vs),
        input.schema_text is Some && input.vector_text is Some ==> r != Ok::<
            SuiteOutcome,
            FatalError,
        >(SuiteOutcome::SkippedMissingSchema) && r != Ok::<SuiteOutcome, FatalError>(
            SuiteOutcome::SkippedMissingVectors,
        ),
        old(result)@.passed <= final(result)@.passed,
        old(result)@.failed <= final(result)@.failed,
        old(result)@.messages.len() <= final(result)@.messages.len(),
        forall|i: int|
            0 <= i < old(result)@.messages.len() ==> final(result)@.messages[i] == old(
                result,
            )@.messages[i],
        final(result)@.messages.len() == old(result)@.messages.len() + final(result)@.failed - old(
            result,
        )@.failed,
{
    let ghost t0 = result@;
    let schema_text = match &input.schema_text {
        Some(t) => t,
        None => {
            let line = skip_schema_line(input.schema_path_label.as_str());
            emit_err(line.as_str());
            return Ok(SuiteOutcome::SkippedMissingSchema);
        },
    };
    let vector_text = match &input.vector_text {
        Some(t) => t,
        None => {
            let line = skip_vectors_line(input.vector_path_label.as_str());
            emit_err(line.as_str());
            return Ok(SuiteOutcome::SkippedMissingVectors);
        },
    };
    let schema_json = match parse_json(schema_text.as_str()) {
        Ok(v) => v,
        Err(e) => {
            return Err(FatalError::SchemaParse(e));
        },
    };
    let validator = match compile_validator(&schema_json) {
        Ok(v) => v,
        Err(e) => {
            return Err(FatalError::SchemaCompile(e));
        },
    };
    let vectors = match parse_json(vector_text.as_str()) {
        Ok(v) => v,
        Err(e) => {
            return Err(FatalError::VectorParse(e));
        },
    };
    emit_out("");
    let header = header_line(schema_name, input.vector_file_label.as_str());
    emit_out(header.as_str());
    let vrecs: Vec<EntryRecord> = match json_get(&vectors, valid_key) {
        Some(v) => match json_as_array(v) {
            Some(arr) => collect_records(&validator, arr),
            None => Vec::new(),
        },
        None => Vec::new(),
    };
    if !counts_fit(result, vrecs.len()) {
        proof {
            assert(result@ == apply_bucket_entries(
                t0,
                schema_name@,
                true,
                Seq::<EntryView>::empty(),
            ));
        }
        return Err(FatalError::CounterOverflow);
    }
    match apply_bucket(result, schema_name, true, &vrecs) {
        Ok(()) => {},
        Err(e) => {
            return Err(e);
        },
    }
    let ghost t1 = result@;
    let wrecs: Vec<EntryRecord> = match json_get(&vectors, invalid_key) {
        Some(v) => match json_as_array(v) {
            Some(arr) => collect_records(&validator, arr),
            None => Vec::new(),
        },
        None => Vec::new(),
    };
    if !counts_fit(result, wrecs.len()) {
        return Err(FatalError::CounterOverflow);
    }
    match apply_bucket(result, schema_name, false, &wrecs) {
        Ok(()) => {},
        Err(e) => {
            return Err(e);
        },
    }
    proof {
        assert(result@ == apply_bucket_entries(
            apply_bucket_entries(t0, schema_name@, true, views_of(vrecs@)),
            schema_name@,
            false,
            views_of(wrecs@),
        ));
        assert forall|k: int| 0 <= k < views_of(vrecs@).len() implies (#[trigger] views_of(
            vrecs@,
        )[k]).has_data by {
            assert(vrecs@[k]@.has_data);
        }
    }
    Ok(SuiteOutcome::Ran)
}

} // verus!
