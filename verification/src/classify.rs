//! How a single vector's observed shape and validation outcome move the
//! aggregate, and the laws of that movement over a whole bucket.

use vstd::prelude::*;
use crate::result::RunTotals;

verus! {

/// What the runner saw of one vector: its id (after the "unknown" default),
/// whether it carried a `data` field, and, when it did, whether the compiled
/// schema accepted the data.
pub ghost struct EntryView {
    pub id: Seq<char>,
    pub has_data: bool,
    pub accepted: bool,
}

/// The message recorded when a vector contradicts its bucket's expectation.
pub open spec fn failure_text(schema: Seq<char>, id: Seq<char>, expect_valid: bool) -> Seq<char> {
    schema + "/"@ + id + (if expect_valid {
        ": expected valid, got invalid"@
    } else {
        ": expected invalid, got valid"@
    })
}

/// How one entry moves the aggregate: an entry without data moves nothing;
/// agreement between the validator's verdict and the bucket's expectation
/// counts a pass; disagreement counts a fail and records its message.
pub open spec fn apply_entry(
    t: RunTotals,
    schema: Seq<char>,
    expect_valid: bool,
    e: EntryView,
) -> RunTotals {
    if !e.has_data {
        t
    } else if e.accepted == expect_valid {
        RunTotals { passed: t.passed + 1, ..t }
    } else {
        RunTotals {
            failed: t.failed + 1,
            messages: t.messages.push(failure_text(schema, e.id, expect_valid)),
            ..t
        }
    }
}

/// The aggregate after one whole bucket, entries applied in file order.
pub open spec fn apply_bucket_entries(
    t: RunTotals,
    schema: Seq<char>,
    expect_valid: bool,
    es: Seq<EntryView>,
) -> RunTotals
    decreases es.len(),
{
    if es.len() == 0 {
        t
    } else {
        apply_entry(
            apply_bucket_entries(t, schema, expect_valid, es.drop_last()),
            schema,
            expect_valid,
            es.last(),
        )
    }
}

/// How many entries of a bucket are classifiable, that is, carry a `data`
/// field.
pub open spec fn data_count(es: Seq<EntryView>) -> nat
    decreases es.len(),
{
    if es.len() == 0 {
        0
    } else {
        data_count(es.drop_last()) + (if es.last().has_data {
            1nat
        } else {
            0nat
        })
    }
}

/// A bucket has no more classifiable entries than entries.
pub proof fn lemma_data_count_le_len(es: Seq<EntryView>)
    ensures
        data_count(es) <= es.len(),
    decreases es.len(),
{
    if es.len() > 0 {
        lemma_data_count_le_len(es.drop_last());
    }
}

/// Conservation and monotonicity of the aggregate over one bucket: the two
/// counters together grow by exactly the number of classifiable entries,
/// neither counter ever shrinks, neither grows past that number, the
/// messages already recorded stay, in place and unchanged, and exactly one
/// message is appended per newly counted failure.
pub proof fn lemma_bucket_counts(
    t: RunTotals,
    schema: Seq<char>,
    expect_valid: bool,
    es: Seq<EntryView>,
)
    ensures
        apply_bucket_entries(t, schema, expect_valid, es).passed + apply_bucket_entries(
            t,
            schema,
            expect_valid,
            es,
        ).failed == t.passed + t.failed + data_count(es),
        t.passed <= apply_bucket_entries(t, schema, expect_valid, es).passed <= t.passed
            + data_count(es),
        t.failed <= apply_bucket_entries(t, schema, expect_valid, es).failed <= t.failed
            + data_count(es),
        t.messages.len() <= apply_bucket_entries(t, schema, expect_valid, es).messages.len(),
        forall|i: int|
            0 <= i < t.messages.len() ==> apply_bucket_entries(
                t,
                schema,
                expect_valid,
                es,
            ).messages[i] == t.messages[i],
        apply_bucket_entries(t, schema, expect_valid, es).messages.len() == t.messages.len()
            + apply_bucket_entries(t, schema, expect_valid, es).failed - t.failed,
    decreases es.len(),
{
    if es.len() > 0 {
        lemma_bucket_counts(t, schema, expect_valid, es.drop_last());
    }
}

/// In a bucket whose entries all carry data, every entry is classifiable.
pub proof fn lemma_data_count_full(es: Seq<EntryView>)
    requires
        forall|k: int| 0 <= k < es.len() ==> (#[trigger] es[k]).has_data,
    ensures
        data_count(es) == es.len(),
    decreases es.len(),
{
    if es.len() > 0 {
        lemma_data_count_full(es.drop_last());
    }
}

/// Conservation over one whole suite: after the valid bucket (whose entries
/// all carry data, or the run would have aborted) and the invalid bucket,
/// passed and failed together have grown by exactly the valid bucket's entry
/// count plus the invalid bucket's entries that carry data.
pub proof fn lemma_suite_counts(
    t: RunTotals,
    schema: Seq<char>,
    valid_entries: Seq<EntryView>,
    invalid_entries: Seq<EntryView>,
)
    requires
        forall|k: int| 0 <= k < valid_entries.len() ==> (#[trigger] valid_entries[k]).has_data,
    ensures
        ({
            let done = apply_bucket_entries(
                apply_bucket_entries(t, schema, true, valid_entries),
                schema,
                false,
                invalid_entries,
            );
            done.passed + done.failed == t.passed + t.failed + valid_entries.len() + data_count(
                invalid_entries,
            )
        }),
{
    let mid = apply_bucket_entries(t, schema, true, valid_entries);
    lemma_bucket_counts(t, schema, true, valid_entries);
    lemma_data_count_full(valid_entries);
    lemma_bucket_counts(mid, schema, false, invalid_entries);
}

/// Entries without a `data` field never affect the aggregate: running a
/// bucket is the same as running only its classifiable entries.
pub proof fn lemma_dataless_entries_ignored(
    t: RunTotals,
    schema: Seq<char>,
    expect_valid: bool,
    es: Seq<EntryView>,
)
    ensures
        apply_bucket_entries(t, schema, expect_valid, es) == apply_bucket_entries(
            t,
            schema,
            expect_valid,
            es.filter(|e: EntryView| e.has_data),
        ),
    decreases es.len(),
{
    reveal(Seq::filter);
    if es.len() > 0 {
        lemma_dataless_entries_ignored(t, schema, expect_valid, es.drop_last());
        let kept = es.drop_last().filter(|e: EntryView| e.has_data);
        if es.last().has_data {
            assert(es.filter(|e: EntryView| e.has_data) == kept.push(es.last()));
            assert(kept.push(es.last()).drop_last() == kept);
            assert(kept.push(es.last()).last() == es.last());
        }
    }
}

/// Re-running a whole suite — the valid bucket, then the invalid bucket —
/// from an equal starting aggregate over equal observations yields an equal
/// aggregate: counts, their deltas and the ordered message list are
/// functions of the starting state and the observed records alone.
pub proof fn lemma_suite_deterministic(
    t1: RunTotals,
    t2: RunTotals,
    schema: Seq<char>,
    valid1: Seq<EntryView>,
    invalid1: Seq<EntryView>,
    valid2: Seq<EntryView>,
    invalid2: Seq<EntryView>,
)
    requires
        t1 == t2,
        valid1 == valid2,
        invalid1 == invalid2,
    ensures
        apply_bucket_entries(apply_bucket_entries(t1, schema, true, valid1), schema, false, invalid1)
            == apply_bucket_entries(
            apply_bucket_entries(t2, schema, true, valid2),
            schema,
            false,
            invalid2,
        ),
{
}

/// Re-running a bucket from the same starting aggregate over the same
/// observations yields the same aggregate: the fold is a function of its
/// arguments, so identical fixtures and identical validator verdicts give
/// identical counts and an identical ordered message list.
pub proof fn lemma_bucket_deterministic(
    t1: RunTotals,
    t2: RunTotals,
    schema: Seq<char>,
    expect_valid: bool,
    es1: Seq<EntryView>,
    es2: Seq<EntryView>,
)
    requires
        t1 == t2,
        es1 == es2,
    ensures
        apply_bucket_entries(t1, schema, expect_valid, es1) == apply_bucket_entries(
            t2,
            schema,
            expect_valid,
            es2,
        ),
{
}

} // verus!
