//! Building the exact text the runner emits: per-entry progress lines, skip
//! diagnostics, the suite header, failure messages and the final summary.

use vstd::prelude::*;
use vstd::string::StringExecFns;
use crate::classify::failure_text;
use crate::result::RunTotals;
use crate::result::TestResult;

verus! {

/// The message recorded when a vector contradicts its bucket's expectation.
pub fn failure_message(schema_name: &str, id: &str, expect_valid: bool) -> (r: String)
    ensures
        r@ == failure_text(schema_name@, id@, expect_valid),
{
    let mut s = String::new();
    s.append(schema_name);
    s.append("/");
    s.append(id);
    if expect_valid {
        s.append(": expected valid, got invalid");
    } else {
        s.append(": expected invalid, got valid");
    }
    proof {
        assert(s@ =~= failure_text(schema_name@, id@, expect_valid));
    }
    s
}

/// The progress line printed for one classified vector.
pub open spec fn progress_text(id: Seq<char>, pass: bool) -> Seq<char> {
    (if pass {
        "  [PASS] "@
    } else {
        "  [FAIL] "@
    }) + id
}

/// Builds the progress line for one classified vector.
pub fn progress_line(id: &str, pass: bool) -> (r: String)
    ensures
        r@ == progress_text(id@, pass),
{
    let mut s = if pass {
        String::from_str("  [PASS] ")
    } else {
        String::from_str("  [FAIL] ")
    };
    s.append(id);
    s
}

/// The header printed when a suite's files were both found.
pub open spec fn header_text(schema: Seq<char>, file_label: Seq<char>) -> Seq<char> {
    schema + " ("@ + file_label + "):"@
}

/// Builds the suite header from the schema name and the vector file's name.
pub fn header_line(schema_name: &str, file_label: &str) -> (r: String)
    ensures
        r@ == header_text(schema_name@, file_label@),
{
    let mut s = String::from_str(schema_name);
    s.append(" (");
    s.append(file_label);
    s.append("):");
    proof {
        assert(s@ =~= header_text(schema_name@, file_label@));
    }
    s
}

/// The diagnostic for a suite skipped because its schema file is absent.
pub open spec fn skip_schema_text(path_label: Seq<char>) -> Seq<char> {
    "  SKIP: schema not found: "@ + path_label
}

/// Builds the skip diagnostic for a missing schema file.
pub fn skip_schema_line(path_label: &str) -> (r: String)
    ensures
        r@ == skip_schema_text(path_label@),
{
    let mut s = String::from_str("  SKIP: schema not found: ");
    s.append(path_label);
    s
}

/// The diagnostic for a suite skipped because its vector file is absent.
pub open spec fn skip_vectors_text(path_label: Seq<char>) -> Seq<char> {
    "  SKIP: vectors not found: "@ + path_label
}

/// Builds the skip diagnostic for a missing vector file.
pub fn skip_vectors_line(path_label: &str) -> (r: String)
    ensures
        r@ == skip_vectors_text(path_label@),
{
    let mut s = String::from_str("  SKIP: vectors not found: ");
    s.append(path_label);
    s
}

/// The decimal digit character for one value below ten.
pub open spec fn decimal_digit(d: int) -> char {
    if d == 0 {
        '0'
    } else if d == 1 {
        '1'
    } else if d == 2 {
        '2'
    } else if d == 3 {
        '3'
    } else if d == 4 {
        '4'
    } else if d == 5 {
        '5'
    } else if d == 6 {
        '6'
    } else if d == 7 {
        '7'
    } else if d == 8 {
        '8'
    } else {
        '9'
    }
}

/// The usual decimal rendering of a non-negative integer, no leading zeros.
pub open spec fn decimal_text(n: int) -> Seq<char>
    recommends
        n >= 0,
    decreases n,
{
    if n < 10 {
        seq![decimal_digit(n)]
    } else {
        decimal_text(n / 10).push(decimal_digit(n % 10))
    }
}

/// Appends the decimal digit character of one value below ten.
fn push_digit_char(d: u32, out: &mut String)
    requires
        d < 10,
    ensures
        final(out)@ == old(out)@ + seq![decimal_digit(d as int)],
{
    if d == 0 {
        out.append("0");
        proof {
            reveal_strlit("0");
            assert(final(out)@ =~= old(out)@ + seq![decimal_digit(d as int)]);
        }
    } else if d == 1 {
        out.append("1");
        proof {
            reveal_strlit("1");
            assert(final(out)@ =~= old(out)@ + seq![decimal_digit(d as int)]);
        }
    } else if d == 2 {
        out.append("2");
        proof {
            reveal_strlit("2");
            assert(final(out)@ =~= old(out)@ + seq![decimal_digit(d as int)]);
        }
    } else if d == 3 {
        out.append("3");
        proof {
            reveal_strlit("3");
            assert(final(out)@ =~= old(out)@ + seq![decimal_digit(d as int)]);
        }
    } else if d == 4 {
        out.append("4");
        proof {
            reveal_strlit("4");
            assert(final(out)@ =~= old(out)@ + seq![decimal_digit(d as int)]);
        }
    } else if d == 5 {
        out.append("5");
        proof {
            reveal_strlit("5");
            assert(final(out)@ =~= old(out)@ + seq![decimal_digit(d as int)]);
        }
    } else if d == 6 {
        out.append("6");
        proof {
            reveal_strlit("6");
            assert(final(out)@ =~= old(out)@ + seq![decimal_digit(d as int)]);
        }
    } else if d == 7 {
        out.append("7");
        proof {
            reveal_strlit("7");
            assert(final(out)@ =~= old(out)@ + seq![decimal_digit(d as int)]);
        }
    } else if d == 8 {
        out.append("8");
        proof {
            reveal_strlit("8");
            assert(final(out)@ =~= old(out)@ + seq![decimal_digit(d as int)]);
        }
    } else {
        out.append("9");
        proof {
            reveal_strlit("9");
            assert(final(out)@ =~= old(out)@ + seq![decimal_digit(d as int)]);
        }
    }
}

/// Appends the decimal rendering of `n`, most significant digit first.
fn push_decimal(n: u32, out: &mut String)
    ensures
        final(out)@ == old(out)@ + decimal_text(n as int),
    decreases n,
{
    if n >= 10 {
        push_decimal(n / 10, out);
        push_digit_char(n % 10, out);
        proof {
            assert(final(out)@ =~= old(out)@ + decimal_text(n as int));
        }
    } else {
        push_digit_char(n, out);
    }
}

/// Renders a counter in decimal, as the summary prints it.
pub fn decimal_string(n: u32) -> (r: String)
    ensures
        r@ == decimal_text(n as int),
{
    let mut s = String::new();
    push_decimal(n, &mut s);
    proof {
        assert(s@ =~= decimal_text(n as int));
    }
    s
}

/// The counts line of the final summary.
pub open spec fn counts_text(passed: nat, failed: nat) -> Seq<char> {
    "Results: "@ + decimal_text(passed as int) + " passed, "@ + decimal_text(failed as int)
        + " failed"@
}

/// The whole summary, line by line: a blank line, a rule, the counts, and,
/// only when failures were recorded, a failure section listing every message
/// in accumulation order.
pub open spec fn summary_text(t: RunTotals) -> Seq<Seq<char>> {
    let head = seq![
        Seq::<char>::empty(),
        "=================================================="@,
        counts_text(t.passed, t.failed),
    ];
    if t.messages.len() == 0 {
        head
    } else {
        head + seq![Seq::<char>::empty(), "Failures:"@] + t.messages.map_values(
            |m: Seq<char>| "  "@ + m,
        )
    }
}

/// Builds the final summary lines from the finished aggregate.
pub fn summary_lines(result: &TestResult) -> (r: Vec<String>)
    ensures
        r@.map_values(|s: String| s@) == summary_text(result@),
{
    let ghost target = summary_text(result@);
    let mut lines: Vec<String> = Vec::new();
    lines.push(String::new());
    lines.push(String::from_str("=================================================="));
    let mut counts = String::from_str("Results: ");
    counts.append(decimal_string(result.passed()).as_str());
    counts.append(" passed, ");
    counts.append(decimal_string(result.failed()).as_str());
    counts.append(" failed");
    proof {
        assert(counts@ =~= counts_text(result@.passed, result@.failed));
    }
    lines.push(counts);
    let msgs = result.messages();
    if msgs.len() > 0 {
        lines.push(String::new());
        lines.push(String::from_str("Failures:"));
        proof {
            assert(result@.messages.len() > 0);
            assert(target.len() == 5 + result@.messages.len());
            assert(lines@.map_values(|s: String| s@) =~= target.take(5));
        }
        let mut i: usize = 0;
        while i < msgs.len()
            invariant
                0 <= i <= msgs@.len(),
                msgs@.map_values(|s: String| s@) == result@.messages,
                result@.messages.len() > 0,
                target == summary_text(result@),
                target.len() == 5 + result@.messages.len(),
                lines@.map_values(|s: String| s@) == target.take(5 + i),
            decreases msgs@.len() - i,
        {
            let ghost prev = lines@;
            let mut l = String::from_str("  ");
            l.append(msgs[i].as_str());
            proof {
                assert(msgs@.map_values(|s: String| s@)[i as int] == msgs@[i as int]@);
                assert(l@ == "  "@ + result@.messages[i as int]);
                assert(result@.messages.map_values(|m: Seq<char>| "  "@ + m)[i as int] == "  "@
                    + result@.messages[i as int]);
                assert(target[5 + i] == "  "@ + result@.messages[i as int]);
            }
            lines.push(l);
            proof {
                assert(lines@ == prev.push(l));
                prev.lemma_push_map_commute(|s: String| s@, l);
                assert(target.take(5 + i + 1) =~= target.take(5 + i).push(target[5 + i]));
                assert(lines@.map_values(|s: String| s@) == target.take(5 + i + 1));
            }
            i = i + 1;
        }
        proof {
            assert(target.take(5 + msgs@.len() as int) =~= target);
        }
    } else {
        proof {
            assert(lines@.map_values(|s: String| s@) =~= target);
        }
    }
    lines
}

/// Emits the final summary to standard output, line by line.
pub fn print_summary(result: &TestResult) {
    let lines = summary_lines(result);
    let mut i: usize = 0;
    while i < lines.len()
        decreases lines@.len() - i,
    {
        crate::emit::emit_out(lines[i].as_str());
        i = i + 1;
    }
}

/// The process exit status the reporter sets: zero exactly when nothing
/// failed, one otherwise.
pub fn exit_code(result: &TestResult) -> (c: i32)
    ensures
        c == (if result@.failed == 0 {
            0int
        } else {
            1int
        }),
{
    if result.failed() > 0 {
        1
    } else {
        0
    }
}

} // verus!
