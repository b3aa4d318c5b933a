//! Formatting of scan results into the report text.
//!
//! For each result a block of the form `File: <path>`, an indented
//! `Count: <count>` line and a blank line; after the blocks, the two
//! summary lines with the number of reported files and the sum of their
//! counts.

use vstd::prelude::*;
use vstd::string::StringExecFns;
use crate::scanner::FileResult;

verus! {

/// The decimal digit character for `d`.
pub open spec fn digit_char(d: nat) -> char {
    if d == 0 {
        '0'
    } else if d == 1 {
        '1'
    } else if d == 2 {
        '2'
    } else if d == 3 {
        '3'
    } else if d == 4 {
        '4'
    } else if d == 5 {
        '5'
    } else if d == 6 {
        '6'
    } else if d == 7 {
        '7'
    } else if d == 8 {
        '8'
    } else {
        '9'
    }
}

/// The decimal digits of `n`, most significant first, without leading
/// zeros except for `n == 0` itself.
pub open spec fn dec_chars(n: nat) -> Seq<char>
    decreases n,
{
    if n < 10 {
        seq![digit_char(n)]
    } else {
        dec_chars(n / 10).push(digit_char(n % 10))
    }
}

/// The sum of the counts of the given results.
pub open spec fn sum_counts(rs: Seq<FileResult>) -> nat
    decreases rs.len(),
{
    if rs.len() == 0 {
        0
    } else {
        sum_counts(rs.drop_last()) + rs.last().count as nat
    }
}

/// The block the report prints for one result.
pub open spec fn spec_result_block(r: FileResult) -> Seq<char> {
    "File: "@ + r.path@ + "\n  Count: "@ + dec_chars(r.count as nat) + "\n\n"@
}

/// The blocks for all results, in order.
pub open spec fn spec_result_blocks(rs: Seq<FileResult>) -> Seq<char>
    decreases rs.len(),
{
    if rs.len() == 0 {
        Seq::empty()
    } else {
        spec_result_blocks(rs.drop_last()) + spec_result_block(rs.last())
    }
}

/// The whole report text: one block per result, then the two summary lines.
pub open spec fn spec_format(rs: Seq<FileResult>) -> Seq<char> {
    spec_result_blocks(rs) + "Total files searched: "@ + dec_chars(rs.len()) + "\n"@
        + "Total occurrences: "@ + dec_chars(sum_counts(rs)) + "\n"@
}

/// Appends the decimal digit `d` to `out`.
fn append_digit(out: &mut String, d: usize)
    requires
        d < 10,
    ensures
        final(out)@ == old(out)@ + seq![digit_char(d as nat)],
{
    proof {
        reveal_strlit("0");
        reveal_strlit("1");
        reveal_strlit("2");
        reveal_strlit("3");
        reveal_strlit("4");
        reveal_strlit("5");
        reveal_strlit("6");
        reveal_strlit("7");
        reveal_strlit("8");
        reveal_strlit("9");
    }
    let s: &str = if d == 0 {
        "0"
    } else if d == 1 {
        "1"
    } else if d == 2 {
        "2"
    } else if d == 3 {
        "3"
    } else if d == 4 {
        "4"
    } else if d == 5 {
        "5"
    } else if d == 6 {
        "6"
    } else if d == 7 {
        "7"
    } else if d == 8 {
        "8"
    } else {
        "9"
    };
    proof {
        assert(s@ =~= seq![digit_char(d as nat)]);
    }
    out.append(s);
}

/// Appends the decimal digits of `n` to `out`.
pub fn append_decimal(out: &mut String, n: usize)
    ensures
        final(out)@ == old(out)@ + dec_chars(n as nat),
    decreases n,
{
    if n >= 10 {
        append_decimal(out, n / 10);
        append_digit(out, n % 10);
        proof {
            assert(out@ =~= old(out)@ + dec_chars(n as nat));
        }
    } else {
        append_digit(out, n);
    }
}

/// Sums the counts of the results, or `None` where the sum does not fit
/// in a machine word.
pub fn checked_total(results: &Vec<FileResult>) -> (t: Option<usize>)
    ensures
        match t {
            Some(v) => v == sum_counts(results@),
            None => sum_counts(results@) > usize::MAX,
        },
{
    let mut acc: usize = 0;
    let mut i: usize = 0;
    while i < results.len()
        invariant
            i <= results.len(),
            acc == sum_counts(results@.take(i as int)),
        decreases results.len() - i,
    {
        let c = results[i].count;
        proof {
            assert(results@.take(i + 1).drop_last() =~= results@.take(i as int));
            assert(results@.take(i + 1).last() == results@[i as int]);
        }
        if c > usize::MAX - acc {
            proof {
                lemma_sum_counts_prefix_bound(results@, i + 1);
            }
            return None;
        }
        acc = acc + c;
        i = i + 1;
    }
    proof {
        assert(results@.take(results@.len() as int) =~= results@);
    }
    Some(acc)
}

/// The counts of a prefix never sum to more than those of the whole list.
proof fn lemma_sum_counts_prefix_bound(rs: Seq<FileResult>, i: int)
    requires
        0 <= i <= rs.len(),
    ensures
        sum_counts(rs.take(i)) <= sum_counts(rs),
    decreases rs.len(),
{
    if i < rs.len() {
        lemma_sum_counts_prefix_bound(rs.drop_last(), i);
        assert(rs.drop_last().take(i) =~= rs.take(i));
    } else {
        assert(rs.take(i) =~= rs);
    }
}

/// Formats the results into the report text: one block per result in
/// order, then the summary lines with the file total and the occurrence
/// total.
pub fn format_results(results: &Vec<FileResult>) -> (out: String)
    requires
        sum_counts(results@) <= usize::MAX,
    ensures
        out@ == spec_format(results@),
{
    let mut out = String::new();
    let mut i: usize = 0;
    while i < results.len()
        invariant
            i <= results.len(),
            sum_counts(results@) <= usize::MAX,
            out@ == spec_result_blocks(results@.take(i as int)),
        decreases results.len() - i,
    {
        proof {
            assert(results@.take(i + 1).drop_last() =~= results@.take(i as int));
            assert(results@.take(i + 1).last() == results@[i as int]);
        }
        out.append("File: ");
        out.append(results[i].path.as_str());
        out.append("\n  Count: ");
        append_decimal(&mut out, results[i].count);
        out.append("\n\n");
        proof {
            assert(out@ =~= spec_result_blocks(results@.take(i + 1)));
        }
        i = i + 1;
    }
    proof {
        assert(results@.take(results@.len() as int) =~= results@);
    }
    out.append("Total files searched: ");
    append_decimal(&mut out, results.len());
    out.append("\n");
    out.append("Total occurrences: ");
    let total = match checked_total(results) {
        Some(t) => t,
        None => {
            proof {
                assert(false);
            }
            0
        },
    };
    append_decimal(&mut out, total);
    out.append("\n");
    proof {
        assert(out@ =~= spec_format(results@));
    }
    out
}

} // verus!
