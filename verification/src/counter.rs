//! Non-overlapping substring counting, optionally case-insensitive.
//!
//! Occurrences of a literal pattern are counted left to right, and each match
//! consumes its span before the next search begins, so overlapping matches
//! are never double-counted.  An empty pattern yields zero matches.  The
//! case-insensitive variant lowercases both pattern and text first.

use vstd::prelude::*;

verus! {

/// Whether `pat` occurs in `text` starting at position `i`.
pub open spec fn matches_at_spec(text: Seq<char>, pat: Seq<char>, i: int) -> bool {
    &&& 0 <= i
    &&& i + pat.len() <= text.len()
    &&& forall|k: int| 0 <= k < pat.len() ==> text[i + k] == pat[k]
}

/// The number of non-overlapping occurrences of `pat` in `text` at or after
/// position `i`, scanning left to right: a match at `i` consumes its span,
/// a mismatch moves one position on.  An empty pattern counts as zero.
pub open spec fn count_from(text: Seq<char>, pat: Seq<char>, i: int) -> nat
    decreases text.len() - i,
{
    if pat.len() == 0 || i < 0 || i + pat.len() > text.len() {
        0
    } else if matches_at_spec(text, pat, i) {
        1 + count_from(text, pat, i + pat.len())
    } else {
        count_from(text, pat, i + 1)
    }
}

/// The number of non-overlapping occurrences of `pat` in `text`.
pub open spec fn count_occ(text: Seq<char>, pat: Seq<char>) -> nat {
    count_from(text, pat, 0)
}

/// The lowercase form of a string's characters.  Its value is fixed by the
/// characters alone; [`to_lower`] is the one way to compute it.
pub uninterp spec fn lower_of(s: Seq<char>) -> Seq<char>;

/// The count a scan uses: over the raw characters, or over their lowercase
/// forms when the search is case-insensitive.
pub open spec fn spec_count(text: Seq<char>, pat: Seq<char>, case_insensitive: bool) -> nat {
    if case_insensitive {
        count_occ(lower_of(text), lower_of(pat))
    } else {
        count_occ(text, pat)
    }
}

/// Relies on str::to_lowercase: the lowercase form of a string depends on
/// its characters alone, and an empty string stays empty.
#[verifier::external_body]
fn to_lower(s: &str) -> (r: String)
    ensures
        r@ == lower_of(s@),
        s@.len() == 0 ==> r@.len() == 0,
{
    s.to_lowercase()
}

/// The characters of the string, in order.
fn chars_of(s: &str) -> (r: Vec<char>)
    ensures
        r@ == s@,
{
    broadcast use vstd::string::axiom_spec_iter;

    let mut r: Vec<char> = Vec::new();
    for c in it: s.chars()
        invariant
            it.seq() == s@,
            r@ == it.seq().take(it.index() as int),
    {
        r.push(c);
    }
    proof {
        assert(r@ =~= s@);
    }
    r
}

/// Whether `pat` occurs in `text` starting at position `i`.
fn matches_at(text: &Vec<char>, pat: &Vec<char>, i: usize) -> (b: bool)
    requires
        i + pat.len() <= text.len(),
    ensures
        b == matches_at_spec(text@, pat@, i as int),
{
    let mut k: usize = 0;
    while k < pat.len()
        invariant
            i + pat.len() <= text.len(),
            k <= pat@.len(),
            forall|j: int| 0 <= j < k ==> text@[i + j] == pat@[j],
        decreases pat@.len() - k,
    {
        if text[i + k] != pat[k] {
            return false;
        }
        k = k + 1;
    }
    true
}

/// Counts the non-overlapping occurrences of `pat` in `text`, left to right.
pub fn count_chars(text: &Vec<char>, pat: &Vec<char>) -> (n: usize)
    ensures
        n == count_occ(text@, pat@),
{
    if pat.len() == 0 || pat.len() > text.len() {
        return 0;
    }
    let mut i: usize = 0;
    let mut n: usize = 0;
    while i <= text.len() - pat.len()
        invariant
            1 <= pat@.len() <= text@.len(),
            i <= text@.len(),
            n <= i,
            count_occ(text@, pat@) == n + count_from(text@, pat@, i as int),
        decreases text@.len() - i,
    {
        if matches_at(text, pat, i) {
            n = n + 1;
            i = i + pat.len();
        } else {
            i = i + 1;
        }
    }
    proof {
        assert(count_from(text@, pat@, i as int) == 0);
    }
    n
}

/// Counts the non-overlapping occurrences of `pattern` in `text`.
pub fn count_occurrences(text: &str, pattern: &str) -> (n: usize)
    ensures
        n == count_occ(text@, pattern@),
{
    let t = chars_of(text);
    let p = chars_of(pattern);
    count_chars(&t, &p)
}

/// Counts the non-overlapping occurrences of `pattern` in `text` after
/// lowercasing both.
pub fn count_occurrences_ci(text: &str, pattern: &str) -> (n: usize)
    ensures
        n == count_occ(lower_of(text@), lower_of(pattern@)),
{
    let t = to_lower(text);
    let p = to_lower(pattern);
    count_occurrences(t.as_str(), p.as_str())
}

/// Counts occurrences of `pattern` in `text` under the requested case rule.
pub fn count_pattern(text: &str, pattern: &str, case_insensitive: bool) -> (n: usize)
    ensures
        n == spec_count(text@, pattern@, case_insensitive),
{
    if case_insensitive {
        count_occurrences_ci(text, pattern)
    } else {
        count_occurrences(text, pattern)
    }
}

/// Counting is non-overlapping: each of the occurrences counted at or after
/// position `i` consumes a full span of the pattern, so the counted spans
/// fit disjointly in the rest of the text.
proof fn lemma_count_from_non_overlapping(text: Seq<char>, pat: Seq<char>, i: int)
    requires
        pat.len() >= 1,
        0 <= i <= text.len(),
    ensures
        count_from(text, pat, i) * pat.len() <= text.len() - i,
    decreases text.len() - i,
{
    if i + pat.len() > text.len() {
    } else if matches_at_spec(text, pat, i) {
        lemma_count_from_non_overlapping(text, pat, i + pat.len());
        let rest = count_from(text, pat, i + pat.len());
        assert(count_from(text, pat, i) == 1 + rest);
        assert(rest * pat.len() <= text.len() - i - pat.len());
        assert((1 + rest) * pat.len() == pat.len() + rest * pat.len()) by (nonlinear_arith);
        assert(count_from(text, pat, i) * pat.len() <= text.len() - i);
    } else {
        lemma_count_from_non_overlapping(text, pat, i + 1);
    }
}

/// Counting is non-overlapping: the counted occurrences of a non-empty
/// pattern consume disjoint spans, so their number times the pattern length
/// never exceeds the text length.
pub proof fn lemma_count_non_overlapping(text: Seq<char>, pat: Seq<char>)
    requires
        pat.len() >= 1,
    ensures
        count_occ(text, pat) * pat.len() <= text.len(),
{
    lemma_count_from_non_overlapping(text, pat, 0);
}

} // verus!
