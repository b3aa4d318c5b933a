//! Text-versus-binary classification by content sniffing.
//!
//! A caller samples the first bytes of a file (at most [`SAMPLE_LIMIT`]) and
//! hands them to [`classify`].  An empty sample is text.  A sample holding a
//! NUL byte is binary: text encodings do not embed NUL, while executables,
//! images and archives commonly do.  Otherwise the sample is binary exactly
//! when its count of non-printable bytes exceeds one twentieth of its length,
//! rounded down.  A file that cannot be read at all is simply not handed
//! here: an unreadable file cannot be usefully scanned either.

use vstd::prelude::*;

verus! {

/// At most this many leading bytes of a file are sampled for classification.
pub const SAMPLE_LIMIT: usize = 8192;

/// Whether a sampled file should be scanned as text.
#[derive(Clone, Copy, PartialEq, Eq, Structural, Debug)]
pub enum Classification {
    Text,
    NonText,
}

/// A byte that suggests binary content: a control byte other than
/// tab (0x09), line feed (0x0A) and carriage return (0x0D).
pub open spec fn is_non_printable(b: u8) -> bool {
    b < 0x20 && b != 0x09 && b != 0x0a && b != 0x0d
}

/// Whether the sample holds a NUL byte.
pub open spec fn has_nul(s: Seq<u8>) -> bool {
    exists|i: int| 0 <= i < s.len() && s[i] == 0u8
}

/// How many bytes of the sample are non-printable.
pub open spec fn non_printable_count(s: Seq<u8>) -> nat
    decreases s.len(),
{
    if s.len() == 0 {
        0
    } else {
        non_printable_count(s.drop_last()) + if is_non_printable(s.last()) {
            1nat
        } else {
            0nat
        }
    }
}

/// The largest non-printable count a text sample of length `n` may carry:
/// one twentieth of the sample, rounded down.
pub open spec fn threshold(n: nat) -> nat {
    n / 20
}

/// The classification policy: empty samples are text, samples with a NUL
/// byte are binary, and otherwise a sample is binary exactly when its
/// non-printable count strictly exceeds the threshold for its length.
pub open spec fn spec_classify(s: Seq<u8>) -> Classification {
    if s.len() == 0 {
        Classification::Text
    } else if has_nul(s) {
        Classification::NonText
    } else if non_printable_count(s) > threshold(s.len()) {
        Classification::NonText
    } else {
        Classification::Text
    }
}

/// Whether the sample holds a NUL byte.
fn contains_nul(sample: &Vec<u8>) -> (b: bool)
    ensures
        b == has_nul(sample@),
{
    let mut i: usize = 0;
    while i < sample.len()
        invariant
            i <= sample@.len(),
            forall|j: int| 0 <= j < i ==> sample@[j] != 0u8,
        decreases sample@.len() - i,
    {
        if sample[i] == 0u8 {
            return true;
        }
        i = i + 1;
    }
    false
}

/// How many bytes of the sample are non-printable.
fn count_non_printable(sample: &Vec<u8>) -> (c: usize)
    ensures
        c == non_printable_count(sample@),
{
    let mut i: usize = 0;
    let mut c: usize = 0;
    while i < sample.len()
        invariant
            i <= sample@.len(),
            c <= i,
            c == non_printable_count(sample@.take(i as int)),
        decreases sample@.len() - i,
    {
        let b = sample[i];
        proof {
            assert(sample@.take(i + 1).drop_last() =~= sample@.take(i as int));
            assert(sample@.take(i + 1).last() == sample@[i as int]);
        }
        if b < 0x20 && b != 0x09 && b != 0x0a && b != 0x0d {
            c = c + 1;
        }
        i = i + 1;
    }
    proof {
        assert(sample@.take(sample@.len() as int) =~= sample@);
    }
    c
}

/// Classifies a sample of a file's first bytes as text or binary.
pub fn classify(sample: &Vec<u8>) -> (c: Classification)
    ensures
        c == spec_classify(sample@),
{
    if sample.len() == 0 {
        return Classification::Text;
    }
    if contains_nul(sample) {
        return Classification::NonText;
    }
    let np = count_non_printable(sample);
    if np > sample.len() / 20 {
        Classification::NonText
    } else {
        Classification::Text
    }
}

/// A sample holding a NUL byte is never classified as text.
pub proof fn lemma_nul_is_nontext(s: Seq<u8>)
    requires
        has_nul(s),
    ensures
        spec_classify(s) == Classification::NonText,
{
}

/// An empty sample is classified as text.
pub proof fn lemma_empty_is_text(s: Seq<u8>)
    requires
        s.len() == 0,
    ensures
        spec_classify(s) == Classification::Text,
{
}

/// The threshold is inclusive: a NUL-free sample whose non-printable count
/// sits exactly at the threshold is still text; only a strictly greater
/// count makes it binary.
pub proof fn lemma_threshold_boundary(s: Seq<u8>)
    requires
        !has_nul(s),
        non_printable_count(s) == threshold(s.len()),
    ensures
        spec_classify(s) == Classification::Text,
{
}

} // verus!
