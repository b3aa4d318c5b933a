//! The scan pipeline: from per-file data to a report.
//!
//! The caller walks the requested roots, and for every regular file it can
//! reach hands the library a [`FileEntry`]: the file's path, the sampled
//! leading bytes, and the full contents where they could be read.  [`scan`]
//! classifies each entry, counts the pattern in the text ones, and keeps
//! exactly the entries with a positive count, in the order given.  Files
//! whose contents could not be read carry no content and are skipped; the
//! caller reports such failures on its diagnostic stream.

use vstd::prelude::*;
use crate::classifier::{classify, spec_classify, Classification};
use crate::counter::{count_pattern, spec_count};

verus! {

/// What a scan is asked to do: a literal pattern, the directories to walk,
/// and the case rule.  The roots are walked by the caller, in order.
pub struct ScanRequest {
    pub pattern: String,
    pub roots: Vec<String>,
    pub case_insensitive: bool,
}

/// One regular file as the caller found it: its path, the sampled leading
/// bytes (at most [`crate::classifier::SAMPLE_LIMIT`]), and the full
/// contents, or `None` where reading them failed.
pub struct FileEntry {
    pub path: String,
    pub sample: Vec<u8>,
    pub content: Option<String>,
}

/// One reported file: its path and the positive number of occurrences
/// found in it.
pub struct FileResult {
    pub path: String,
    pub count: usize,
}

impl FileResult {
    /// A result is well-formed when its count is positive: zero-count
    /// files are dropped, never reported.
    pub open spec fn wf(self) -> bool {
        self.count >= 1
    }
}

/// The abstract form of a result: the path's characters and the count.
pub open spec fn result_view(r: FileResult) -> (Seq<char>, nat) {
    (r.path@, r.count as nat)
}

/// The abstract form of a result list.
pub open spec fn report_view(rs: Seq<FileResult>) -> Seq<(Seq<char>, nat)> {
    rs.map(|i: int, r: FileResult| result_view(r))
}

/// What one entry contributes to the report: its path and count when it is
/// classified as text, its contents were read, and the count is positive;
/// nothing otherwise.
pub open spec fn spec_entry(e: FileEntry, pat: Seq<char>, ci: bool) -> Option<(Seq<char>, nat)> {
    if spec_classify(e.sample@) == Classification::Text {
        match e.content {
            Some(c) => if spec_count(c@, pat, ci) > 0 {
                Some((e.path@, spec_count(c@, pat, ci)))
            } else {
                None
            },
            None => None,
        }
    } else {
        None
    }
}

/// The report a scan of `files` yields, in visiting order.
pub open spec fn spec_scan(files: Seq<FileEntry>, pat: Seq<char>, ci: bool) -> Seq<
    (Seq<char>, nat),
>
    decreases files.len(),
{
    if files.len() == 0 {
        Seq::empty()
    } else {
        let prefix = spec_scan(files.drop_last(), pat, ci);
        match spec_entry(files.last(), pat, ci) {
            Some(pr) => prefix.push(pr),
            None => prefix,
        }
    }
}

/// The scan's outcome: the kept results in visiting order, each with a
/// positive count.
pub struct ScanReport {
    pub results: Vec<FileResult>,
}

impl ScanReport {
    /// Every kept result has a positive count.
    pub open spec fn wf(self) -> bool {
        forall|j: int| 0 <= j < self.results@.len() ==> (#[trigger] self.results@[j]).wf()
    }

    /// How many files the report holds.
    pub fn total_files(&self) -> (n: usize)
        ensures
            n == self.results@.len(),
    {
        self.results.len()
    }

    /// The sum of the reported counts, or `None` where it does not fit in
    /// a machine word.
    pub fn total_occurrences(&self) -> (t: Option<usize>)
        ensures
            match t {
                Some(v) => v == crate::report::sum_counts(self.results@),
                None => crate::report::sum_counts(self.results@) > usize::MAX,
            },
    {
        crate::report::checked_total(&self.results)
    }
}

/// Handles one file already read in full: counts the pattern in `content`
/// and returns a result exactly when the count is positive.
pub fn process_file(path: String, content: &str, pattern: &str, case_insensitive: bool) -> (r:
    Option<FileResult>)
    ensures
        ({
            let n = spec_count(content@, pattern@, case_insensitive);
            match r {
                Some(fr) => n > 0 && fr.path@ == path@ && fr.count == n && fr.wf(),
                None => n == 0,
            }
        }),
{
    let count = count_pattern(content, pattern, case_insensitive);
    if count > 0 {
        Some(FileResult { path, count })
    } else {
        None
    }
}

/// Scans the given files for the request's pattern: classifies each sample,
/// counts the pattern in the readable text files, and keeps exactly the
/// files with a positive count, in the order given.
pub fn scan(request: &ScanRequest, files: &Vec<FileEntry>) -> (report: ScanReport)
    ensures
        report_view(report.results@) == spec_scan(
            files@,
            request.pattern@,
            request.case_insensitive,
        ),
        report.wf(),
{
    let ghost pat = request.pattern@;
    let ghost ci = request.case_insensitive;
    let mut results: Vec<FileResult> = Vec::new();
    let mut i: usize = 0;
    while i < files.len()
        invariant
            i <= files.len(),
            report_view(results@) == spec_scan(files@.take(i as int), pat, ci),
            pat == request.pattern@,
            ci == request.case_insensitive,
            forall|j: int| 0 <= j < results@.len() ==> (#[trigger] results@[j]).wf(),
        decreases files.len() - i,
    {
        let entry = &files[i];
        proof {
            assert(files@.take(i + 1).drop_last() =~= files@.take(i as int));
            assert(files@.take(i + 1).last() == files@[i as int]);
        }
        if classify(&entry.sample) == Classification::Text {
            match &entry.content {
                Some(content) => {
                    let r = process_file(
                        entry.path.clone(),
                        content.as_str(),
                        request.pattern.as_str(),
                        request.case_insensitive,
                    );
                    match r {
                        Some(fr) => {
                            results.push(fr);
                            proof {
                                assert(report_view(results@) =~= spec_scan(
                                    files@.take(i + 1),
                                    pat,
                                    ci,
                                ));
                            }
                        },
                        None => {
                            proof {
                                assert(report_view(results@) =~= spec_scan(
                                    files@.take(i + 1),
                                    pat,
                                    ci,
                                ));
                            }
                        },
                    }
                },
                None => {
                    proof {
                        assert(report_view(results@) =~= spec_scan(files@.take(i + 1), pat, ci));
                    }
                },
            }
        } else {
            proof {
                assert(report_view(results@) =~= spec_scan(files@.take(i + 1), pat, ci));
            }
        }
        i = i + 1;
    }
    proof {
        assert(files@.take(files@.len() as int) =~= files@);
    }
    ScanReport { results }
}

/// A scan is a function of the request and the file data alone: two scans
/// over the same pattern, case rule and files yield the same report, entry
/// for entry and in the same order.
pub proof fn lemma_scan_deterministic(
    files: Seq<FileEntry>,
    pat: Seq<char>,
    ci: bool,
    r1: Seq<(Seq<char>, nat)>,
    r2: Seq<(Seq<char>, nat)>,
)
    requires
        r1 == spec_scan(files, pat, ci),
        r2 == spec_scan(files, pat, ci),
    ensures
        r1 == r2,
{
}

/// Zero-count files never appear: every entry of a scan's report carries a
/// positive count.
pub proof fn lemma_report_counts_positive(files: Seq<FileEntry>, pat: Seq<char>, ci: bool)
    ensures
        forall|j: int|
            0 <= j < spec_scan(files, pat, ci).len() ==> (#[trigger] spec_scan(files, pat, ci)[j]).1
                >= 1,
    decreases files.len(),
{
    if files.len() > 0 {
        lemma_report_counts_positive(files.drop_last(), pat, ci);
        let prefix = spec_scan(files.drop_last(), pat, ci);
        match spec_entry(files.last(), pat, ci) {
            Some(pr) => {
                assert(spec_scan(files, pat, ci) == prefix.push(pr));
                assert(pr.1 >= 1);
                assert forall|j: int| 0 <= j < prefix.push(pr).len() implies (#[trigger] prefix.push(
                    pr,
                )[j]).1 >= 1 by {
                    if j < prefix.len() {
                        assert(prefix.push(pr)[j] == prefix[j]);
                    } else {
                        assert(prefix.push(pr)[j] == pr);
                    }
                }
            },
            None => {
                assert(spec_scan(files, pat, ci) == prefix);
            },
        }
    }
}

} // verus!
