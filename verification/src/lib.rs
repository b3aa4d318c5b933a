//! Scans likely-text files for a literal pattern and reports per-file
//! occurrence counts.
//!
//! The library holds the pure pipeline: a content-sniffing classifier that
//! tells text from binary samples, a non-overlapping substring counter, a
//! scanner that turns per-file data into a report, and a formatter for the
//! report.  Directory traversal and file reading stay with the caller, which
//! hands the library plain bytes and strings.

pub mod classifier;
pub mod counter;
pub mod linter_demo;
pub mod report;
pub mod scanner;
pub mod test_linter;
