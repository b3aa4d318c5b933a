use text_counter::scanner::{scan, process_file, FileEntry, ScanRequest};
use text_counter::report::{checked_total, format_results};

fn entry(path: &str, content: &str) -> FileEntry {
    FileEntry {
        path: path.to_string(),
        sample: content.as_bytes().to_vec(),
        content: Some(content.to_string()),
    }
}

fn request(pattern: &str, case_insensitive: bool) -> ScanRequest {
    ScanRequest {
        pattern: pattern.to_string(),
        roots: vec!["root".to_string()],
        case_insensitive,
    }
}

#[test]
fn empty_file_list_gives_empty_report() {
    let report = scan(&request("cat", false), &Vec::new());
    assert_eq!(report.results.len(), 0);
    assert_eq!(report.total_files(), 0);
}

#[test]
fn end_to_end_case_sensitive() {
    let mut binary = entry("b.bin", "cat cat cat");
    binary.sample = vec![b'c', 0u8, b't'];
    let files = vec![entry("a.txt", "cat cat dog"), binary, entry("sub/c.txt", "Cat")];
    let report = scan(&request("cat", false), &files);
    assert_eq!(report.results.len(), 1);
    assert_eq!(report.results[0].path, "a.txt");
    assert_eq!(report.results[0].count, 2);
    assert_eq!(checked_total(&report.results), Some(2));
}

#[test]
fn end_to_end_case_insensitive() {
    let mut binary = entry("b.bin", "cat cat cat");
    binary.sample = vec![b'c', 0u8, b't'];
    let files = vec![entry("a.txt", "cat cat dog"), binary, entry("sub/c.txt", "Cat")];
    let report = scan(&request("cat", true), &files);
    assert_eq!(report.results.len(), 2);
    assert_eq!(report.results[0].path, "a.txt");
    assert_eq!(report.results[0].count, 2);
    assert_eq!(report.results[1].path, "sub/c.txt");
    assert_eq!(report.results[1].count, 1);
    assert_eq!(checked_total(&report.results), Some(3));
    assert_eq!(report.total_occurrences(), Some(3));
    assert_eq!(report.total_files(), 2);
}

#[test]
fn zero_count_files_are_absent() {
    let files = vec![entry("a.txt", "cat"), entry("empty.txt", "dog dog")];
    let report = scan(&request("cat", false), &files);
    assert_eq!(report.results.len(), 1);
    assert_eq!(report.results[0].path, "a.txt");
    assert!(report.results.iter().all(|r| r.count >= 1));
}

#[test]
fn unreadable_content_is_skipped() {
    let unreadable = FileEntry {
        path: "locked.txt".to_string(),
        sample: b"cat".to_vec(),
        content: None,
    };
    let files = vec![unreadable, entry("a.txt", "cat")];
    let report = scan(&request("cat", false), &files);
    assert_eq!(report.results.len(), 1);
    assert_eq!(report.results[0].path, "a.txt");
}

#[test]
fn scan_is_idempotent() {
    let files = vec![entry("a.txt", "cat cat dog"), entry("sub/c.txt", "Cat")];
    let req = request("cat", true);
    let first = scan(&req, &files);
    let second = scan(&req, &files);
    assert_eq!(first.results.len(), second.results.len());
    for (a, b) in first.results.iter().zip(second.results.iter()) {
        assert_eq!(a.path, b.path);
        assert_eq!(a.count, b.count);
    }
}

#[test]
fn process_file_keeps_positive_counts_only() {
    let kept = process_file("a.txt".to_string(), "cat cat", "cat", false);
    let kept = kept.expect("two matches should be reported");
    assert_eq!(kept.path, "a.txt");
    assert_eq!(kept.count, 2);
    assert!(process_file("a.txt".to_string(), "dog", "cat", false).is_none());
}

#[test]
fn formats_end_to_end_report() {
    let files = vec![entry("a.txt", "cat cat dog")];
    let report = scan(&request("cat", false), &files);
    let text = format_results(&report.results);
    assert_eq!(
        text,
        "File: a.txt\n  Count: 2\n\nTotal files searched: 1\nTotal occurrences: 2\n"
    );
}
