use text_counter::report::{append_decimal, checked_total, format_results};
use text_counter::scanner::FileResult;

fn result(path: &str, count: usize) -> FileResult {
    FileResult { path: path.to_string(), count }
}

#[test]
fn decimal_digits_render_exactly() {
    let cases: Vec<(usize, &str)> = vec![
        (0, "0"),
        (7, "7"),
        (10, "10"),
        (42, "42"),
        (1000, "1000"),
        (90210, "90210"),
    ];
    for (n, expected) in cases {
        let mut out = String::new();
        append_decimal(&mut out, n);
        assert_eq!(out, expected);
    }
}

#[test]
fn totals_sum_the_counts() {
    let results = vec![result("a", 2), result("b", 3), result("c", 1)];
    assert_eq!(checked_total(&results), Some(6));
    assert_eq!(checked_total(&Vec::new()), Some(0));
}

#[test]
fn totals_report_overflow() {
    let results = vec![result("a", usize::MAX), result("b", 1)];
    assert_eq!(checked_total(&results), None);
}

#[test]
fn formats_empty_result_list() {
    let text = format_results(&Vec::new());
    assert_eq!(text, "Total files searched: 0\nTotal occurrences: 0\n");
}

#[test]
fn formats_blocks_in_order() {
    let results = vec![result("x/a.txt", 2), result("y/b.txt", 11)];
    let text = format_results(&results);
    assert_eq!(
        text,
        "File: x/a.txt\n  Count: 2\n\nFile: y/b.txt\n  Count: 11\n\n\
         Total files searched: 2\nTotal occurrences: 13\n"
    );
}
