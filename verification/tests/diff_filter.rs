use rusty_commit::utils::git::{filter_diff_content, HEAD_LINES, TAIL_LINES, TRUNCATION_MARKER};

fn numbered(count: usize) -> String {
    let mut text = String::new();
    for i in 1..=count {
        text.push_str(&format!("line{}\n", i));
    }
    text
}

#[test]
fn marker_and_windows_are_as_documented() {
    assert_eq!(TRUNCATION_MARKER, "... [diff truncated due to size] ...");
    assert_eq!(HEAD_LINES, 10);
    assert_eq!(TAIL_LINES, 10);
}

#[test]
fn diff_under_budget_is_unchanged() {
    let diff = "+++ b/a.rs\n+fn a() {}\n-fn b() {}\n";
    assert_eq!(filter_diff_content(diff, 1000), diff);
}

#[test]
fn diff_at_budget_is_unchanged() {
    let diff = "a\nb\nc";
    assert_eq!(filter_diff_content(diff, 3), diff);
    let with_end = "a\nb\nc\n";
    assert_eq!(filter_diff_content(with_end, 3), with_end);
}

#[test]
fn diff_under_budget_keeps_carriage_returns() {
    let diff = "a\r\nb\r\n";
    assert_eq!(filter_diff_content(diff, 2), diff);
}

#[test]
fn empty_diff_is_unchanged() {
    assert_eq!(filter_diff_content("", 0), "");
    assert_eq!(filter_diff_content("", 5), "");
}

#[test]
fn identity_holds_for_every_budget_at_or_over_the_count() {
    let diff = numbered(30);
    for budget in 30..40 {
        assert_eq!(filter_diff_content(&diff, budget), diff);
    }
}

#[test]
fn long_diff_keeps_head_marker_and_tail() {
    let out = filter_diff_content(&numbered(25), 20);
    let expected = "line1\nline2\nline3\nline4\nline5\nline6\nline7\nline8\nline9\nline10\n\
                    ... [diff truncated due to size] ...\n\
                    line16\nline17\nline18\nline19\nline20\nline21\nline22\nline23\nline24\nline25";
    assert_eq!(out, expected);
}

#[test]
fn truncated_diff_has_one_marker_line() {
    let out = filter_diff_content(&numbered(100), 50);
    let lines: Vec<&str> = out.split('\n').collect();
    assert_eq!(lines.len(), 21);
    assert_eq!(lines.iter().filter(|line| **line == TRUNCATION_MARKER).count(), 1);
    assert_eq!(lines[10], TRUNCATION_MARKER);
    assert_eq!(lines[0], "line1");
    assert_eq!(lines[9], "line10");
    assert_eq!(lines[11], "line91");
    assert_eq!(lines[20], "line100");
}

#[test]
fn twenty_one_lines_keep_both_windows() {
    let out = filter_diff_content(&numbered(21), 20);
    let lines: Vec<&str> = out.split('\n').collect();
    assert_eq!(lines.len(), 21);
    assert_eq!(lines[9], "line10");
    assert_eq!(lines[10], TRUNCATION_MARKER);
    assert_eq!(lines[11], "line12");
    assert_eq!(lines[20], "line21");
}

#[test]
fn twenty_lines_over_budget_keep_no_tail() {
    let out = filter_diff_content(&numbered(20), 19);
    let expected = "line1\nline2\nline3\nline4\nline5\nline6\nline7\nline8\nline9\nline10\n\
                    ... [diff truncated due to size] ...";
    assert_eq!(out, expected);
}

#[test]
fn fewer_lines_than_the_head_window_are_all_kept() {
    assert_eq!(filter_diff_content("a\nb\nc\n", 0), "a\nb\nc\n... [diff truncated due to size] ...");
    assert_eq!(filter_diff_content("only", 0), "only\n... [diff truncated due to size] ...");
}

#[test]
fn budget_below_the_windows_still_keeps_the_windows() {
    let out = filter_diff_content(&numbered(15), 5);
    let lines: Vec<&str> = out.split('\n').collect();
    assert_eq!(lines.len(), 11);
    assert_eq!(lines[9], "line10");
    assert_eq!(lines[10], TRUNCATION_MARKER);
}

#[test]
fn truncation_drops_line_endings_of_the_input() {
    assert_eq!(
        filter_diff_content("a\r\nb\r\nc", 1),
        "a\nb\nc\n... [diff truncated due to size] ..."
    );
}

#[test]
fn truncation_keeps_characters_beyond_ascii() {
    let mut diff = String::new();
    for i in 0..30 {
        diff.push_str(&format!("+ é{}\n", i));
    }
    let out = filter_diff_content(&diff, 10);
    let lines: Vec<&str> = out.split('\n').collect();
    assert_eq!(lines[0], "+ é0");
    assert_eq!(lines[20], "+ é29");
}

#[test]
fn input_line_that_reads_like_the_marker_is_kept_as_it_is() {
    let mut diff = String::from("... [diff truncated due to size] ...\n");
    diff.push_str(&numbered(25));
    let out = filter_diff_content(&diff, 5);
    let lines: Vec<&str> = out.split('\n').collect();
    assert_eq!(lines.len(), 21);
    assert_eq!(lines[0], TRUNCATION_MARKER);
    assert_eq!(lines[10], TRUNCATION_MARKER);
    assert_eq!(lines.iter().filter(|line| **line == TRUNCATION_MARKER).count(), 2);
}
