use mihomoctl::popup::HELP_TEXT;
use mihomoctl::scroll::{scroll_extent, scrolled_text, text_lines};

fn lines(s: &str) -> Vec<String> {
    text_lines(s).into_iter().map(|l| l.into_iter().collect()).collect()
}

#[test]
fn lines_split_like_str_lines() {
    for s in ["", "a", "a\n", "a\nb", "a\r\nb\r\n", "\n\n", "a\rb", "x\r", "\r\n"] {
        let expected: Vec<String> = s.lines().map(str::to_owned).collect();
        assert_eq!(lines(s), expected, "text {s:?}");
    }
}

#[test]
fn scrolled_text_shows_a_window_of_lines_and_columns() {
    let body = "first line\nsecond line\nthird";
    assert_eq!(scrolled_text(body, 0, 0, 5), "first\nsecon\nthird\n");
    assert_eq!(scrolled_text(body, 7, 1, 10), "line\n\n");
    assert_eq!(scrolled_text(body, 0, 3, 10), "");
    assert_eq!(scrolled_text(body, 0, 9, 10), "");
    assert_eq!(scrolled_text("", 0, 0, 10), "");
}

#[test]
fn scroll_extent_counts_lines_and_the_widest_one() {
    assert_eq!(scroll_extent("ab\nabcd\n"), (2, 4));
    assert_eq!(scroll_extent(""), (1, 1));
    assert_eq!(scroll_extent("\u{2500}\u{2500}\u{2500}"), (1, 3));
}

#[test]
fn help_text_lists_the_pages() {
    let shown = scrolled_text(HELP_TEXT, 0, 0, 80);
    assert!(shown.starts_with("Global\n"));
    assert!(shown.contains("Shift-H     Toggle this help\n"));
    assert!(shown.ends_with("  Esc         Close\n"));
}
