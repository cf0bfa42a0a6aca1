use myrss::content::{construct_message, construct_message_at, join_lines, render};

#[test]
fn lines_lose_trailing_whitespace_and_get_hard_breaks() {
    assert_eq!(join_lines(" hi \n there "), " hi  \n there");
    assert_eq!(join_lines("a\nb\nc"), "a  \nb  \nc");
}

#[test]
fn a_single_line_is_only_trimmed() {
    assert_eq!(join_lines("hello   "), "hello");
    assert_eq!(join_lines("hello"), "hello");
    assert_eq!(join_lines(""), "");
    assert_eq!(join_lines("   "), "");
}

#[test]
fn a_final_line_feed_opens_no_line() {
    assert_eq!(join_lines("a\n"), "a");
    assert_eq!(join_lines("a\nb\n"), "a  \nb");
    assert_eq!(join_lines("\n"), "");
}

#[test]
fn empty_lines_are_kept() {
    assert_eq!(join_lines("a\n\nb"), "a  \n  \nb");
    assert_eq!(join_lines("a\n\n"), "a  \n");
    assert_eq!(join_lines("\n\n"), "  \n");
}

#[test]
fn carriage_returns_at_line_ends_are_dropped() {
    assert_eq!(join_lines("a\r\nb\r\n"), "a  \nb");
    assert_eq!(join_lines("a\rb\r"), "a\rb");
}

#[test]
fn join_lines_agrees_with_lines_trim_join() {
    let samples = [
        "", "x", " x ", "a\nb", "a \n b \n", "\n", "\n\n\n", "a\r\n\r\nb", "  \n  ", "t\t\nu\u{3000}\nv",
        "one\n\ntwo\n\n\nthree   \n",
    ];
    for s in samples {
        let expected = s.lines().map(|l| l.trim_end()).collect::<Vec<_>>().join("  \n");
        assert_eq!(join_lines(s), expected, "{:?}", s);
    }
}

#[test]
fn render_keeps_the_line_break() {
    let html = render(" hi \n there ");
    assert_eq!(html, "<p>hi<br />\nthere</p>");
}

#[test]
fn render_strips_scripts() {
    let html = render("before<script>alert(1)</script>after");
    assert!(!html.contains("script"));
    assert!(!html.contains("alert"));
    assert_eq!(html, "<p>beforeafter</p>");
}

#[test]
fn render_converts_markdown() {
    assert_eq!(render("# Title"), "<h1>Title</h1>");
    assert_eq!(render("some *emphasis*"), "<p>some <em>emphasis</em></p>");
}

#[test]
fn render_is_not_the_identity() {
    assert_ne!(render("plain"), "plain");
    assert_eq!(render("plain"), "<p>plain</p>");
}

#[test]
fn message_at_a_given_time() {
    let m = construct_message_at("hello", "ann", true, 1_700_000_000_000);
    assert_eq!(m.sender, "ann");
    assert_eq!(m.sent_date, 1_700_000_000_000);
    assert_eq!(m.contents, "<p>hello</p>");
    assert!(m.should_notify);
    let n = m.clone();
    assert_eq!(n.sender, m.sender);
    assert_eq!(n.sent_date, m.sent_date);
    assert_eq!(n.contents, m.contents);
    assert_eq!(n.should_notify, m.should_notify);
}

#[test]
fn message_now_is_stamped_with_a_recent_time() {
    let m = construct_message("hello", "ann", false);
    assert_eq!(m.sender, "ann");
    assert_eq!(m.contents, "<p>hello</p>");
    assert!(!m.should_notify);
    assert!(m.sent_date > 1_600_000_000_000);
}
