use codexbar_rs::providers::codex_tty::{parse_tty_status_snapshot, parse_tty_window_line, strip_ansi};
use codexbar_rs::text::{chars_of, string_of};

#[test]
fn parse_tty_status_snapshot_extracts_windows() {
    let raw = r#"
│  5h limit:             [███████████████████░] 95% left
│                        (resets 02:00 on 18 Mar)
│  Weekly limit:         [███████░░░░░░░░░░░░░] 33% left
│                        (resets 13:00 on 18 Mar)
"#;

    let snapshot = parse_tty_status_snapshot(raw).unwrap();
    assert_eq!(snapshot.primary.as_ref().and_then(|w| w.used), Some(5));
    assert_eq!(snapshot.primary.as_ref().and_then(|w| w.limit), Some(100));
    assert_eq!(
        snapshot
            .primary
            .as_ref()
            .and_then(|w| w.resets_at.as_deref()),
        Some("02:00 on 18 Mar")
    );
    assert_eq!(snapshot.secondary.as_ref().and_then(|w| w.used), Some(67));
    assert_eq!(
        snapshot
            .secondary
            .as_ref()
            .and_then(|w| w.resets_at.as_deref()),
        Some("13:00 on 18 Mar")
    );
}

#[test]
fn tty_window_remaining_is_the_percentage_left() {
    let raw = "  5h limit: [####] 95% left\n";
    let snapshot = parse_tty_status_snapshot(raw).unwrap();
    let primary = snapshot.primary.unwrap();
    assert_eq!(primary.remaining, Some(95));
    assert_eq!(primary.resets_at, None);
    assert!(snapshot.secondary.is_none());
}

#[test]
fn tty_status_without_windows_is_an_error() {
    let err = parse_tty_status_snapshot("nothing to see\nhere\n").err().unwrap();
    assert_eq!(err, "codex /status did not expose rate limit windows");
}

#[test]
fn tty_status_strips_escape_sequences() {
    let raw = "\u{1b}[1m5h limit:\u{1b}[0m [##] 40% left\r\n\u{1b}]0;title\u{7}(resets 09:30)\r\n";
    let snapshot = parse_tty_status_snapshot(raw).unwrap();
    let primary = snapshot.primary.unwrap();
    assert_eq!(primary.used, Some(60));
    assert_eq!(primary.resets_at.as_deref(), Some("09:30"));
}

#[test]
fn tty_reset_line_is_not_taken_past_the_next_limit_line() {
    let raw = "5h limit: 10% left\nWeekly limit: 20% left\n(resets tomorrow)\n";
    let snapshot = parse_tty_status_snapshot(raw).unwrap();
    assert_eq!(snapshot.primary.as_ref().unwrap().used, Some(90));
    assert_eq!(snapshot.primary.as_ref().unwrap().resets_at, None);
    assert_eq!(snapshot.secondary.as_ref().unwrap().resets_at.as_deref(), Some("tomorrow"));
}

#[test]
fn tty_later_window_line_wins() {
    let raw = "5h limit: 10% left\n5h limit: 30% left\n";
    let snapshot = parse_tty_status_snapshot(raw).unwrap();
    assert_eq!(snapshot.primary.unwrap().used, Some(70));
}

#[test]
fn tty_percentage_over_one_hundred_counts_as_nothing_used() {
    let line = chars_of("Weekly limit: 150% left");
    let window = parse_tty_window_line(&line, None).unwrap();
    assert_eq!(window.used, Some(0));
    assert_eq!(window.limit, Some(100));
}

#[test]
fn tty_line_without_digits_gives_no_window() {
    let line = chars_of("limit: unknown% left");
    assert!(parse_tty_window_line(&line, None).is_none());
    let line = chars_of("5h limit: unknown% left");
    assert_eq!(parse_tty_window_line(&line, None).unwrap().used, Some(95));
    let line = chars_of("5h limit: 12 percent");
    assert!(parse_tty_window_line(&line, None).is_none());
}

#[test]
fn strip_ansi_removes_sequences_and_carriage_returns() {
    let raw = chars_of("a\u{1b}[31mb\u{1b}]8;;x\u{1b}\\c\r\nd\u{1b}e\u{1b}[");
    let out = strip_ansi(&raw);
    assert_eq!(string_of(&out), "abc\nde");
}
