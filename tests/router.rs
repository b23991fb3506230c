use roombot::router::{get_reply_text, has_prefix, help_text, route, same_text, CommandResult};
use roombot::uptime::{format_uptime, get_uptime, push_decimal, UptimeTracker};
use std::time::{Duration, Instant};

fn text(s: &str) -> CommandResult {
    CommandResult::TextReply(s.to_string())
}

#[test]
fn ping_gives_pong() {
    assert_eq!(route("ping", 0), text("pong"));
}

#[test]
fn ping_matching_is_exact() {
    assert_eq!(route("PING ", 0), CommandResult::NoMatch);
    assert_eq!(route("PING", 0), CommandResult::NoMatch);
    assert_eq!(route("ping ", 0), CommandResult::NoMatch);
    assert_eq!(route(" ping", 0), CommandResult::NoMatch);
}

#[test]
fn echo_returns_rest_verbatim() {
    assert_eq!(route("?echo hello world", 0), text("hello world"));
    assert_eq!(route("?echo   spaced  ", 0), text("  spaced  "));
    assert_eq!(route("?echo héllo ✓", 0), text("héllo ✓"));
}

#[test]
fn echo_with_empty_rest_is_a_match() {
    assert_eq!(route("?echo ", 0), text(""));
}

#[test]
fn echo_needs_the_space() {
    assert_eq!(route("?echo", 0), CommandResult::NoMatch);
    assert_eq!(route("?echohi", 0), CommandResult::NoMatch);
}

#[test]
fn echo_of_a_trigger_is_echoed() {
    assert_eq!(route("?echo ping", 0), text("ping"));
    assert_eq!(route("?echo ?uptime", 0), text("?uptime"));
}

#[test]
fn uptime_command_formats_seconds() {
    assert_eq!(route("?uptime", 90061), text("1d 1h 1m 1s"));
    assert_eq!(route("?uptime ", 90061), CommandResult::NoMatch);
}

#[test]
fn uptime_format_of_90061() {
    assert_eq!(format_uptime(90061), "1d 1h 1m 1s");
}

#[test]
fn uptime_format_edges() {
    assert_eq!(format_uptime(0), "0d 0h 0m 0s");
    assert_eq!(format_uptime(59), "0d 0h 0m 59s");
    assert_eq!(format_uptime(86399), "0d 23h 59m 59s");
    assert_eq!(format_uptime(86400 * 365 + 7200 + 600 + 5), "365d 2h 10m 5s");
    assert_eq!(
        format_uptime(u64::MAX),
        format!(
            "{}d {}h {}m {}s",
            u64::MAX / 86400,
            (u64::MAX % 86400) / 3600,
            (u64::MAX % 3600) / 60,
            u64::MAX % 60
        )
    );
}

#[test]
fn decimal_appends() {
    let mut s = String::from("n=");
    push_decimal(&mut s, 1234567890);
    assert_eq!(s, "n=1234567890");
    let mut z = String::new();
    push_decimal(&mut z, 0);
    assert_eq!(z, "0");
}

#[test]
fn help_is_the_fixed_text() {
    assert_eq!(route("?help", 0), CommandResult::TextReply(help_text().to_string()));
    assert!(help_text().contains("?echo"));
    assert!(help_text().contains("https://"));
}

#[test]
fn image_trigger_asks_for_attachment() {
    assert_eq!(route("?cat", 0), CommandResult::AttachmentReply);
    assert_eq!(route("?cats", 0), CommandResult::NoMatch);
}

#[test]
fn other_bodies_get_no_match() {
    for m in ["", "hello", "pong", "?", "?help me", "?ECHO x", "echo x", "?uptimex"] {
        assert_eq!(route(m, 42), CommandResult::NoMatch, "body {:?}", m);
    }
}

#[test]
fn text_helpers() {
    assert!(same_text("abc", "abc"));
    assert!(!same_text("abc", "abd"));
    assert!(!same_text("abc", "ab"));
    assert!(has_prefix("?echo x", "?echo "));
    assert!(has_prefix("abc", ""));
    assert!(!has_prefix("ab", "abc"));
    assert!(!has_prefix("xbc", "ab"));
}

fn tracker_up_for(secs: u64) -> Option<UptimeTracker> {
    Instant::now()
        .checked_sub(Duration::from_secs(secs))
        .map(UptimeTracker::starting_at)
}

#[test]
fn uptime_from_injected_start() {
    if let Some(t) = tracker_up_for(90061) {
        let up = get_uptime(&t);
        assert!(up.starts_with("1d 1h 1m "), "{}", up);
        assert!(t.elapsed_secs() >= 90061);
    }
}

#[test]
fn fresh_tracker_reads_zero_days() {
    let t = UptimeTracker::new();
    assert!(get_uptime(&t).starts_with("0d 0h 0m "));
}

#[test]
fn reply_text_of_commands() {
    let t = UptimeTracker::new();
    assert_eq!(get_reply_text("ping".to_string(), &t), "pong");
    assert_eq!(get_reply_text("?echo a b".to_string(), &t), "a b");
    assert_eq!(get_reply_text("hello".to_string(), &t), "");
    assert_eq!(get_reply_text("?cat".to_string(), &t), "");
    assert!(get_reply_text("?uptime".to_string(), &t).starts_with("0d 0h 0m "));
    if let Some(old) = tracker_up_for(3661) {
        assert!(get_reply_text("?uptime".to_string(), &old).starts_with("0d 1h 1m "));
    }
}
