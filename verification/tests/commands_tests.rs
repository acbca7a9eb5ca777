use koaai::commands::{
    dedup_emoji, emoji_err, jump_seconds, jump_target, parse_timestamp, seek_reply_text,
    seek_target, skip_count, uptime_text, valid_prefix, volume_reply,
};

#[test]
fn timestamps_parse() {
    assert_eq!(parse_timestamp("1:30"), Some(90));
    assert_eq!(parse_timestamp(" 2 : 05 "), Some(125));
    assert_eq!(parse_timestamp("90"), Some(90));
    assert_eq!(parse_timestamp("1:x"), None);
    assert_eq!(parse_timestamp("1:02:30"), Some(3750));
    assert_eq!(parse_timestamp(" 1 : 02 : 03 "), Some(3723));
    assert_eq!(parse_timestamp("1:75"), Some(135));
    assert_eq!(parse_timestamp("1:2:3:4"), None);
    assert_eq!(parse_timestamp(":30"), None);
    assert_eq!(parse_timestamp(""), None);
    assert_eq!(parse_timestamp("18446744073709551615"), Some(u64::MAX));
    assert_eq!(parse_timestamp("307445734561825861:0"), None);
}

#[test]
fn leading_custom_emojis_are_dropped() {
    assert_eq!(dedup_emoji("<:x:1>  Skipped"), "Skipped");
    assert_eq!(dedup_emoji("   <a:y:2>Paused"), "Paused");
    assert_eq!(dedup_emoji("No emoji"), "No emoji");
    assert_eq!(dedup_emoji("<unclosed"), "<unclosed");
    assert_eq!(emoji_err("x"), format!("{}  x", koaai::config::ERROR));
}

#[test]
fn seek_arithmetic() {
    assert_eq!(seek_target(500, Some(200)), 200);
    assert_eq!(seek_target(50, None), 50);
    assert_eq!(jump_target(100, 15, true, Some(110)), 109);
    assert_eq!(jump_target(100, 15, true, None), 115);
    assert_eq!(jump_target(10, 15, false, Some(110)), 0);
    assert_eq!(jump_target(30, 15, false, None), 15);
    assert_eq!(jump_seconds(None), 15);
    assert_eq!(jump_seconds(Some(-4)), 0);
    assert_eq!(jump_seconds(Some(40)), 40);
    assert_eq!(skip_count(None), 1);
    assert_eq!(skip_count(Some(0)), 1);
    assert_eq!(skip_count(Some(3)), 3);
}

#[test]
fn replies() {
    assert_eq!(
        seek_reply_text(90, None, false),
        format!("{}  Jumped to `1:30`.", koaai::config::FORWARD)
    );
    let s = seek_reply_text(0, Some((15, false)), true);
    assert!(s.starts_with(&format!("{}  Jumped back `15s`.", koaai::config::REWIND)));
    assert!(s.ends_with("every next seek is instant. \u{1f3a7}"));
    assert_eq!(volume_reply(150, 100).err(), Some("Volume must be 0\u{2013}100.".to_string()));
    assert!(volume_reply(100, 200).unwrap().ends_with("100% = pure source quality (zero re-encoding)."));
    assert_eq!(valid_prefix("  !!  "), Some("!!".to_string()));
    assert_eq!(valid_prefix("   "), None);
    assert_eq!(valid_prefix("ninechars"), None);
    assert_eq!(valid_prefix("\u{e9}\u{e9}\u{e9}\u{e9}\u{e9}"), None);
    assert!(uptime_text(90061).ends_with("`1d 1h 1m 1s`"));
}
