use koaai::bot::{
    bot_user_id, checkpoint_due, gc_report_due, guild_prefixes, queue_should_shrink,
    shutdown_guilds, stay_channels, ytdlp_outdated,
};
use koaai::logger::{
    console_line, file_line, label_color, level_from_setting, log_file_path, should_log, Level,
};
use koaai::memory::{
    page_kb, parse_proc_stat, snapshot, statm_resident_pages, ChildTally,
};

#[test]
fn snapshot_sane() {
    // a /proc/self/statm line of a running bot: 2560 resident pages
    let statm = "12345 2560 512 100 0 3000 0";
    let self_pages = statm_resident_pages(statm);
    let (self_mb, _, _, _) = snapshot(self_pages, page_kb(4096), &ChildTally::new());
    assert!(self_mb > 0, "the bot itself must have RSS");
}

#[test]
fn proc_stat_lines_parse() {
    let line = "1234 (yt dlp (x)) S 99 1 1 0 -1 4194560 100 0 0 0 1 1 0 0 20 0 1 0 100 1000000 250 18446744073709551615";
    let s = parse_proc_stat(line).unwrap();
    assert_eq!(s.comm, "yt dlp (x)");
    assert_eq!(s.ppid, Some(99));
    assert_eq!(s.rss_pages, 250);
    assert!(parse_proc_stat("1 (short) S 1 2").is_none());
    assert!(parse_proc_stat("no parens here").is_none());
    assert_eq!(statm_resident_pages("100 25 3"), 25);
    assert_eq!(statm_resident_pages(""), 0);
    assert_eq!(page_kb(4096), 4);
    assert_eq!(page_kb(-1), 4);
}

#[test]
fn child_tally_keeps_distinct_names() {
    let mut t = ChildTally::new();
    for name in ["a", "b", "a", "c", "d", "e", "f", "g"] {
        t.add(name, 256, 4);
    }
    assert_eq!(t.count, 8);
    assert_eq!(t.kb, 8 * 1024);
    let (_, child_mb, count, names) = snapshot(0, 4, &t);
    assert_eq!(child_mb, 8);
    assert_eq!(count, 8);
    assert_eq!(names, "a,b,c,d,e,f");
}

#[test]
fn log_lines() {
    assert_eq!(label_color("WARN"), ("WARN", "\u{1b}[1m\u{1b}[3;43m"));
    assert_eq!(label_color("custom"), ("LOG", ""));
    assert_eq!(level_from_setting("error"), Level::Error);
    assert_eq!(level_from_setting("verbose"), Level::Info);
    let cfg = koaai::logger::init(Level::Warn, false, "logs");
    assert!(!should_log("INFO", &cfg));
    assert!(!should_log("SOURCES", &cfg));
    assert!(should_log("ERROR", &cfg));
    assert!(should_log("WARN", &cfg));
    assert_eq!(
        console_line("12:00:00.000", "INFO", "gc", "hi"),
        "[12:00:00.000] \u{1b}[1m\u{1b}[3;42m[INFO] >\u{1b}[0m: gc > hi"
    );
    assert_eq!(file_line("t", "ERROR", "", "boom"), "[t] [ERROR]  boom");
    assert_eq!(log_file_path("logs"), "logs/koaai.log");
    assert!(koaai::logger::config().file_path == "logs");
}

#[test]
fn stored_rows_with_bad_ids_are_skipped() {
    let rows = vec![
        ("123".to_string(), "?".to_string()),
        ("x".to_string(), "!".to_string()),
        ("456".to_string(), "7".to_string()),
    ];
    assert_eq!(guild_prefixes(&rows), vec![(123, "?".to_string()), (456, "7".to_string())]);
    assert_eq!(stay_channels(&rows), vec![(456, 7)]);
    assert_eq!(bot_user_id("42"), 42);
    assert_eq!(bot_user_id(""), 0);
}

#[test]
fn housekeeping_rules() {
    assert!(gc_report_due(10, 0));
    assert!(gc_report_due(1, 5));
    assert!(!gc_report_due(1, 4));
    assert!(checkpoint_due(6));
    assert!(!checkpoint_due(7));
    assert!(queue_should_shrink(64, 10));
    assert!(!queue_should_shrink(32, 0));
    assert_eq!(shutdown_guilds(&vec![3, 1], &vec![1, 2, 2, 4]), vec![3, 1, 2, 4]);
    assert!(ytdlp_outdated("2025.01.01"));
    assert!(ytdlp_outdated("2026.08.2"));
    assert!(!ytdlp_outdated("2026.08.20"));
    assert!(!ytdlp_outdated("2026.09.01"));
}

#[test]
fn default_settings() {
    let cfg = koaai::settings::Config::default();
    assert_eq!(koaai::bot::default_prefix(&cfg), "+");
    assert_eq!(koaai::bot::prefix_or_default(Some("?".into()), &cfg), "?");
    assert_eq!(koaai::bot::prefix_or_default(None, &cfg), "+");
}
