use koaai::reports::{
    base36, cat_emoji, dashboard_view, resolve_button, cat_label, dashboard_header, dashboard_page, discord_ts, filter_button_id,
    is_owner, modal_category, modal_id, nav_button_id, non_empty_text, owner_dm_text,
    parse_nav_id, report_action, report_card, report_id_for, resolve_button_id, stored_text,
    ReportAction, ReportFilter, ReportRow,
};

fn row(resolved: bool) -> ReportRow {
    ReportRow {
        report_id: "RPT-A".into(),
        user_id: "42".into(),
        username: "tester".into(),
        guild_id: Some("1".into()),
        guild_name: Some("Guild".into()),
        channel_id: Some("9".into()),
        channel_name: Some("general".into()),
        category: "bug".into(),
        description: "desc".into(),
        steps: Some("1. do".into()),
        extra: None,
        resolved,
        resolved_at: None,
        created_at: "2026-08-25T00:00:00+00:00".into(),
    }
}

#[test]
fn filters_cycle_and_read_back() {
    for f in [ReportFilter::All, ReportFilter::Open, ReportFilter::Resolved] {
        assert_eq!(ReportFilter::parse(f.key()), f);
        assert_eq!(f.next().next().next(), f);
    }
    assert_eq!(ReportFilter::All.next(), ReportFilter::Open);
    assert_eq!(ReportFilter::parse("bogus"), ReportFilter::All);
    assert_eq!(ReportFilter::Open.label(), "\u{1f534} Open");
    assert_eq!(ReportFilter::Resolved.button_label(), "\u{1f4cb} Show All");
}

#[test]
fn categories_have_labels() {
    assert_eq!(cat_label("bug"), "\u{1f41b} Bug Report");
    assert_eq!(cat_label("weird"), "\u{1f4cb} weird");
    assert_eq!(cat_emoji("audio"), "\u{1f3b5}");
    assert_eq!(cat_emoji("weird"), "\u{1f4cb}");
}

#[test]
fn owner_is_matched_by_id() {
    assert!(is_owner("778163158312550410", 778163158312550410));
    assert!(!is_owner("778163158312550410", 1));
}

#[test]
fn base36_ids() {
    assert_eq!(base36(0), "0");
    assert_eq!(base36(35), "Z");
    assert_eq!(base36(36), "10");
    assert_eq!(base36(1_296), "100");
    assert_eq!(report_id_for(1_700_000_000_000), format!("RPT-{}", base36(1_700_000_000_000)));
    assert_eq!(base36(1_700_000_000_000), "LOYW3V28");
}

#[test]
fn timestamps_render_as_discord_tags() {
    assert_eq!(discord_ts("2026-08-25T00:00:00+00:00", 'R'), "<t:1787616000:R>");
    assert_eq!(discord_ts("1969-12-31T23:59:59+00:00", 'F'), "<t:-1:F>");
    assert_eq!(discord_ts("yesterday", 'R'), "-");
}

#[test]
fn dashboard_pages_clamp() {
    let p = dashboard_page(0, 5);
    assert_eq!((p.page, p.total_pages, p.start, p.end), (0, 1, 0, 0));
    let p = dashboard_page(9, 7);
    assert_eq!((p.page, p.total_pages, p.start, p.end), (2, 3, 8, 9));
    let p = dashboard_page(9, -3);
    assert_eq!((p.page, p.start, p.end), (0, 0, 4));
    for i in 0..9usize {
        let p = dashboard_page(9, (i / 4) as i64);
        assert!(p.start <= i && i < p.end);
    }
}

#[test]
fn dashboard_buttons_round_trip() {
    assert_eq!(nav_button_id(3, ReportFilter::Open), "koaai:reports_nav:3:open");
    assert_eq!(parse_nav_id("koaai:reports_nav:3:open"), Some((3, ReportFilter::Open)));
    assert_eq!(parse_nav_id(&nav_button_id(-1, ReportFilter::All)), Some((-1, ReportFilter::All)));
    assert_eq!(filter_button_id(ReportFilter::Resolved), "koaai:reports_filter:all:0");
    assert_eq!(parse_nav_id(&filter_button_id(ReportFilter::All)), Some((0, ReportFilter::Open)));
    assert_eq!(parse_nav_id("koaai:reports_nav:x:open"), Some((0, ReportFilter::Open)));
    assert_eq!(parse_nav_id("koaai:other:1:open"), None);
    assert_eq!(parse_nav_id("koaai:reports_nav:1"), None);
}

#[test]
fn report_components_are_routed() {
    assert!(matches!(report_action("koaai:reportcat"), ReportAction::PickCategory));
    assert!(matches!(report_action("koaai:reports_nav:1:all"), ReportAction::Browse));
    match report_action(&resolve_button_id("RPT-XY")) {
        ReportAction::Resolve(id) => assert_eq!(id, "RPT-XY"),
        _ => panic!("resolve"),
    }
    assert!(matches!(report_action("koaai:pp:1"), ReportAction::Other));
    assert_eq!(modal_category(&modal_id("bug")), Some("bug".to_string()));
    assert_eq!(modal_category("koaai:other"), None);
}

#[test]
fn optional_columns_round_trip() {
    assert_eq!(stored_text(&None), "");
    assert_eq!(non_empty_text(Some(stored_text(&Some("x".into())))), Some("x".to_string()));
    assert_eq!(non_empty_text(Some(stored_text(&None))), None);
}

#[test]
fn report_texts() {
    let r = row(false);
    let card = report_card(&r);
    assert!(card.starts_with("### \u{1f41b} \u{1f41b} Bug Report  \u{b7}  \u{1f534} Open\n"));
    assert!(card.contains("> desc"));
    assert!(card.ends_with("*Includes steps to reproduce*"));
    let mut long = row(true);
    long.description = "x".repeat(120) + "\nmore";
    long.resolved_at = Some("2026-08-25T01:00:00+00:00".into());
    let card = report_card(&long);
    assert!(card.contains(&format!("> {}\u{2026}", "x".repeat(110))));
    assert!(card.ends_with("\u{2705} *Resolved <t:1787619600:R>*"));
    let dm = owner_dm_text(&r);
    assert!(dm.contains("**Guild** \u{2014} `1`"));
    assert!(dm.contains("**#general** \u{2014} `9`"));
    assert!(dm.ends_with("**Mention:** <@42>\n*Use `+reports` to view & resolve all reports*"));
    let header = dashboard_header(2, 1, 1, ReportFilter::All, 0, 1);
    assert!(header.contains("Page 1 / 1"));
}

#[test]
fn dashboard_buttons_follow_the_page() {
    let v = dashboard_view(9, 0, 9, 5, 4, ReportFilter::Open);
    assert_eq!(v.page.total_pages, 3);
    assert!(!v.prev.enabled);
    assert!(v.next.enabled);
    assert_eq!(v.prev.id, "koaai:reports_nav:-1:open");
    assert_eq!(v.next.id, "koaai:reports_nav:1:open");
    assert_eq!(v.filter.id, filter_button_id(ReportFilter::Open));
    assert_eq!(v.prev.label, "\u{2190} Prev");
    assert_eq!(v.header, dashboard_header(9, 5, 4, ReportFilter::Open, 0, 3));
    let last = dashboard_view(9, 99, 9, 5, 4, ReportFilter::All);
    assert_eq!(last.page.page, 2);
    assert!(last.prev.enabled);
    assert!(!last.next.enabled);
    assert_eq!((last.page.start, last.page.end), (8, 9));
    let empty = dashboard_view(0, 0, 0, 0, 0, ReportFilter::All);
    assert!(!empty.prev.enabled && !empty.next.enabled);
}

#[test]
fn only_open_reports_get_a_resolve_button() {
    assert_eq!(resolve_button(&row(false)), Some("koaai:report_resolve:RPT-A".to_string()));
    assert_eq!(resolve_button(&row(true)), None);
}
