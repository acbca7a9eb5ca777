use koaai::state::{GuildState, SourceTag, Track};
use koaai::ui::{
    component_id, help_body, help_category_body, help_menu_guild, in_bot_channel, md_title,
    now_playing_text, parse_component_id, parse_emoji, platform_logo, player_action,
    queue_button_id, queue_nav_page, queue_text, PlayerAction,
};

fn track(title: &str) -> Track {
    Track {
        uri: "https://www.youtube.com/watch?v=x".into(),
        duration_secs: Some(65),
        requester: "me".into(),
        thumbnail: String::new(),
        source: SourceTag::Youtube,
        title: title.into(),
        author: "Band `X`".into(),
        is_live: false,
        ui_link: None,
    }
}

#[test]
fn logos_follow_the_source() {
    let mut t = track("a");
    assert_eq!(platform_logo(&t), koaai::config::YOUTUBE);
    t.ui_link = Some("https://music.apple.com/search?term=a".into());
    assert_eq!(platform_logo(&t), koaai::config::APPLEMUSIC);
    t.ui_link = None;
    t.source = SourceTag::File;
    assert_eq!(platform_logo(&t), koaai::config::FOLDER);
}

#[test]
fn titles_are_markdown_safe() {
    assert_eq!(md_title(&track("[a] b]")), "(a) b)");
}

#[test]
fn custom_emojis_parse() {
    let e = parse_emoji(" <a:dog:123> ").unwrap();
    assert!(e.animated);
    assert_eq!(e.name, "dog");
    assert_eq!(e.id, 123);
    let e = parse_emoji(koaai::config::PLAY).unwrap();
    assert!(!e.animated);
    assert_eq!(e.name, "circleplay");
    assert!(parse_emoji("<:x:notanumber>").is_none());
    assert!(parse_emoji("plain").is_none());
}

#[test]
fn now_playing_card_lists_the_details() {
    let t = track("Song [Live]");
    let text = now_playing_text(&t, 3);
    assert!(text.contains("**[Song (Live)](https://www.youtube.com/watch?v=x)**"));
    assert!(text.contains("Band 'X'"));
    assert!(text.contains("1:05"));
    assert!(text.contains("Youtube"));
    assert!(text.ends_with("**Queue:** 3 track(s) remaining"));
}

#[test]
fn queue_pages_show_their_slice() {
    let mut st = GuildState::default();
    for i in 0..12 {
        st.queue.push_back(track(&format!("t{i}")));
    }
    let page = queue_text(&st, 1, 5);
    assert!(page.contains("**6. [t5]"));
    assert!(page.contains("**10. [t9]"));
    assert!(!page.contains("**11."));
    assert!(page.ends_with("-# Page 2/3  \u{2022}  12 tracks  \u{2022}  13:00 total"));
    let empty = queue_text(&GuildState::default(), 0, 10);
    assert!(empty.contains("Queue is empty."));
}

#[test]
fn component_ids_round_trip() {
    let id = component_id("pp", 77);
    assert_eq!(id, "koaai:pp:77");
    let c = parse_component_id(&id).unwrap();
    assert_eq!((c.action.as_str(), c.guild_id, c.page), ("pp", 77, 0));
    let c = parse_component_id(&queue_button_id("qnext", 5, 2)).unwrap();
    assert_eq!((c.action.as_str(), c.guild_id, c.page), ("qnext", 5, 2));
    assert!(parse_component_id("koaai:pp:x").is_none());
    assert!(parse_component_id("other:pp:1").is_none());
    assert_eq!(help_menu_guild("koaai:helpcat:9"), Some(9));
}

#[test]
fn queue_buttons_stay_in_range() {
    assert_eq!(queue_nav_page(true, 0, 30, 10), 0);
    assert_eq!(queue_nav_page(true, 2, 30, 10), 1);
    assert_eq!(queue_nav_page(false, 2, 30, 10), 2);
    assert_eq!(queue_nav_page(false, 0, 30, 10), 1);
    assert_eq!(queue_nav_page(false, -5, 0, 10), 0);
    assert_eq!(queue_nav_page(false, i64::MAX, 30, 10), 2);
}

#[test]
fn help_pages() {
    let b = help_category_body("+", "Audio").unwrap();
    assert!(b.contains("## Available Commands (1)\n`+volume`"));
    assert!(b.ends_with("Use `+report` \u{2014} it lands straight in the developer's DMs."));
    assert!(help_category_body("+", "Nope").is_none());
    let home = help_body("!", Some("Nope"), "Koaai", 22);
    assert!(home.starts_with("# \u{1f375} KOAAI\n"));
    assert!(home.contains("`!`"));
    assert!(home.contains("**Total Commands:** `22`"));
    let music = help_body("!", Some("Music"), "Koaai", 22);
    assert!(music.contains("`!play`, `!pause`"));
}

#[test]
fn player_buttons_route_by_action() {
    assert_eq!(player_action("helpcat"), PlayerAction::HelpMenu);
    assert_eq!(player_action("qclose"), PlayerAction::CloseQueue);
    assert_eq!(player_action("qprev"), PlayerAction::QueuePrev);
    assert_eq!(player_action("qnext"), PlayerAction::QueueNext);
    assert_eq!(player_action("prev"), PlayerAction::Previous);
    assert_eq!(player_action("pp"), PlayerAction::PlayPause);
    assert_eq!(player_action("skip"), PlayerAction::Skip);
    assert_eq!(player_action("loop"), PlayerAction::Loop);
    assert_eq!(player_action("stop"), PlayerAction::Stop);
    assert_eq!(player_action("Skip"), PlayerAction::Unknown);
    assert_eq!(player_action(""), PlayerAction::Unknown);
    let id = parse_component_id(&component_id("pp", 42)).expect("player id parses");
    assert_eq!(player_action(&id.action), PlayerAction::PlayPause);
}

#[test]
fn buttons_need_the_bots_channel() {
    assert!(in_bot_channel(Some(7), Some(7)));
    assert!(!in_bot_channel(Some(7), Some(8)));
    assert!(!in_bot_channel(Some(7), None));
    assert!(!in_bot_channel(None, None));
    assert!(!in_bot_channel(None, Some(7)));
}
