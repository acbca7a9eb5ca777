use koaai::player::{
    bitrate_bits, channel_status, empty_channel_plan, lazy_search_query, move_plan,
    rebuffer_bits, track_failed_notice, voice_event, voice_plan, EmptyPlan, MovePlan, VoiceEvent,
    VoicePlan,
};
use koaai::state::{SourceTag, Track};

#[test]
fn bitrates_are_clamped() {
    assert_eq!(bitrate_bits(0), None);
    assert_eq!(bitrate_bits(96), Some(96_000));
    assert_eq!(bitrate_bits(9000), Some(512_000));
    assert_eq!(rebuffer_bits(0), 64_000);
    assert_eq!(rebuffer_bits(128), 128_000);
    assert_eq!(rebuffer_bits(1024), 512_000);
}

#[test]
fn status_line_names_known_authors() {
    assert_eq!(channel_status("Song", "Band"), "\u{1f3a7}  Now Playing \u{b7} Song \u{2014} Band");
    assert_eq!(channel_status("Song", "Unknown"), "\u{1f3a7}  Now Playing \u{b7} Song");
    let long = "x".repeat(600);
    assert_eq!(channel_status(&long, "").chars().count(), 490);
}

#[test]
fn lazy_spotify_matches_are_found() {
    let mut t = Track {
        uri: "ytsearch1:Coldplay Yellow".into(),
        duration_secs: None,
        requester: "me".into(),
        thumbnail: String::new(),
        source: SourceTag::SpotifyMatched,
        title: "Yellow".into(),
        author: "Coldplay".into(),
        is_live: false,
        ui_link: None,
    };
    assert_eq!(lazy_search_query(&t), Some("Coldplay Yellow".to_string()));
    t.source = SourceTag::Youtube;
    assert_eq!(lazy_search_query(&t), None);
}

#[test]
fn joining_voice() {
    assert!(matches!(voice_plan(false, None, 1, None, false), VoicePlan::Join { leave_first: false }));
    assert!(matches!(voice_plan(true, None, 1, None, false), VoicePlan::Join { leave_first: true }));
    assert!(matches!(voice_plan(true, Some(1), 1, None, true), VoicePlan::Reuse));
    match voice_plan(true, Some(2), 1, Some(2), false) {
        VoicePlan::Refuse(m) => assert!(m.contains("locked to 24/7 mode in <#2>!")),
        _ => panic!("refuse"),
    }
    match voice_plan(true, Some(2), 1, None, true) {
        VoicePlan::Refuse(m) => assert!(m.ends_with("  Already playing in <#2>!")),
        _ => panic!("refuse"),
    }
    assert!(matches!(voice_plan(true, Some(2), 1, None, false), VoicePlan::Join { leave_first: true }));
}

#[test]
fn voice_updates_are_classified() {
    assert_eq!(voice_event(true, Some(1), None, Some(1)), VoiceEvent::BotLeft);
    assert_eq!(voice_event(true, Some(1), Some(2), Some(1)), VoiceEvent::BotMoved(2));
    assert_eq!(voice_event(true, Some(1), Some(1), Some(1)), VoiceEvent::Ignore);
    assert_eq!(voice_event(false, Some(1), None, Some(1)), VoiceEvent::ListenerLeft(1));
    assert_eq!(voice_event(false, Some(3), None, Some(1)), VoiceEvent::Ignore);
    assert_eq!(move_plan(5, Some(5), true, false), MovePlan::CancelStayReturn);
    assert_eq!(move_plan(6, Some(5), false, true), MovePlan::ScheduleStayReturn);
    assert_eq!(move_plan(6, Some(5), true, true), MovePlan::Nothing);
    assert_eq!(empty_channel_plan(1, Some(2)), EmptyPlan::RejoinStay(2));
    assert_eq!(empty_channel_plan(2, Some(2)), EmptyPlan::StayPut);
    assert_eq!(empty_channel_plan(2, None), EmptyPlan::Leave);
}

#[test]
fn failure_notice_counts_up() {
    assert!(track_failed_notice(1, 3).contains("-# 2/3 consecutive errors"));
}
