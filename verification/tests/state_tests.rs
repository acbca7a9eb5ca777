use koaai::state::{
    index_from, rand_index,
    autoplay_pick, classify_source, ErrorAction, ResolvedInfo, clean_title, extract_video_id, filename_from_url, fmt_sec,
    normalize_author, normalize_title_stub, track_key, AuxMeta, GuildState, HistoryEntry,
    LoopMode, MixCandidate, QueueError, SourceTag, Track,
};
use std::collections::VecDeque;

#[test]
fn fmt_sec_ports_js_behavior() {
    assert_eq!(fmt_sec(0), "0:00");
    assert_eq!(fmt_sec(59), "0:59");
    assert_eq!(fmt_sec(60), "1:00");
    assert_eq!(fmt_sec(61), "1:01");
    assert_eq!(fmt_sec(3661), "1:01:01");
    assert_eq!(fmt_sec(7385), "2:03:05");
}

#[test]
fn clean_title_strips_noise() {
    assert_eq!(clean_title("Song Name (Official Video)"), "Song Name");
    assert_eq!(clean_title("[Official Audio] Song"), "Song");
    assert_eq!(clean_title("Song (Lyrics) - Artist"), "Song - Artist");
    assert_eq!(clean_title("Song [Re-Upload] x"), "Song x");
    assert_eq!(clean_title("Slowed Song (slowed + reverb)"), "Slowed Song");
    assert_eq!(clean_title("A  B   C"), "A B C");
    assert_eq!(clean_title("- Song -"), "Song");
    assert_eq!(clean_title("(official)"), "(official)");
}

#[test]
fn filename_from_url_extracts_pretty_names() {
    assert_eq!(
        filename_from_url("https://cdn.discordapp.com/attachments/1/2/My_Cool-Song.mp3?ex=123"),
        Some("My Cool Song".into())
    );
    assert_eq!(
        filename_from_url("https://example.com/hashnameabcdefghijklmnop.mp3"),
        None
    );
    assert_eq!(filename_from_url(""), None);
}

#[test]
fn loop_mode_cycles() {
    assert_eq!(LoopMode::Off.cycle(), LoopMode::Track);
    assert_eq!(LoopMode::Track.cycle(), LoopMode::Queue);
    assert_eq!(LoopMode::Queue.cycle(), LoopMode::Off);
}

#[test]
fn source_classification() {
    assert_eq!(classify_source("https://www.youtube.com/watch?v=x"), SourceTag::Youtube);
    assert_eq!(classify_source("https://youtu.be/x"), SourceTag::Youtube);
    assert_eq!(
        classify_source("https://cdn.discordapp.com/attachments/1/2/a.mp3"),
        SourceTag::Discord
    );
    assert_eq!(
        classify_source("https://media.discordapp.net/attachments/1/2/a.mp3"),
        SourceTag::Discord
    );
    assert_eq!(classify_source("https://open.spotify.com/track/x"), SourceTag::SpotifyMatched);
    assert_eq!(classify_source("https://somehost.com/song.mp3"), SourceTag::File);
}

#[test]
fn track_from_aux_youtube() {
    let mut m = AuxMeta::default();
    m.title = Some("Never Gonna Give You Up (Official Video)".into());
    m.channel = Some("Rick Astley".into());
    m.source_url = Some("https://www.youtube.com/watch?v=dQw4w9WgXcQ".into());
    m.duration_secs = Some(213);

    let t = Track::from_aux(&m, "kurenai");
    assert_eq!(t.source, SourceTag::Youtube);
    assert_eq!(t.title, "Never Gonna Give You Up");
    assert_eq!(t.author, "Rick Astley");
    assert_eq!(t.requester, "kurenai");
    assert_eq!(t.duration_secs, Some(213));
    assert!(!t.is_live);
}

#[test]
fn track_from_aux_discord_file_uses_filename() {
    let mut m = AuxMeta::default();
    m.title = Some("a1b2c3d4e5f6a7b8c9d0e1f2a3b4c5d6".into());
    m.source_url = Some("https://cdn.discordapp.com/attachments/1/2/my_track_name.flac".into());

    let t = Track::from_aux(&m, "user");
    assert_eq!(t.source, SourceTag::Discord);
    assert_eq!(t.title, "my track name");
    assert_eq!(t.author, "File Upload");
}

#[test]
fn stop_flag_expires_and_consumes() {
    let now: u64 = 1_000_000;
    let mut st = GuildState::default();
    assert!(!st.take_fresh_stop(now), "no flag set -> natural end");

    st.request_stop(now);
    assert!(st.take_fresh_stop(now), "fresh flag -> command owns flow");
    assert!(!st.stop_intentional, "flag consumed");
    assert!(!st.take_fresh_stop(now));

    // a stale flag: set 30 s before the track end
    st.request_stop(now);
    st.stop_flag_at = Some(now - 30_000);
    assert!(!st.take_fresh_stop(now), "stale flag must NOT swallow a natural end");
}

#[test]
fn circuit_breaker_opens_and_breaks() {
    let now: u64 = 1_000_000;
    let mut st = GuildState::default();
    assert!(!st.circuit_open(now), "fresh state -> circuit closed");
    assert!(st.stay_last_rejoin.is_none(), "no auto-rejoin yet");

    st.cooldown_until = Some(now + 60_000);
    assert!(st.circuit_open(now), "future deadline -> circuit open");

    st.break_circuit();
    assert!(!st.circuit_open(now), "explicit user action breaks the circuit");

    st.cooldown_until = Some(now - 1_000);
    assert!(!st.circuit_open(now), "elapsed deadline -> circuit closed");
}

#[test]
fn video_id_extraction() {
    assert_eq!(
        extract_video_id("https://www.youtube.com/watch?v=dQw4w9WgXcQ"),
        Some("dQw4w9WgXcQ".into())
    );
    assert_eq!(
        extract_video_id("https://www.youtube.com/watch?v=dQw4w9WgXcQ&list=RDdQw4w9WgXcQ"),
        Some("dQw4w9WgXcQ".into())
    );
    assert_eq!(extract_video_id("https://youtu.be/dQw4w9WgXcQ"), Some("dQw4w9WgXcQ".into()));
    assert_eq!(extract_video_id("ytsearch1:coldplay yellow"), None);
    assert_eq!(extract_video_id("https://soundcloud.com/artist/track"), None);
    assert_eq!(extract_video_id("https://www.youtube.com/watch?v=short"), None);
    assert_eq!(extract_video_id("not a url"), None);
}

#[test]
fn author_normalization_catches_topic_channels() {
    assert_eq!(normalize_author("Coldplay"), "coldplay");
    assert_eq!(normalize_author("Coldplay - Topic"), "coldplay");
    assert_eq!(normalize_author("  Coldplay   -   Topic  "), "coldplay");
    assert_eq!(normalize_author("The Weeknd"), "the weeknd");
    assert_eq!(normalize_author(""), "");
}

fn mix_cand(id: &str, title: &str, author: &str, dur: Option<u64>, live: bool) -> MixCandidate {
    MixCandidate {
        video_id: id.into(),
        webpage_url: format!("https://www.youtube.com/watch?v={id}"),
        title: title.into(),
        author: author.into(),
        duration_secs: dur,
        thumbnail: String::new(),
        is_live: live,
    }
}

#[test]
fn autoplay_pick_applies_every_filter() {
    let seed = "SEEDSEED111";
    let seed_author = normalize_author("Coldplay");
    let history: VecDeque<HistoryEntry> = vec![HistoryEntry::new(
        "https://www.youtube.com/watch?v=PLAYEDPLAY1",
        "Old Song",
        "Someone",
    )]
    .into_iter()
    .collect();
    let queued = vec![HistoryEntry::new(
        "https://www.youtube.com/watch?v=QUEUEDQUEU1",
        "Waiting Song",
        "Someone",
    )];

    let cands = vec![
        mix_cand(seed, "Seed Song", "Coldplay", Some(200), false),
        mix_cand("AAAAAAAAAAA", "Other", "Coldplay - Topic", Some(200), false),
        mix_cand("PLAYEDPLAY1", "Old Song", "Someone", Some(200), false),
        mix_cand("QUEUEDQUEU1", "Waiting Song", "Someone", Some(200), false),
        mix_cand("GGGGGGGGGGG", "Old Song - Random Uploader", "Uploader", Some(210), false),
        mix_cand("BBBBBBBBBBB", "Live", "Someone", Some(200), true),
        mix_cand("CCCCCCCCCCC", "Epic 3h mix", "Someone", Some(3 * 3600), false),
        mix_cand("DDDDDDDDDDD", "Mystery", "Someone", None, false),
        mix_cand("EEEEEEEEEEE", "   ", "Someone", Some(200), false),
        mix_cand("FFFFFFFFFFF", "Fresh Track", "Someone Else", Some(180), false),
    ];
    assert_eq!(autoplay_pick(&cands, seed, &seed_author, &history, &queued), Some(9));
}

#[test]
fn title_stubs_catch_reuploads() {
    assert_eq!(normalize_title_stub("Khat"), "khat");
    assert_eq!(normalize_title_stub("Khat - Navjot Ahuja"), "khat");
    assert_eq!(normalize_title_stub("KHAT (Lyrics)"), "khat");
    assert_eq!(normalize_title_stub("Arz Kiya Hai | Coke Studio Bharat"), "arz kiya hai");
    assert_eq!(normalize_title_stub("Like Him (feat. Lola Young)"), "like him");
    assert_eq!(normalize_title_stub("(Untitled)"), "(untitled)");
    assert_eq!(normalize_title_stub("Higher Power"), "higher power");
}

#[test]
fn autoplay_pick_returns_none_when_everything_filtered() {
    let cands = vec![mix_cand("AAAAAAAAAAA", "Same Artist", "Coldplay", Some(200), false)];
    let history = VecDeque::new();
    let queued = vec![];
    assert_eq!(
        autoplay_pick(&cands, "SEEDSEED111", &normalize_author("coldplay"), &history, &queued),
        None
    );
    assert_eq!(
        autoplay_pick(&[], "SEEDSEED111", &normalize_author("x"), &history, &queued),
        None
    );
}

#[test]
fn track_key_prefers_video_id() {
    assert_eq!(track_key("https://www.youtube.com/watch?v=dQw4w9WgXcQ"), "dQw4w9WgXcQ");
    assert_eq!(track_key("https://soundcloud.com/a/b"), "https://soundcloud.com/a/b");
}

// ── further checks of the player state ──────────────────────────────────

fn track(title: &str, dur: Option<u64>) -> Track {
    Track {
        uri: format!("https://example.com/{title}.mp3"),
        duration_secs: dur,
        requester: "tester".into(),
        thumbnail: String::new(),
        source: SourceTag::File,
        title: title.into(),
        author: "Someone".into(),
        is_live: false,
        ui_link: None,
    }
}

fn titles(st: &GuildState) -> Vec<String> {
    st.queue.iter().map(|t| t.title.clone()).collect()
}

#[test]
fn loop_track_replays_the_same_track() {
    let mut st = GuildState::default();
    st.queue.push_back(track("a", Some(10)));
    st.queue.push_back(track("b", Some(10)));
    st.loop_mode = LoopMode::Track;
    match st.advance() {
        koaai::state::Advance::Play(t) => assert_eq!(t.title, "a"),
        _ => panic!("expected a track"),
    }
    match st.advance() {
        koaai::state::Advance::Play(t) => assert_eq!(t.title, "a"),
        _ => panic!("expected a track"),
    }
}

#[test]
fn loop_queue_sends_finished_track_to_the_back() {
    let mut st = GuildState::default();
    st.queue.push_back(track("a", Some(10)));
    st.queue.push_back(track("b", Some(10)));
    st.loop_mode = LoopMode::Queue;
    let _ = st.advance();
    let _ = st.advance();
    assert_eq!(st.current.as_ref().map(|t| t.title.clone()), Some("b".to_string()));
    assert_eq!(titles(&st), vec!["a".to_string()]);
}

#[test]
fn advance_on_empty_queue_concludes() {
    let mut st = GuildState::default();
    st.playing = true;
    st.loop_mode = LoopMode::Queue;
    match st.advance() {
        koaai::state::Advance::Concluded { had_activity } => assert!(had_activity),
        _ => panic!("expected conclusion"),
    }
    assert_eq!(st.loop_mode, LoopMode::Off);
    assert!(!st.playing);
}

#[test]
fn remove_and_move_reject_bad_positions() {
    let mut st = GuildState::default();
    st.queue.push_back(track("a", None));
    st.queue.push_back(track("b", None));
    st.queue.push_back(track("c", None));
    assert_eq!(st.remove_at(0).err(), Some(QueueError::InvalidPosition));
    assert_eq!(st.remove_at(4).err(), Some(QueueError::InvalidPosition));
    assert_eq!(st.move_track(1, 9).err(), Some(QueueError::InvalidPosition));
    assert_eq!(st.move_track(1, 3).unwrap(), "a");
    assert_eq!(titles(&st), vec!["b", "c", "a"]);
    assert_eq!(st.remove_at(2).unwrap().title, "c");
    assert_eq!(titles(&st), vec!["b", "a"]);
}

#[test]
fn shuffle_keeps_every_track() {
    let mut st = GuildState::default();
    assert_eq!(st.shuffle().err(), Some(QueueError::EmptyQueue));
    for name in ["a", "b", "c", "d", "e", "f"] {
        st.queue.push_back(track(name, None));
    }
    st.shuffle().unwrap();
    let mut got = titles(&st);
    got.sort();
    assert_eq!(got, vec!["a", "b", "c", "d", "e", "f"]);
}

#[test]
fn skip_drops_extra_tracks_and_flags_the_stop() {
    let mut st = GuildState::default();
    st.current = Some(track("now", None));
    for name in ["a", "b", "c"] {
        st.queue.push_back(track(name, None));
    }
    st.skip_tracks(3, 5);
    assert_eq!(titles(&st), vec!["c"]);
    assert!(st.stop_intentional);
    assert_eq!(st.previous.map(|t| t.title), Some("now".to_string()));
    assert!(st.current.is_none());
}

#[test]
fn step_back_requeues_the_current_track_first() {
    let mut st = GuildState::default();
    st.current = Some(track("now", None));
    st.queue.push_back(track("next", None));
    st.step_back(7);
    assert_eq!(titles(&st), vec!["now", "next"]);
    assert!(st.current.is_none());
    assert_eq!(st.stop_flag_at, Some(7));
}

#[test]
fn track_error_escalates_from_skip_to_recovery_to_stop() {
    let mut st = GuildState::default();
    st.voice_channel_id = Some(42);
    assert_eq!(st.on_track_error(0, 5, 2), ErrorAction::Skip { streak: 1 });
    assert_eq!(st.on_track_error(0, 5, 2), ErrorAction::Recover { voice_channel: 42 });
    st.recovery_rejoined(42);
    assert_eq!(st.on_track_error(0, 5, 2), ErrorAction::Recover { voice_channel: 42 });
    assert_eq!(st.on_track_error(0, 5, 2), ErrorAction::Skip { streak: 4 });
    st.queue.push_back(track("x", None));
    assert_eq!(st.on_track_error(0, 5, 2), ErrorAction::StopAll);
    assert!(st.queue.is_empty());
}

#[test]
fn track_end_after_a_command_stop_is_swallowed_once() {
    let mut st = GuildState::default();
    st.request_stop(100);
    assert!(!st.on_track_end(200));
    assert!(st.on_track_end(300));
}

#[test]
fn from_resolved_names_uploaded_files() {
    let info = ResolvedInfo {
        webpage_url: "https://cdn.discordapp.com/attachments/1/2/My_Cool-Song.mp3".into(),
        title: String::new(),
        author: "Unknown".into(),
        duration_secs: Some(5),
        thumbnail: String::new(),
        is_live: false,
        is_spotify_match: false,
        ui_link: None,
    };
    let t = Track::from_resolved(info, "me");
    assert_eq!(t.title, "My Cool Song");
    assert_eq!(t.author, "File Upload");
    assert_eq!(t.source, SourceTag::Discord);
    assert_eq!(t.duration_display(), "0:05");
    assert_eq!(t.link_for_ui(), "https://cdn.discordapp.com/attachments/1/2/My_Cool-Song.mp3");
}

#[test]
fn uri_safe_falls_back_to_discord() {
    let mut t = track("a", None);
    t.uri = String::new();
    assert_eq!(t.uri_safe(), "https://discord.gg");
    assert_eq!(t.duration_display(), "Live / Unknown");
}

#[test]
fn title_stub_skips_a_leading_separator() {
    assert_eq!(normalize_title_stub(" (Live) Song (Remix)"), "(live) song");
    assert_eq!(normalize_title_stub(" - Intro - Outro"), "- intro");
}

#[test]
fn shuffle_follows_its_draws() {
    let mut st = GuildState::with_default_volume(100);
    for t in ["a", "b", "c", "d"] {
        st.queue.push_back(track(t, None));
    }
    // i = 3 swaps with 7 % 4 = 3, i = 2 with 5 % 3 = 2, i = 1 with 4 % 2 = 0
    st.shuffle_with(&vec![7, 5, 4]);
    assert_eq!(titles(&st), vec!["b", "a", "c", "d"]);
    // i = 3 swaps with 0, i = 2 with 1, i = 1 with 1
    st.shuffle_with(&vec![0, 1, 1]);
    assert_eq!(titles(&st), vec!["d", "c", "a", "b"]);
}

#[test]
fn draws_pick_indices_below_the_bound() {
    assert_eq!(index_from(17, 5), 2);
    assert_eq!(index_from(u64::MAX, 1), 0);
    for _ in 0..50 {
        assert!(rand_index(3) < 3);
    }
}

#[test]
fn enqueue_appends_and_reports_position() {
    let mut st = GuildState::with_default_volume(100);
    assert_eq!(st.enqueue(track("a", None)), 1);
    assert_eq!(st.enqueue(track("b", Some(3))), 2);
    assert_eq!(titles(&st), vec!["a", "b"]);
}

#[test]
fn topic_channels_match_their_artist() {
    for name in ["Coldplay", "  The   Weeknd ", "Sigur Rós"] {
        assert_eq!(normalize_author(&format!("{name} - Topic")), normalize_author(name));
    }
    assert_eq!(normalize_author("Coldplay - Topic - Topic"), "coldplay - topic");
}

fn info(url: &str, title: &str) -> ResolvedInfo {
    ResolvedInfo {
        webpage_url: url.into(),
        title: title.into(),
        author: "Band".into(),
        duration_secs: Some(100),
        thumbnail: String::new(),
        is_live: false,
        is_spotify_match: false,
        ui_link: None,
    }
}

#[test]
fn playlists_append_in_order() {
    let mut st = GuildState::with_default_volume(100);
    st.enqueue(track("first", None));
    let infos = vec![
        info("https://www.youtube.com/watch?v=aaaaaaaaaaa", "One"),
        info("https://www.youtube.com/watch?v=bbbbbbbbbbb", "Two"),
    ];
    let expected: Vec<Track> = infos.iter().cloned().map(|i| Track::from_resolved(i, "dj")).collect();
    st.enqueue_all(infos, "dj");
    assert_eq!(titles(&st), vec!["first".to_string(), expected[0].title.clone(), expected[1].title.clone()]);
    assert_eq!(st.queue[1].uri, expected[0].uri);
    assert_eq!(st.queue[2].requester, "dj");
    st.enqueue_all(vec![], "dj");
    assert_eq!(st.queue.len(), 3);
}

#[test]
fn without_voice_the_player_idles() {
    let mut st = GuildState::with_default_volume(100);
    st.enqueue(track("a", None));
    st.current = Some(track("now", None));
    st.playing = true;
    st.no_voice();
    assert!(st.current.is_none());
    assert!(!st.playing);
    assert_eq!(st.queue.len(), 1);
}
