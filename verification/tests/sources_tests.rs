use koaai::settings::SourcesConfig;
use koaai::sources::{
    apple_music_apply, base64_encode, basic_auth_header, chain_exhausted_msg, chain_next,
    clean_ytm_title, embed_json, embed_result, extract_result, is_playlist_query, is_url,
    ms_to_secs, parse_entry, parse_mmss, parse_prefix, parse_ytm_meta, playlist_result,
    resolve_embed_json, resolve_plan, sc_asset_urls, sc_client_id_in, soundcloud_result, soundcloud_search_url,
    sp_meta, spotify_search_link, token_fresh, usable_client_id, youtube_search, ytmusic_from_json, ytmusic_result,
    ChainSource, EmbedTrack, ResolvePlan, ResolvedMeta, ScItem, SearchPlatform, SpTrack,
    SpotifyKind, SpotifyRef, YtDlpEntry, YtDlpLine, YtDlpValue, YtmItem,
};

#[test]
fn ytm_meta_skips_category_token() {
    let (author, dur) = parse_ytm_meta("Song \u{2022} Rick Astley \u{2022} 3:33");
    assert_eq!(author, "Rick Astley");
    assert_eq!(dur, Some(3 * 60 + 33));
}

#[test]
fn ytm_meta_handles_hours_and_missing_parts() {
    let (author, dur) = parse_ytm_meta("Video \u{2022} Some Channel \u{2022} 1:02:03");
    assert_eq!(author, "Some Channel");
    assert_eq!(dur, Some(3723));

    let (author, dur) = parse_ytm_meta("Song \u{2022} Just A Name");
    assert_eq!(author, "Just A Name");
    assert_eq!(dur, None);
}

#[test]
fn mmss_rejects_bare_numbers() {
    assert_eq!(parse_mmss("3:22"), Some(202));
    assert_eq!(parse_mmss("1:02:03"), Some(3723));
    assert_eq!(parse_mmss("1.2M views"), None);
    assert_eq!(parse_mmss("42"), None);
}

#[test]
fn mmss_trims_and_refuses_garbage() {
    assert_eq!(parse_mmss("  4:05 "), Some(245));
    assert_eq!(parse_mmss("4: 05"), Some(245));
    assert_eq!(parse_mmss("4:x5"), None);
    assert_eq!(parse_mmss(":"), None);
}

#[test]
fn prefixes_name_platforms() {
    assert_eq!(
        parse_prefix("ytsearch:Never Gonna"),
        Some((SearchPlatform::YouTube, "never gonna".to_string()))
    );
    assert_eq!(
        parse_prefix("SCSEARCH:5lofi"),
        Some((SearchPlatform::SoundCloud, "lofi".to_string()))
    );
    assert_eq!(
        parse_prefix("SCSEARCH5:lofi"),
        Some((SearchPlatform::SoundCloud, "lofi".to_string()))
    );
    assert_eq!(
        parse_prefix("ytsearch1:coldplay yellow"),
        Some((SearchPlatform::YouTube, "coldplay yellow".to_string()))
    );
    assert_eq!(parse_prefix("ytsearch:5:q"), Some((SearchPlatform::YouTube, "q".to_string())));
    assert_eq!(parse_prefix("spsearch:::12x"), Some((SearchPlatform::Spotify, "x".to_string())));
    assert_eq!(parse_prefix("amsearch"), Some((SearchPlatform::AppleMusic, String::new())));
    assert_eq!(parse_prefix("plain words"), None);
}

#[test]
fn urls_and_playlists_are_recognised() {
    assert!(is_url("https://youtu.be/x"));
    assert!(is_url("http://a"));
    assert!(!is_url("ftp://a"));
    assert!(is_playlist_query("https://www.youtube.com/playlist?list=abc"));
    assert!(is_playlist_query("https://soundcloud.com/a/sets/b"));
    assert!(!is_playlist_query("never gonna give you up"));
    assert_eq!(youtube_search("a b"), "ytsearch1:a b");
}

#[test]
fn spotify_links_parse() {
    let r = SpotifyRef::parse("https://open.spotify.com/track/4uLU6hMCjMI75M1A2tKUQC?si=abc")
        .unwrap();
    assert_eq!(r.kind, SpotifyKind::Track);
    assert_eq!(r.id, "4uLU6hMCjMI75M1A2tKUQC");
    let r = SpotifyRef::parse("spotify:album:1DFixLWuPkv3KT3TnV35m3").unwrap();
    assert_eq!(r.kind, SpotifyKind::Album);
    assert_eq!(r.id, "1DFixLWuPkv3KT3TnV35m3");
    assert!(SpotifyRef::parse("https://open.spotify.com/track").is_none());
    assert!(SpotifyRef::parse("https://example.com/track/x").is_none());
    let r = SpotifyRef::parse("https://open.spotify.com/playlist/37i9dQZF1DX").unwrap();
    assert_eq!(r.page_link(), "https://open.spotify.com/playlist/37i9dQZF1DX");
    assert_eq!(r.source_url(), "https://open.spotify.com/embed/playlist/37i9dQZF1DX");
}

#[test]
fn base64_matches_rfc4648_vectors() {
    assert_eq!(base64_encode(""), "");
    assert_eq!(base64_encode("f"), "Zg==");
    assert_eq!(base64_encode("fo"), "Zm8=");
    assert_eq!(base64_encode("foo"), "Zm9v");
    assert_eq!(base64_encode("foobar"), "Zm9vYmFy");
    assert_eq!(base64_encode("é"), "w6k=");
    assert_eq!(basic_auth_header("id", "secret"), "Basic aWQ6c2VjcmV0");
}

#[test]
fn base64_length_is_four_per_three_bytes() {
    for n in 0..20usize {
        let s: String = std::iter::repeat('x').take(n).collect();
        assert_eq!(base64_encode(&s).len(), 4 * ((n + 2) / 3));
    }
}

#[test]
fn ytm_title_cleaning_defaults_to_unknown() {
    assert_eq!(clean_ytm_title(""), "Unknown");
    assert_eq!(clean_ytm_title("Song (Official Video)"), "Song");
}

fn entry(url: Option<&str>) -> YtDlpEntry {
    YtDlpEntry {
        title: Some("T".into()),
        uploader: Some("U".into()),
        channel: None,
        duration_secs: Some(0),
        thumbnail: None,
        webpage_url: url.map(|u| u.to_string()),
        url: None,
        is_live: None,
    }
}

#[test]
fn entries_need_a_usable_link() {
    let v = YtDlpValue { type_tag: None, entry: Some(entry(Some("https://x/y"))) };
    let m = parse_entry(&v, true, Some("ui".into())).unwrap();
    assert_eq!(m.webpage_url, "https://x/y");
    assert_eq!(m.author, "U");
    assert_eq!(m.duration_secs, None);
    assert!(m.is_spotify_match);
    assert_eq!(m.ui_link.as_deref(), Some("ui"));

    let bad = YtDlpValue { type_tag: None, entry: Some(entry(Some("file.mp3"))) };
    assert!(parse_entry(&bad, false, None).is_none());
    let search = YtDlpValue { type_tag: None, entry: Some(entry(Some("ytsearch:a"))) };
    assert!(parse_entry(&search, false, None).is_some());
    let playlist = YtDlpValue { type_tag: Some("playlist".into()), entry: Some(entry(Some("https://x"))) };
    assert!(parse_entry(&playlist, false, None).is_none());

    let r = extract_result(&vec![bad.clone(), v.clone()], "q").unwrap();
    assert_eq!(r.webpage_url, "https://x/y");
    assert_eq!(extract_result(&vec![bad.clone()], "q").err(), Some("No results for `q`".to_string()));
}

#[test]
fn flat_playlists_collect_their_entries() {
    let good = YtDlpValue { type_tag: None, entry: Some(entry(Some("https://a"))) };
    let bad = YtDlpValue { type_tag: None, entry: None };
    let lines = vec![
        YtDlpLine {
            value: YtDlpValue { type_tag: Some("playlist".into()), entry: None },
            entries: vec![good.clone(), bad.clone(), good.clone()],
        },
        YtDlpLine { value: good.clone(), entries: vec![] },
    ];
    assert_eq!(playlist_result(&lines).unwrap().len(), 3);
    let empty = vec![YtDlpLine { value: bad, entries: vec![] }];
    assert_eq!(playlist_result(&empty).err(), Some("Playlist empty or failed to load".to_string()));
}

#[test]
fn ytmusic_rows_resolve_to_watch_urls() {
    let skip = YtmItem {
        playlist_video_id: None,
        overlay_video_id: None,
        columns: vec![],
        thumbnails: vec![],
    };
    let row = YtmItem {
        playlist_video_id: Some(Some("dQw4w9WgXcQ".into())),
        overlay_video_id: None,
        columns: vec![
            vec![Some("Never Gonna Give You Up".into())],
            vec![Some("Song".into()), Some(" \u{2022} ".into()), Some("Rick Astley".into())],
            vec![Some("3:33".into())],
            vec![],
        ],
        thumbnails: vec![Some("small".into()), Some("big".into())],
    };
    let m = ytmusic_result(&vec![skip.clone(), row], "q").unwrap();
    assert_eq!(m.webpage_url, "https://www.youtube.com/watch?v=dQw4w9WgXcQ");
    assert_eq!(m.title, "Never Gonna Give You Up");
    assert_eq!(m.author, "Rick Astley");
    assert_eq!(m.duration_secs, Some(213));
    assert_eq!(m.thumbnail, "big");
    assert_eq!(
        ytmusic_result(&vec![skip], "q").err(),
        Some("No results on YouTube Music for `q`".to_string())
    );
}

#[test]
fn soundcloud_picks_the_first_track() {
    let playlist = ScItem {
        kind: "playlist".into(),
        permalink_url: Some("https://soundcloud.com/a/sets/b".into()),
        title: None,
        duration: None,
        artwork_url: None,
        username: None,
    };
    let tr = ScItem {
        kind: "track".into(),
        permalink_url: Some("https://soundcloud.com/a/b".into()),
        title: None,
        duration: Some(61_999),
        artwork_url: None,
        username: Some("artist".into()),
    };
    let m = soundcloud_result(&vec![playlist.clone(), tr], "q").unwrap();
    assert_eq!(m.webpage_url, "https://soundcloud.com/a/b");
    assert_eq!(m.title, "Unknown");
    assert_eq!(m.duration_secs, Some(61));
    assert_eq!(
        soundcloud_result(&vec![playlist], "q").err(),
        Some("No results on SoundCloud for `q`".to_string())
    );
}

#[test]
fn spotify_tracks_become_youtube_searches() {
    let t = SpTrack {
        name: "Yellow".into(),
        artists: vec!["Coldplay".into(), "Other".into()],
        duration_secs: ms_to_secs(Some(266_773)),
        album_images: vec!["cover".into()],
    };
    let m = sp_meta(&t, "ui".into());
    assert_eq!(m.webpage_url, "ytsearch1:Coldplay Yellow");
    assert_eq!(m.author, "Coldplay");
    assert_eq!(m.duration_secs, Some(266));
    assert_eq!(m.thumbnail, "cover");
    assert!(m.is_spotify_match);
}

#[test]
fn embed_pages_yield_named_tracks() {
    let html = "<html><script id=\"__NEXT_DATA__\" type=\"application/json\">{\"a\":1}</script></html>";
    assert_eq!(embed_json(html), Some("{\"a\":1}".to_string()));
    assert_eq!(embed_json("<html></html>"), None);
    let list = vec![
        EmbedTrack { title: Some("Song".into()), subtitle: None, duration: Some(500) },
        EmbedTrack { title: Some(String::new()), subtitle: Some("x".into()), duration: None },
        EmbedTrack { title: Some("Two".into()), subtitle: Some("Band".into()), duration: Some(90_000) },
    ];
    let v = embed_result(&list, "cover", "ui").unwrap();
    assert_eq!(v.len(), 2);
    assert_eq!(v[0].author, "Unknown");
    assert_eq!(v[0].duration_secs, None);
    assert_eq!(v[1].webpage_url, "ytsearch1:Band Two");
    assert_eq!(v[1].duration_secs, Some(90));
    assert!(embed_result(&vec![], "c", "u").is_err());
}

#[test]
fn encoded_search_links_escape_the_query() {
    assert_eq!(
        soundcloud_search_url("a b&c", "ID"),
        "https://api-v2.soundcloud.com/search?q=a%20b%26c&client_id=ID&limit=5&offset=0&linked_partitioning=1&facet=model"
    );
    assert_eq!(spotify_search_link("é~"), "https://open.spotify.com/search/%C3%A9~");
}

#[test]
fn apple_music_matches_keep_youtube_audio() {
    let m = ResolvedMeta {
        webpage_url: "https://www.youtube.com/watch?v=x".into(),
        title: "T".into(),
        author: "A".into(),
        duration_secs: Some(1),
        thumbnail: "yt".into(),
        is_live: false,
        is_spotify_match: true,
        ui_link: None,
    };
    let r = apple_music_apply(m, "hello world", Some(String::new()), Some(180_500));
    assert!(!r.is_spotify_match);
    assert_eq!(r.thumbnail, "yt");
    assert_eq!(r.duration_secs, Some(180));
    assert_eq!(r.ui_link.as_deref(), Some("https://music.apple.com/search?term=hello%20world"));
}

#[test]
fn credentials_rules() {
    assert!(token_fresh(10, 3600));
    assert!(!token_fresh(3540, 3600));
    assert!(!token_fresh(0, 30));
    assert!(usable_client_id("0123456789abcdef0123456789abcdef"));
    assert!(!usable_client_id("short"));
}

#[test]
fn client_ids_are_scraped_from_assets() {
    let html = "x https://a-v2.sndcdn.com/assets/0-abc.js y https://a-v2.sndcdn.com/assets/1-def.js";
    assert_eq!(
        sc_asset_urls(html),
        vec![
            "https://a-v2.sndcdn.com/assets/0-abc.js".to_string(),
            "https://a-v2.sndcdn.com/assets/1-def.js".to_string()
        ]
    );
    let body = "foo?client_id=abcdefghijklmnopqrstuvwxyz012345&bar";
    assert_eq!(sc_client_id_in(body), Some("abcdefghijklmnopqrstuvwxyz012345".to_string()));
    assert_eq!(sc_client_id_in("nothing here"), None);
}

fn cfg(yt: bool, sc: bool, sp: bool, am: bool) -> SourcesConfig {
    SourcesConfig {
        youtube_enabled: yt,
        soundcloud_enabled: sc,
        spotify_enabled: sp,
        apple_music_enabled: am,
        default_search: "ytmsearch".into(),
    }
}

#[test]
fn queries_are_routed_to_their_resolver() {
    let all = cfg(true, true, true, true);
    match resolve_plan("https://open.spotify.com/track/abc", &all) {
        ResolvePlan::Spotify(r) => assert_eq!(r.id, "abc"),
        _ => panic!("spotify link"),
    }
    match resolve_plan("ytsearch:https://youtu.be/x", &all) {
        ResolvePlan::Extract(u) => assert_eq!(u, "https://youtu.be/x"),
        _ => panic!("url"),
    }
    match resolve_plan("scsearch:lofi", &cfg(true, false, true, true)) {
        ResolvePlan::Refused(e) => assert_eq!(e, "SoundCloud source is disabled in config.toml"),
        _ => panic!("refused"),
    }
    match resolve_plan("amsearch:song", &all) {
        ResolvePlan::Search(p, q) => {
            assert_eq!(p, SearchPlatform::AppleMusic);
            assert_eq!(q, "song");
        }
        _ => panic!("search"),
    }
    match resolve_plan("Plain Words", &all) {
        ResolvePlan::Chain(q) => assert_eq!(q, "Plain Words"),
        _ => panic!("chain"),
    }
}

#[test]
fn fallback_chain_order_skips_disabled_sources() {
    let c = cfg(false, true, true, true);
    assert_eq!(chain_next(&c, None), Some(ChainSource::Spotify));
    assert_eq!(chain_next(&c, Some(ChainSource::Spotify)), Some(ChainSource::SoundCloud));
    assert_eq!(chain_next(&c, Some(ChainSource::SoundCloud)), None);
    let all = cfg(true, true, true, true);
    assert_eq!(chain_next(&all, None), Some(ChainSource::YouTubeMusic));
    assert_eq!(chain_next(&all, Some(ChainSource::YouTubeMusic)), Some(ChainSource::YouTube));
    assert_eq!(
        chain_exhausted_msg("q"),
        "No results for `q` on any platform (ytmusic, youtube, spotify, soundcloud)"
    );
}

#[test]
fn embed_documents_resolve_to_tracks() {
    let json = r#"{"props":{"pageProps":{"state":{"data":{"entity":{
        "title":"Mix",
        "coverArt":{"sources":[{"url":"https://img/c.jpg"},{"url":"other"}]},
        "trackList":[
            {"title":"Song","subtitle":"Artist","duration":215000},
            {"title":"","subtitle":"Nobody"},
            {"title":"Bare","duration":-5},
            7
        ]}}}}}}"#;
    let v = resolve_embed_json(json, "https://open.spotify.com/playlist/x").unwrap();
    assert_eq!(v.len(), 2);
    assert_eq!(v[0].title, "Song");
    assert_eq!(v[0].author, "Artist");
    assert_eq!(v[0].duration_secs, Some(215));
    assert_eq!(v[0].thumbnail, "https://img/c.jpg");
    assert_eq!(v[0].webpage_url, "ytsearch1:Artist Song");
    assert_eq!(v[0].ui_link.as_deref(), Some("https://open.spotify.com/playlist/x"));
    assert_eq!(v[1].title, "Bare");
    assert_eq!(v[1].author, "Unknown");
    assert_eq!(v[1].duration_secs, None);
    assert_eq!(v[1].thumbnail, "https://img/c.jpg");

    let none = r#"{"props":{"pageProps":{"state":{"data":{"entity":{"trackList":[]}}}}}}"#;
    assert_eq!(resolve_embed_json(none, "u").unwrap_err(), "Playlist empty or failed to load");
    assert_eq!(
        resolve_embed_json(r#"{"props":{}}"#, "u").unwrap_err(),
        "spotify embed data missing entity"
    );
    assert!(resolve_embed_json("{not json", "u").unwrap_err().starts_with("bad embed json: "));
}

#[test]
fn ytmusic_responses_are_read_row_by_row() {
    let json = r#"{"contents":{"tabs":[{"shelf":{"musicResponsiveListItemRenderer":{
            "flexColumns":[]}}},
        {"musicResponsiveListItemRenderer":{
            "overlay":{"musicItemThumbnailOverlayRenderer":{"content":{"musicPlayButtonRenderer":{
                "playNavigationEndpoint":{"watchEndpoint":{"videoId":"dQw4w9WgXcQ"}}}}}},
            "flexColumns":[
                {"musicResponsiveListItemFlexColumnRenderer":{"text":{"runs":[{"text":"Never Gonna Give You Up"}]}}},
                {"musicResponsiveListItemFlexColumnRenderer":{"text":{"runs":[
                    {"text":"Song"},{"text":" \u2022 "},{"text":"Rick Astley"},{"text":" \u2022 "},{"text":"3:33"}]}}}
            ],
            "thumbnail":{"musicThumbnailRenderer":{"thumbnail":{"thumbnails":[{"url":"small"},{"url":"big"}]}}}
        }}]}}"#;
    let m = ytmusic_from_json(json, "q").unwrap();
    assert_eq!(m.webpage_url, "https://www.youtube.com/watch?v=dQw4w9WgXcQ");
    assert_eq!(m.title, "Never Gonna Give You Up");
    assert_eq!(m.author, "Rick Astley");
    assert_eq!(m.duration_secs, Some(213));
    assert_eq!(m.thumbnail, "big");
    assert_eq!(
        ytmusic_from_json(r#"{"a":[1,2,{"b":null}]}"#, "q").err(),
        Some("No results on YouTube Music for `q`".to_string())
    );
    assert!(ytmusic_from_json("[", "q").is_err());
}

#[test]
fn formatted_times_parse_back() {
    for s in [0u64, 5, 59, 60, 213, 3599, 3600, 3723, 86399, 360000, u64::MAX] {
        let f = koaai::state::fmt_sec(s);
        assert_eq!(parse_mmss(&f), Some(s), "{f}");
        assert_eq!(koaai::commands::parse_timestamp(&f), Some(s), "{f}");
    }
}
