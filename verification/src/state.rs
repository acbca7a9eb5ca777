//! Tracks, loop modes, title normalization, autoplay selection and the
//! per-guild player state machine.

use vstd::prelude::*;

use crate::text::{
    chars_eq, chars_eq_str, chars_of, collapse_whitespace, collapse_ws, ends_with,
    ends_with_exec, find_exec, find_from, find_from_exec, find_seq, is_ascii_alnum, is_ascii_alnum_exec, last_index,
    last_index_exec, lowercase, slice_of,
    string_from, suffix_from, to_lowercase, trim_class, trim_spec, trim_ws, utf8_len,
    utf8_len_is, CharClass,
};
use crate::web::{parse_url, url_parse};
use std::collections::hash_map::{DefaultHasher, RandomState};
use std::hash::{BuildHasher, Hasher};

verus! {

// ── loop mode and source tag ────────────────────────────────────────────

/// What happens to the finished track when the next one starts.
#[derive(Clone, Copy, Debug, PartialEq, Eq, Structural)]
pub enum LoopMode {
    Off,
    Track,
    Queue,
}

impl Default for LoopMode {
    fn default() -> (m: Self)
        ensures
            m == LoopMode::Off,
    {
        LoopMode::Off
    }
}

impl LoopMode {
    pub open spec fn cycle_spec(self) -> LoopMode {
        match self {
            LoopMode::Off => LoopMode::Track,
            LoopMode::Track => LoopMode::Queue,
            LoopMode::Queue => LoopMode::Off,
        }
    }

    /// Off → single track → whole queue → off.
    pub fn cycle(self) -> (m: Self)
        ensures
            m == self.cycle_spec(),
    {
        match self {
            LoopMode::Off => LoopMode::Track,
            LoopMode::Track => LoopMode::Queue,
            LoopMode::Queue => LoopMode::Off,
        }
    }

    pub open spec fn label_spec(self) -> Seq<char> {
        match self {
            LoopMode::Off => "Off"@,
            LoopMode::Track => "Single Track"@,
            LoopMode::Queue => "Entire Queue"@,
        }
    }

    pub fn label(self) -> (s: &'static str)
        ensures
            s@ == self.label_spec(),
    {
        match self {
            LoopMode::Off => "Off",
            LoopMode::Track => "Single Track",
            LoopMode::Queue => "Entire Queue",
        }
    }

    pub open spec fn short_label_spec(self) -> Seq<char> {
        match self {
            LoopMode::Off => "Off"@,
            LoopMode::Track => "Track"@,
            LoopMode::Queue => "Queue"@,
        }
    }

    pub fn short_label(self) -> (s: &'static str)
        ensures
            s@ == self.short_label_spec(),
    {
        match self {
            LoopMode::Off => "Off",
            LoopMode::Track => "Track",
            LoopMode::Queue => "Queue",
        }
    }
}

/// Cycling the loop mode three times gives the mode back, and no fewer
/// cycles do.
pub proof fn lemma_loop_mode_cycle_period(m: LoopMode)
    ensures
        m.cycle_spec().cycle_spec().cycle_spec() == m,
        m.cycle_spec() != m,
        m.cycle_spec().cycle_spec() != m,
{
}

/// Where a track's audio comes from.
#[derive(Clone, Copy, Debug, PartialEq, Eq, Structural)]
pub enum SourceTag {
    Youtube,
    SoundCloud,
    SpotifyMatched,
    File,
    Discord,
}

impl SourceTag {
    pub open spec fn name_spec(self) -> Seq<char> {
        match self {
            SourceTag::Youtube => "Youtube"@,
            SourceTag::SoundCloud => "Soundcloud"@,
            SourceTag::SpotifyMatched => "Spotify"@,
            SourceTag::File => "File"@,
            SourceTag::Discord => "Discord"@,
        }
    }

    /// The display name of the source.
    pub fn name(self) -> (s: &'static str)
        ensures
            s@ == self.name_spec(),
    {
        match self {
            SourceTag::Youtube => "Youtube",
            SourceTag::SoundCloud => "Soundcloud",
            SourceTag::SpotifyMatched => "Spotify",
            SourceTag::File => "File",
            SourceTag::Discord => "Discord",
        }
    }
}

// ── title cleaning ──────────────────────────────────────────────────────

/// What `regex::Regex::replace_all(text, "")` returns for the
/// case-insensitive regex `pattern`; `None` when `pattern` does not compile.
pub uninterp spec fn regex_ci_replace_all(pattern: Seq<char>, text: Seq<char>) -> Option<
    Seq<char>,
>;

/// Builds `pattern` with `regex::RegexBuilder` (case-insensitive) and calls
/// `replace_all(text, "")`. The contract claims only that the result is a
/// function of the two strings.
#[verifier::external_body]
fn remove_matches_ci(pattern: &str, text: &str) -> (r: Option<String>)
    ensures
        r matches Some(s) ==> regex_ci_replace_all(pattern@, text@) == Some(s@),
        r is None ==> regex_ci_replace_all(pattern@, text@) is None,
{
    match regex::RegexBuilder::new(pattern).case_insensitive(true).build() {
        Ok(re) => Some(re.replace_all(text, "").into_owned()),
        Err(_) => None,
    }
}

/// How many noise patterns `clean_title` removes.
pub const NOISE_PATTERN_COUNT: usize = 10;

/// The bracketed noise a title loses: re-upload, official, lyrics, audio
/// and slowed tags, in round or square brackets.
pub open spec fn noise_pattern_spec(i: int) -> Seq<char> {
    if i == 0 {
        r"\(re-?upload[^)]*\)"@
    } else if i == 1 {
        r"\[re-?upload[^\]]*\]"@
    } else if i == 2 {
        r"\(official[^)]*\)"@
    } else if i == 3 {
        r"\[official[^\]]*\]"@
    } else if i == 4 {
        r"\(lyrics?[^)]*\)"@
    } else if i == 5 {
        r"\[lyrics?[^\]]*\]"@
    } else if i == 6 {
        r"\(audio\)"@
    } else if i == 7 {
        r"\[audio\]"@
    } else if i == 8 {
        r"\(slowed[^)]*\)"@
    } else {
        r"\[slowed[^\]]*\]"@
    }
}

pub fn noise_pattern(i: usize) -> (p: &'static str)
    ensures
        p@ == noise_pattern_spec(i as int),
{
    if i == 0 {
        r"\(re-?upload[^)]*\)"
    } else if i == 1 {
        r"\[re-?upload[^\]]*\]"
    } else if i == 2 {
        r"\(official[^)]*\)"
    } else if i == 3 {
        r"\[official[^\]]*\]"
    } else if i == 4 {
        r"\(lyrics?[^)]*\)"
    } else if i == 5 {
        r"\[lyrics?[^\]]*\]"
    } else if i == 6 {
        r"\(audio\)"
    } else if i == 7 {
        r"\[audio\]"
    } else if i == 8 {
        r"\(slowed[^)]*\)"
    } else {
        r"\[slowed[^\]]*\]"
    }
}

/// `t` after removing every match of the first `k` noise patterns, in order
/// (a pattern that fails to compile leaves the text as it is).
pub open spec fn strip_noise(t: Seq<char>, k: nat) -> Seq<char>
    decreases k,
{
    if k == 0 {
        t
    } else {
        let prev = strip_noise(t, (k - 1) as nat);
        match regex_ci_replace_all(noise_pattern_spec(k - 1), prev) {
            Some(r) => r,
            None => prev,
        }
    }
}

/// The cleaned title: whitespace collapsed, leading and trailing spaces,
/// pipes and dashes stripped; the title as given when nothing is left.
pub open spec fn tidy_title_spec(stripped: Seq<char>, title: Seq<char>) -> Seq<char> {
    let t = trim_spec(collapse_ws(stripped), CharClass::TitleEdge);
    if t.len() == 0 {
        title
    } else {
        t
    }
}

pub open spec fn clean_title_spec(title: Seq<char>) -> Seq<char> {
    tidy_title_spec(strip_noise(title, NOISE_PATTERN_COUNT as nat), title)
}

/// The last step of `clean_title`, on a title whose noise tags are already
/// removed (`stripped`).
pub fn tidy_title(stripped: &str, title: &str) -> (r: String)
    ensures
        r@ == tidy_title_spec(stripped@, title@),
{
    let s = chars_of(stripped);
    let collapsed = collapse_whitespace(&s);
    let t = trim_class(&collapsed, CharClass::TitleEdge);
    if t.len() == 0 {
        title.to_owned()
    } else {
        string_from(&t)
    }
}

/// Removes "(Official Video)", "[Lyrics]" and similar tags, collapses
/// whitespace and trims separator characters from both ends.
pub fn clean_title(title: &str) -> (r: String)
    ensures
        r@ == clean_title_spec(title@),
{
    let mut res: String = title.to_owned();
    let mut i: usize = 0;
    while i < NOISE_PATTERN_COUNT
        invariant
            i <= NOISE_PATTERN_COUNT,
            res@ == strip_noise(title@, i as nat),
        decreases NOISE_PATTERN_COUNT - i,
    {
        match remove_matches_ci(noise_pattern(i), res.as_str()) {
            Some(r) => {
                res = r;
            },
            None => {},
        }
        i += 1;
    }
    tidy_title(res.as_str(), title)
}

// ── normalization for repeat avoidance ─────────────────────────────────

/// Lowercased words of `author`, with a trailing "- topic" (YouTube's
/// auto-generated artist channels) removed.
pub open spec fn normalize_author_spec(author: Seq<char>) -> Seq<char> {
    let c = lowercase(collapse_ws(author));
    if ends_with(c, "- topic"@) {
        trim_ws(c.take(c.len() - "- topic"@.len()))
    } else {
        c
    }
}

/// Normalizes an author name so that "Coldplay - Topic" and "Coldplay"
/// compare equal.
pub fn normalize_author(author: &str) -> (r: String)
    ensures
        r@ == normalize_author_spec(author@),
{
    let a = chars_of(author);
    let collapsed = collapse_whitespace(&a);
    let c = to_lowercase(&collapsed);
    if ends_with_exec(&c, "- topic") {
        let suffix = chars_of("- topic");
        let head = slice_of(&c, 0, c.len() - suffix.len());
        assert(head@ =~= c@.take(c@.len() - "- topic"@.len()));
        let t = trim_class(&head, CharClass::Whitespace);
        string_from(&t)
    } else {
        string_from(&c)
    }
}

/// An author whose lowercased words are `c` and then ` - topic` (the form
/// of YouTube's auto-generated artist channels) normalizes to `c` itself,
/// for a non-empty `c` without whitespace at its ends.
pub proof fn lemma_topic_suffix_dropped(author: Seq<char>, c: Seq<char>)
    requires
        lowercase(collapse_ws(author)) == c + " - topic"@,
        c.len() > 0,
        !crate::text::is_ws(c[0]),
        !crate::text::is_ws(c[c.len() - 1]),
    ensures
        normalize_author_spec(author) == c,
{
    reveal_strlit(" - topic");
    reveal_strlit("- topic");
    let l = c + " - topic"@;
    assert(l.skip(l.len() - 7) =~= "- topic"@);
    assert(ends_with(l, "- topic"@));
    let head = l.take(l.len() - "- topic"@.len());
    assert(head =~= c.push(' '));
    assert(head.drop_last() =~= c);
    assert(crate::text::lead_count(head, CharClass::Whitespace) == 0);
    assert(head.skip(0) =~= head);
    assert(crate::text::trail_count(c, CharClass::Whitespace) == 0);
    assert(crate::text::trail_count(head, CharClass::Whitespace) == 1);
    assert(head.take(head.len() - 1) =~= c);
}

/// The separators after which a title's extra information begins.
pub const STUB_SEPARATOR_COUNT: usize = 9;

pub open spec fn stub_separator_spec(i: int) -> Seq<char> {
    if i == 0 {
        " - "@
    } else if i == 1 {
        " | "@
    } else if i == 2 {
        " ("@
    } else if i == 3 {
        " ["@
    } else if i == 4 {
        " ft "@
    } else if i == 5 {
        " ft."@
    } else if i == 6 {
        " feat "@
    } else if i == 7 {
        " feat."@
    } else {
        " featuring "@
    }
}

pub fn stub_separator(i: usize) -> (p: &'static str)
    ensures
        p@ == stub_separator_spec(i as int),
{
    if i == 0 {
        " - "
    } else if i == 1 {
        " | "
    } else if i == 2 {
        " ("
    } else if i == 3 {
        " ["
    } else if i == 4 {
        " ft "
    } else if i == 5 {
        " ft."
    } else if i == 6 {
        " feat "
    } else if i == 7 {
        " feat."
    } else {
        " featuring "
    }
}

/// Where the stub of `lower` ends after considering the first `k`
/// separators: the earliest of their first occurrences past position 0.
pub open spec fn stub_end(lower: Seq<char>, k: nat) -> int
    decreases k,
{
    if k == 0 {
        lower.len() as int
    } else {
        let e = stub_end(lower, (k - 1) as nat);
        match find_from(lower, stub_separator_spec(k - 1), 1) {
            Some(i) => if i < e {
                i
            } else {
                e
            },
            None => e,
        }
    }
}

pub open spec fn normalize_title_stub_spec(title: Seq<char>) -> Seq<char> {
    let lower = lowercase(title);
    collapse_ws(lower.take(stub_end(lower, STUB_SEPARATOR_COUNT as nat)))
}

pub proof fn lemma_stub_end_bounds(lower: Seq<char>, k: nat)
    ensures
        0 <= stub_end(lower, k) <= lower.len(),
    decreases k,
{
    if k > 0 {
        lemma_stub_end_bounds(lower, (k - 1) as nat);
        if find_from(lower, stub_separator_spec(k - 1), 1) is Some {
            crate::text::lemma_find_from_some(lower, stub_separator_spec(k - 1), 1);
        }
    }
}

/// Reduces a title to the part before its first separator (" - ", " (",
/// " feat." ...), lowercased, so that re-uploads compare equal.
pub fn normalize_title_stub(title: &str) -> (r: String)
    ensures
        r@ == normalize_title_stub_spec(title@),
{
    let t = chars_of(title);
    let lower = to_lowercase(&t);
    let mut end: usize = lower.len();
    let mut k: usize = 0;
    while k < STUB_SEPARATOR_COUNT
        invariant
            k <= STUB_SEPARATOR_COUNT,
            end as int == stub_end(lower@, k as nat),
            end <= lower@.len(),
        decreases STUB_SEPARATOR_COUNT - k,
    {
        let sep = chars_of(stub_separator(k));
        match find_from_exec(&lower, &sep, 1) {
            Some(i) => {
                if i < end {
                    end = i;
                }
            },
            None => {},
        }
        k += 1;
    }
    let head = slice_of(&lower, 0, end);
    assert(head@ =~= lower@.take(end as int));
    let c = collapse_whitespace(&head);
    string_from(&c)
}

// ── track identity ──────────────────────────────────────────────────────

/// The value of the first `v=` query pair.
pub open spec fn first_v(q: Seq<(Seq<char>, Seq<char>)>) -> Option<Seq<char>>
    decreases q.len(),
{
    if q.len() == 0 {
        None
    } else if q[0].0 == "v"@ {
        Some(q[0].1)
    } else {
        first_v(q.drop_first())
    }
}

/// The 11-character YouTube video id of a watch or youtu.be URL.
pub open spec fn extract_video_id_spec(uri: Seq<char>) -> Option<Seq<char>> {
    match url_parse(uri) {
        None => None,
        Some(p) => {
            let host = p.1;
            if ends_with(host, "youtube.com"@) {
                match first_v(p.3) {
                    Some(id) => if utf8_len(id) == 11 {
                        Some(id)
                    } else {
                        None
                    },
                    None => None,
                }
            } else if host == "youtu.be"@ {
                let id = trim_spec(p.2, CharClass::Slash);
                if utf8_len(id) == 11 {
                    Some(id)
                } else {
                    None
                }
            } else {
                None
            }
        },
    }
}

/// Extracts the 11-char YouTube videoId from a watch URL; `None` for
/// anything else (lazy `ytsearch1:` queries, SoundCloud or file URLs ...).
pub fn extract_video_id(uri: &str) -> (r: Option<String>)
    ensures
        r matches Some(s) ==> extract_video_id_spec(uri@) == Some(s@),
        r is None ==> extract_video_id_spec(uri@) is None,
{
    let parts = match parse_url(uri) {
        Some(p) => p,
        None => return None,
    };
    let host = chars_of(parts.host.as_str());
    if ends_with_exec(&host, "youtube.com") {
        let mut i: usize = 0;
        let ghost q = crate::web::query_view(parts.query@);
        assert(q.skip(0) =~= q);
        while i < parts.query.len()
            invariant
                i <= parts.query@.len(),
                url_parse(uri@) == Some(parts.parts()),
                ends_with(parts.host@, "youtube.com"@),
                q == crate::web::query_view(parts.query@),
                first_v(q) == first_v(q.skip(i as int)),
            decreases parts.query.len() - i,
        {
            let k = chars_of(parts.query[i].0.as_str());
            assert(q.skip(i as int)[0] == q[i as int]);
            assert(q.skip(i as int).drop_first() =~= q.skip(i + 1));
            if chars_eq_str(&k, "v") {
                let id = chars_of(parts.query[i].1.as_str());
                if utf8_len_is(&id, 11) {
                    return Some(string_from(&id));
                } else {
                    return None;
                }
            }
            i += 1;
        }
        return None;
    }
    if chars_eq_str(&host, "youtu.be") {
        let path = chars_of(parts.path.as_str());
        let id = trim_class(&path, CharClass::Slash);
        if utf8_len_is(&id, 11) {
            return Some(string_from(&id));
        }
        return None;
    }
    None
}

pub open spec fn track_key_spec(uri: Seq<char>) -> Seq<char> {
    match extract_video_id_spec(uri) {
        Some(id) => id,
        None => uri,
    }
}

/// Dedup key for a track: the videoId when it is YouTube, else the full URI.
pub fn track_key(uri: &str) -> (r: String)
    ensures
        r@ == track_key_spec(uri@),
{
    match extract_video_id(uri) {
        Some(id) => id,
        None => uri.to_owned(),
    }
}

} // verus!

verus! {

// ── file names ──────────────────────────────────────────────────────────

/// The part of `s` after its last `c` (`rsplit(c).next()`).
pub open spec fn last_segment(s: Seq<char>, c: char) -> Seq<char> {
    match last_index(s, c) {
        Some(i) => s.skip(i + 1),
        None => s,
    }
}

/// The part of `s` before its last `c`, or all of `s` (`rsplit_once`).
pub open spec fn before_last(s: Seq<char>, c: char) -> Seq<char> {
    match last_index(s, c) {
        Some(i) => s.take(i),
        None => s,
    }
}

pub open spec fn space_for_separators(s: Seq<char>) -> Seq<char> {
    s.map_values(|c: char| if c == '_' || c == '-' { ' ' } else { c })
}

pub open spec fn all_ascii_alnum(s: Seq<char>) -> bool {
    forall|i: int| 0 <= i < s.len() ==> is_ascii_alnum(#[trigger] s[i])
}

/// The readable name of the file a URL path points at: last segment,
/// extension dropped, `_` and `-` as spaces, trimmed. `None` when it is
/// empty or looks like a hash (20 or more ASCII letters and digits).
pub open spec fn pretty_file_name_spec(path: Seq<char>) -> Option<Seq<char>> {
    let raw = last_segment(path, '/');
    let pretty = trim_ws(space_for_separators(before_last(raw, '.')));
    if pretty.len() >= 20 && all_ascii_alnum(pretty) {
        None
    } else if pretty.len() == 0 {
        None
    } else {
        Some(pretty)
    }
}

pub open spec fn filename_from_url_spec(uri: Seq<char>) -> Option<Seq<char>> {
    if uri.len() == 0 {
        None
    } else {
        match url_parse(uri) {
            Some(p) => pretty_file_name_spec(p.2),
            None => None,
        }
    }
}

/// `last_segment` of a character vector.
pub fn last_segment_exec(s: &Vec<char>, c: char) -> (r: Vec<char>)
    ensures
        r@ == last_segment(s@, c),
{
    let n = s.len();
    match last_index_exec(s, c) {
        Some(i) => suffix_from(s, i + 1),
        None => {
            let r = slice_of(s, 0, s.len());
            assert(r@ =~= s@);
            r
        },
    }
}

/// The pretty file name of a URL path (see `pretty_file_name_spec`).
pub fn pretty_file_name(path: &str) -> (r: Option<String>)
    ensures
        r matches Some(s) ==> pretty_file_name_spec(path@) == Some(s@),
        r is None ==> pretty_file_name_spec(path@) is None,
{
    let p = chars_of(path);
    let raw = last_segment_exec(&p, '/');
    let no_ext = match last_index_exec(&raw, '.') {
        Some(i) => slice_of(&raw, 0, i),
        None => slice_of(&raw, 0, raw.len()),
    };
    assert(no_ext@ =~= before_last(raw@, '.'));
    let mut spaced: Vec<char> = Vec::new();
    let mut i: usize = 0;
    while i < no_ext.len()
        invariant
            i <= no_ext@.len(),
            spaced@ =~= space_for_separators(no_ext@.take(i as int)),
        decreases no_ext.len() - i,
    {
        let c = no_ext[i];
        spaced.push(if c == '_' || c == '-' { ' ' } else { c });
        i += 1;
        assert(no_ext@.take(i as int) =~= no_ext@.take(i - 1 as int).push(c));
    }
    assert(no_ext@.take(no_ext@.len() as int) =~= no_ext@);
    let pretty = trim_class(&spaced, CharClass::Whitespace);
    if pretty.len() >= 20 {
        let mut all = true;
        let mut j: usize = 0;
        while j < pretty.len()
            invariant
                j <= pretty@.len(),
                all == (forall|k: int| 0 <= k < j ==> is_ascii_alnum(#[trigger] pretty@[k])),
            decreases pretty.len() - j,
        {
            if !is_ascii_alnum_exec(pretty[j]) {
                all = false;
            }
            j += 1;
        }
        if all {
            return None;
        }
    }
    if pretty.len() == 0 {
        return None;
    }
    Some(string_from(&pretty))
}

/// A readable name for a file URL, or `None` for empty, unparsable or
/// hash-like names.
pub fn filename_from_url(uri: &str) -> (r: Option<String>)
    ensures
        r matches Some(s) ==> filename_from_url_spec(uri@) == Some(s@),
        r is None ==> filename_from_url_spec(uri@) is None,
{
    if uri.is_empty() {
        return None;
    }
    match parse_url(uri) {
        Some(p) => pretty_file_name(p.path.as_str()),
        None => None,
    }
}

// ── source classification ───────────────────────────────────────────────

pub open spec fn classify_host(host: Seq<char>) -> SourceTag {
    if host == "cdn.discordapp.com"@ || host == "media.discordapp.net"@ {
        SourceTag::Discord
    } else if ends_with(host, "youtube.com"@) || host == "youtu.be"@ {
        SourceTag::Youtube
    } else if crate::text::contains_seq(host, "soundcloud.com"@) {
        SourceTag::SoundCloud
    } else if crate::text::contains_seq(host, "spotify.com"@) {
        SourceTag::SpotifyMatched
    } else {
        SourceTag::File
    }
}

pub open spec fn classify_source_spec(uri: Seq<char>) -> SourceTag {
    match url_parse(uri) {
        Some(p) => classify_host(p.1),
        None => SourceTag::File,
    }
}

/// A URL is classified by its host: the two Discord CDN hosts are Discord
/// uploads, `*youtube.com` and `youtu.be` are YouTube, then any host
/// containing `soundcloud.com` is SoundCloud and any containing
/// `spotify.com` a Spotify match; every other URL, and any text that is not
/// a URL, is a plain file.
pub proof fn lemma_source_by_host(uri: Seq<char>)
    ensures
        url_parse(uri) is None ==> classify_source_spec(uri) == SourceTag::File,
        url_parse(uri) matches Some(p) ==> {
            let host = p.1;
            let discord = host == "cdn.discordapp.com"@ || host == "media.discordapp.net"@;
            let youtube = ends_with(host, "youtube.com"@) || host == "youtu.be"@;
            let soundcloud = crate::text::contains_seq(host, "soundcloud.com"@);
            let spotify = crate::text::contains_seq(host, "spotify.com"@);
            &&& discord ==> classify_source_spec(uri) == SourceTag::Discord
            &&& !discord && youtube ==> classify_source_spec(uri) == SourceTag::Youtube
            &&& !discord && !youtube && soundcloud ==> classify_source_spec(uri)
                == SourceTag::SoundCloud
            &&& !discord && !youtube && !soundcloud && spotify ==> classify_source_spec(uri)
                == SourceTag::SpotifyMatched
            &&& !discord && !youtube && !soundcloud && !spotify ==> classify_source_spec(uri)
                == SourceTag::File
        },
{
}

/// Which platform a URL belongs to, by its host.
pub fn classify_source(uri: &str) -> (t: SourceTag)
    ensures
        t == classify_source_spec(uri@),
{
    match parse_url(uri) {
        Some(p) => {
            let host = chars_of(p.host.as_str());
            if chars_eq_str(&host, "cdn.discordapp.com") || chars_eq_str(
                &host,
                "media.discordapp.net",
            ) {
                SourceTag::Discord
            } else if ends_with_exec(&host, "youtube.com") || chars_eq_str(&host, "youtu.be") {
                SourceTag::Youtube
            } else if crate::text::contains_exec(&host, "soundcloud.com") {
                SourceTag::SoundCloud
            } else if crate::text::contains_exec(&host, "spotify.com") {
                SourceTag::SpotifyMatched
            } else {
                SourceTag::File
            }
        },
        None => SourceTag::File,
    }
}

// ── time formatting ─────────────────────────────────────────────────────

/// "m:ss", or "h:mm:ss" from one hour on.
pub open spec fn fmt_sec_spec(s: nat) -> Seq<char> {
    let h = s / 3600;
    let m = (s % 3600) / 60;
    let sec = s % 60;
    if h > 0 {
        crate::text::decimal(h) + ":"@ + crate::text::pad2(m) + ":"@ + crate::text::pad2(sec)
    } else {
        crate::text::decimal(m) + ":"@ + crate::text::pad2(sec)
    }
}

/// Formats a number of seconds as "m:ss" or "h:mm:ss".
pub fn fmt_sec(s: u64) -> (r: String)
    ensures
        r@ == fmt_sec_spec(s as nat),
{
    let h = s / 3600;
    let m = (s % 3600) / 60;
    let sec = s % 60;
    let mut out: Vec<char> = Vec::new();
    if h > 0 {
        crate::text::push_decimal(&mut out, h);
        crate::text::push_str(&mut out, ":");
        crate::text::push_pad2(&mut out, m);
        crate::text::push_str(&mut out, ":");
        crate::text::push_pad2(&mut out, sec);
    } else {
        crate::text::push_decimal(&mut out, m);
        crate::text::push_str(&mut out, ":");
        crate::text::push_pad2(&mut out, sec);
    }
    assert(out@ =~= fmt_sec_spec(s as nat));
    string_from(&out)
}

} // verus!

verus! {

// ── autoplay ────────────────────────────────────────────────────────────

/// How many started tracks are remembered for repeat avoidance per guild.
pub const AUTOPLAY_HISTORY_CAP: usize = 100;

/// Autoplay never picks livestreams, unknown-length entries, or anything
/// longer than this many seconds.
pub const AUTOPLAY_MAX_SECS: u64 = 20 * 60;

/// How many mix entries to consider per trigger.
pub const AUTOPLAY_MIX_LIMIT: u32 = 25;

/// One remembered play: the exact key plus the fuzzy match surfaces.
#[derive(Clone, Debug)]
pub struct HistoryEntry {
    pub key: String,
    pub title_stub: String,
    pub author_norm: String,
}

impl HistoryEntry {
    pub fn new(uri: &str, title: &str, author: &str) -> (h: Self)
        ensures
            h.key@ == track_key_spec(uri@),
            h.title_stub@ == normalize_title_stub_spec(title@),
            h.author_norm@ == normalize_author_spec(author@),
    {
        HistoryEntry {
            key: track_key(uri),
            title_stub: normalize_title_stub(title),
            author_norm: normalize_author(author),
        }
    }
}

/// A single YouTube-Mix entry, already resolved to playable metadata.
#[derive(Clone, Debug)]
pub struct MixCandidate {
    pub video_id: String,
    pub webpage_url: String,
    pub title: String,
    pub author: String,
    pub duration_secs: Option<u64>,
    pub thumbnail: String,
    pub is_live: bool,
}

pub open spec fn key_seen(k: Seq<char>, h: Seq<HistoryEntry>, q: Seq<HistoryEntry>) -> bool {
    (exists|i: int| 0 <= i < h.len() && (#[trigger] h[i]).key@ == k) || (exists|i: int|
        0 <= i < q.len() && (#[trigger] q[i]).key@ == k)
}

pub open spec fn stub_seen(s: Seq<char>, h: Seq<HistoryEntry>, q: Seq<HistoryEntry>) -> bool {
    s.len() > 0 && ((exists|i: int| 0 <= i < h.len() && (#[trigger] h[i]).title_stub@ == s) || (
    exists|i: int| 0 <= i < q.len() && (#[trigger] q[i]).title_stub@ == s))
}

/// Every autoplay filter: not the seed, a non-blank title, not live, a
/// known length of at most `AUTOPLAY_MAX_SECS`, not by the seed's artist,
/// not already played or queued, and not a re-upload of a played or
/// queued title.
pub open spec fn passes_autoplay(
    c: MixCandidate,
    seed_video_id: Seq<char>,
    seed_author_norm: Seq<char>,
    history: Seq<HistoryEntry>,
    queued: Seq<HistoryEntry>,
) -> bool {
    &&& !(c.video_id@.len() == 0 || c.video_id@ == seed_video_id)
    &&& trim_ws(c.title@).len() != 0
    &&& !c.is_live
    &&& (c.duration_secs matches Some(d) && d > 0 && d <= AUTOPLAY_MAX_SECS)
    &&& !(seed_author_norm.len() != 0 && normalize_author_spec(c.author@) == seed_author_norm)
    &&& !key_seen(track_key_spec(c.webpage_url@), history, queued)
    &&& !stub_seen(normalize_title_stub_spec(c.title@), history, queued)
}

/// An accepted autoplay candidate is not the seed, has a title, is not
/// live, lasts between one second and the autoplay limit, is not by the
/// seed's artist, is not a video already played or queued (by track key)
/// and is not a re-upload of a played or queued title (by title stub).
pub proof fn lemma_autoplay_accepts_only_fresh(
    c: MixCandidate,
    seed_video_id: Seq<char>,
    seed_author_norm: Seq<char>,
    history: Seq<HistoryEntry>,
    queued: Seq<HistoryEntry>,
)
    requires
        passes_autoplay(c, seed_video_id, seed_author_norm, history, queued),
    ensures
        c.video_id@.len() > 0 && c.video_id@ != seed_video_id,
        trim_ws(c.title@).len() > 0,
        !c.is_live,
        c.duration_secs matches Some(d) && 0 < d <= AUTOPLAY_MAX_SECS,
        seed_author_norm.len() > 0 ==> normalize_author_spec(c.author@) != seed_author_norm,
        forall|j: int| 0 <= j < history.len() ==> (#[trigger] history[j]).key@ != track_key_spec(
            c.webpage_url@,
        ),
        forall|j: int| 0 <= j < queued.len() ==> (#[trigger] queued[j]).key@ != track_key_spec(
            c.webpage_url@,
        ),
        normalize_title_stub_spec(c.title@).len() > 0 ==> forall|j: int|
            0 <= j < history.len() ==> (#[trigger] history[j]).title_stub@
                != normalize_title_stub_spec(c.title@),
        normalize_title_stub_spec(c.title@).len() > 0 ==> forall|j: int|
            0 <= j < queued.len() ==> (#[trigger] queued[j]).title_stub@
                != normalize_title_stub_spec(c.title@),
{
}

fn key_in_history(k: &String, h: &std::collections::VecDeque<HistoryEntry>) -> (b: bool)
    ensures
        b == (exists|i: int| 0 <= i < h@.len() && (#[trigger] h@[i]).key@ == k@),
{
    let mut i: usize = 0;
    while i < h.len()
        invariant
            i <= h@.len(),
            forall|j: int| 0 <= j < i ==> (#[trigger] h@[j]).key@ != k@,
        decreases h.len() - i,
    {
        if h[i].key == *k {
            return true;
        }
        i += 1;
    }
    false
}

fn key_in_queued(k: &String, q: &[HistoryEntry]) -> (b: bool)
    ensures
        b == (exists|i: int| 0 <= i < q@.len() && (#[trigger] q@[i]).key@ == k@),
{
    let mut i: usize = 0;
    while i < q.len()
        invariant
            i <= q@.len(),
            forall|j: int| 0 <= j < i ==> (#[trigger] q@[j]).key@ != k@,
        decreases q.len() - i,
    {
        if q[i].key == *k {
            return true;
        }
        i += 1;
    }
    false
}

fn stub_in_history(s: &String, h: &std::collections::VecDeque<HistoryEntry>) -> (b: bool)
    ensures
        b == (exists|i: int| 0 <= i < h@.len() && (#[trigger] h@[i]).title_stub@ == s@),
{
    let mut i: usize = 0;
    while i < h.len()
        invariant
            i <= h@.len(),
            forall|j: int| 0 <= j < i ==> (#[trigger] h@[j]).title_stub@ != s@,
        decreases h.len() - i,
    {
        if h[i].title_stub == *s {
            return true;
        }
        i += 1;
    }
    false
}

fn stub_in_queued(s: &String, q: &[HistoryEntry]) -> (b: bool)
    ensures
        b == (exists|i: int| 0 <= i < q@.len() && (#[trigger] q@[i]).title_stub@ == s@),
{
    let mut i: usize = 0;
    while i < q.len()
        invariant
            i <= q@.len(),
            forall|j: int| 0 <= j < i ==> (#[trigger] q@[j]).title_stub@ != s@,
        decreases q.len() - i,
    {
        if q[i].title_stub == *s {
            return true;
        }
        i += 1;
    }
    false
}

/// Whether one mix entry survives every autoplay filter.
pub fn autoplay_accepts(
    c: &MixCandidate,
    seed_video_id: &str,
    seed_author_norm: &str,
    history: &std::collections::VecDeque<HistoryEntry>,
    queued: &[HistoryEntry],
) -> (b: bool)
    ensures
        b == passes_autoplay(*c, seed_video_id@, seed_author_norm@, history@, queued@),
{
    let vid = chars_of(c.video_id.as_str());
    let seed = chars_of(seed_video_id);
    if vid.len() == 0 || chars_eq(&vid, &seed) {
        return false;
    }
    let title = chars_of(c.title.as_str());
    let trimmed = trim_class(&title, CharClass::Whitespace);
    if trimmed.len() == 0 {
        return false;
    }
    if c.is_live {
        return false;
    }
    match c.duration_secs {
        Some(d) => {
            if !(d > 0 && d <= AUTOPLAY_MAX_SECS) {
                return false;
            }
        },
        None => {
            return false;
        },
    }
    if !seed_author_norm.is_empty() {
        let a = normalize_author(c.author.as_str());
        let av = chars_of(a.as_str());
        let sv = chars_of(seed_author_norm);
        if chars_eq(&av, &sv) {
            return false;
        }
    }
    let key = track_key(c.webpage_url.as_str());
    if key_in_history(&key, history) || key_in_queued(&key, queued) {
        return false;
    }
    let stub = normalize_title_stub(c.title.as_str());
    if !stub.as_str().is_empty() && (stub_in_history(&stub, history) || stub_in_queued(&stub, queued)) {
        return false;
    }
    true
}

/// Picks the first mix entry that survives every autoplay filter; the
/// index into `candidates`, or `None` when every entry is filtered out.
pub fn autoplay_pick(
    candidates: &[MixCandidate],
    seed_video_id: &str,
    seed_author_norm: &str,
    history: &std::collections::VecDeque<HistoryEntry>,
    queued: &[HistoryEntry],
) -> (r: Option<usize>)
    ensures
        r matches Some(i) ==> {
            &&& i < candidates@.len()
            &&& passes_autoplay(
                candidates@[i as int],
                seed_video_id@,
                seed_author_norm@,
                history@,
                queued@,
            )
            &&& forall|j: int|
                0 <= j < i ==> !passes_autoplay(
                    #[trigger] candidates@[j],
                    seed_video_id@,
                    seed_author_norm@,
                    history@,
                    queued@,
                )
        },
        r is None ==> forall|j: int|
            0 <= j < candidates@.len() ==> !passes_autoplay(
                #[trigger] candidates@[j],
                seed_video_id@,
                seed_author_norm@,
                history@,
                queued@,
            ),
{
    let mut i: usize = 0;
    while i < candidates.len()
        invariant
            i <= candidates@.len(),
            forall|j: int|
                0 <= j < i ==> !passes_autoplay(
                    #[trigger] candidates@[j],
                    seed_video_id@,
                    seed_author_norm@,
                    history@,
                    queued@,
                ),
        decreases candidates.len() - i,
    {
        if autoplay_accepts(&candidates[i], seed_video_id, seed_author_norm, history, queued) {
            return Some(i);
        }
        i += 1;
    }
    None
}

} // verus!

verus! {

// ── tracks ──────────────────────────────────────────────────────────────

/// A queued or playing track.
#[derive(Clone, Debug)]
pub struct Track {
    pub uri: String,
    pub duration_secs: Option<u64>,
    pub requester: String,
    pub thumbnail: String,
    pub source: SourceTag,
    pub title: String,
    pub author: String,
    pub is_live: bool,
    pub ui_link: Option<String>,
}

/// What a resolver found for a query.
#[derive(Debug, Clone)]
pub struct ResolvedInfo {
    pub webpage_url: String,
    pub title: String,
    pub author: String,
    pub duration_secs: Option<u64>,
    pub thumbnail: String,
    pub is_live: bool,
    pub is_spotify_match: bool,
    pub ui_link: Option<String>,
}

/// The metadata a stream probe reports (songbird's `AuxMetadata`, as plain
/// values; the duration in whole seconds).
#[derive(Debug, Clone, Default)]
pub struct AuxMeta {
    pub title: Option<String>,
    pub artist: Option<String>,
    pub channel: Option<String>,
    pub source_url: Option<String>,
    pub duration_secs: Option<u64>,
    pub thumbnail: Option<String>,
}

pub open spec fn opt_view(o: Option<String>) -> Option<Seq<char>> {
    match o {
        Some(s) => Some(s@),
        None => None,
    }
}

pub open spec fn is_file_like(t: SourceTag) -> bool {
    t == SourceTag::Discord || t == SourceTag::File
}

pub open spec fn resolved_source(info: ResolvedInfo) -> SourceTag {
    if info.is_spotify_match {
        SourceTag::SpotifyMatched
    } else {
        classify_source_spec(info.webpage_url@)
    }
}

/// A resolved track's source: a Spotify match stays one; otherwise its URL
/// decides. Only file uploads (Discord or plain files) get `File Upload`
/// for an `Unknown` author; every streamed source keeps the resolver's
/// author and gets its title cleaned.
pub proof fn lemma_resolved_entry(info: ResolvedInfo)
    ensures
        info.is_spotify_match ==> resolved_source(info) == SourceTag::SpotifyMatched,
        !info.is_spotify_match ==> resolved_source(info) == classify_source_spec(info.webpage_url@),
        (resolved_source(info) == SourceTag::Youtube || resolved_source(info) == SourceTag::SoundCloud
            || resolved_source(info) == SourceTag::SpotifyMatched) ==> resolved_author(info)
            == info.author@ && resolved_title(info) == clean_title_spec(info.title@),
        (resolved_source(info) == SourceTag::Discord || resolved_source(info) == SourceTag::File)
            && info.author@ == "Unknown"@ ==> resolved_author(info) == "File Upload"@,
{
}

/// The title a resolved track gets: for files, the URL's file name when the
/// resolver gave no title; otherwise the cleaned title.
pub open spec fn resolved_title(info: ResolvedInfo) -> Seq<char> {
    if is_file_like(resolved_source(info)) && info.title@.len() == 0 && filename_from_url_spec(
        info.webpage_url@,
    ) is Some {
        filename_from_url_spec(info.webpage_url@)->0
    } else {
        clean_title_spec(info.title@)
    }
}

pub open spec fn resolved_author(info: ResolvedInfo) -> Seq<char> {
    if is_file_like(resolved_source(info)) && info.author@ == "Unknown"@ {
        "File Upload"@
    } else {
        info.author@
    }
}

/// An unparsable or hash-like raw title (20+ characters of ASCII letters,
/// digits, `_`, `-` and `.`).
pub open spec fn looks_hashy(raw: Seq<char>) -> bool {
    raw.len() >= 20 && forall|i: int|
        0 <= i < raw.len() ==> (is_ascii_alnum(#[trigger] raw[i]) || raw[i] == '_' || raw[i]
            == '-' || raw[i] == '.')
}

pub open spec fn aux_uri(m: AuxMeta) -> Seq<char> {
    match m.source_url {
        Some(u) => u@,
        None => Seq::empty(),
    }
}

pub open spec fn aux_raw_title(m: AuxMeta) -> Seq<char> {
    match m.title {
        Some(t) => t@,
        None => Seq::empty(),
    }
}

/// The title of a probed file: its URL's file name, else a usable raw
/// title (cleaned), else the URL's last path segment, else "Unknown File".
pub open spec fn aux_file_title(m: AuxMeta) -> Seq<char> {
    let uri = aux_uri(m);
    let raw = aux_raw_title(m);
    match filename_from_url_spec(uri) {
        Some(f) => f,
        None => if raw.len() != 0 && !looks_hashy(raw) && raw != uri {
            clean_title_spec(raw)
        } else {
            match url_parse(uri) {
                Some(p) => if last_segment(p.2, '/').len() != 0 {
                    last_segment(p.2, '/')
                } else {
                    "Unknown File"@
                },
                None => "Unknown File"@,
            }
        },
    }
}

pub open spec fn aux_title(m: AuxMeta) -> Seq<char> {
    if is_file_like(classify_source_spec(aux_uri(m))) {
        aux_file_title(m)
    } else {
        let raw = aux_raw_title(m);
        clean_title_spec(
            if raw.len() == 0 {
                "Unknown"@
            } else {
                raw
            },
        )
    }
}

pub open spec fn aux_author(m: AuxMeta) -> Seq<char> {
    if is_file_like(classify_source_spec(aux_uri(m))) {
        match m.artist {
            Some(a) => if a@ != "Unknown"@ && a@.len() != 0 {
                a@
            } else {
                "File Upload"@
            },
            None => "File Upload"@,
        }
    } else {
        match m.channel {
            Some(c) => c@,
            None => match m.artist {
                Some(a) => a@,
                None => "Unknown"@,
            },
        }
    }
}

pub open spec fn uri_safe_spec(uri: Seq<char>) -> Seq<char> {
    if uri.len() == 0 {
        "https://discord.gg"@
    } else {
        uri
    }
}

pub open spec fn duration_display_spec(duration: Option<u64>, is_live: bool) -> Seq<char> {
    match duration {
        Some(s) => if !is_live {
            fmt_sec_spec(s as nat)
        } else {
            "Live / Unknown"@
        },
        None => "Live / Unknown"@,
    }
}

fn clone_opt_string(o: &Option<String>) -> (r: Option<String>)
    ensures
        r == *o,
{
    match o {
        Some(s) => Some(s.clone()),
        None => None,
    }
}

fn string_of_opt(o: &Option<String>) -> (r: String)
    ensures
        r@ == (match *o {
            Some(s) => s@,
            None => Seq::<char>::empty(),
        }),
{
    match o {
        Some(s) => s.clone(),
        None => String::new(),
    }
}

fn looks_hashy_exec(raw: &Vec<char>) -> (b: bool)
    ensures
        b == looks_hashy(raw@),
{
    if raw.len() < 20 {
        return false;
    }
    let mut i: usize = 0;
    while i < raw.len()
        invariant
            i <= raw@.len(),
            forall|j: int|
                0 <= j < i ==> (is_ascii_alnum(#[trigger] raw@[j]) || raw@[j] == '_' || raw@[j]
                    == '-' || raw@[j] == '.'),
        decreases raw.len() - i,
    {
        let c = raw[i];
        if !(is_ascii_alnum_exec(c) || c == '_' || c == '-' || c == '.') {
            return false;
        }
        i += 1;
    }
    true
}

impl Track {
    /// A field-for-field copy.
    pub fn duplicate(&self) -> (t: Track)
        ensures
            t == *self,
    {
        Track {
            uri: self.uri.clone(),
            duration_secs: self.duration_secs,
            requester: self.requester.clone(),
            thumbnail: self.thumbnail.clone(),
            source: self.source,
            title: self.title.clone(),
            author: self.author.clone(),
            is_live: self.is_live,
            ui_link: clone_opt_string(&self.ui_link),
        }
    }

    /// `t` is the queue entry `from_resolved` builds for `info` and
    /// `requester`.
    pub open spec fn is_resolved_entry(t: Track, info: ResolvedInfo, requester: Seq<char>) -> bool {
        &&& t.uri == info.webpage_url
        &&& t.duration_secs == info.duration_secs
        &&& t.requester@ == requester
        &&& t.thumbnail == info.thumbnail
        &&& t.source == resolved_source(info)
        &&& t.title@ == resolved_title(info)
        &&& t.author@ == resolved_author(info)
        &&& t.is_live == info.is_live
        &&& t.ui_link == info.ui_link
    }

    /// Builds the queue entry for a resolved query.
    pub fn from_resolved(info: ResolvedInfo, requester: &str) -> (t: Self)
        ensures
            t.uri == info.webpage_url,
            t.duration_secs == info.duration_secs,
            t.requester@ == requester@,
            t.thumbnail == info.thumbnail,
            t.source == resolved_source(info),
            t.title@ == resolved_title(info),
            t.author@ == resolved_author(info),
            t.is_live == info.is_live,
            t.ui_link == info.ui_link,
    {
        let source = if info.is_spotify_match {
            SourceTag::SpotifyMatched
        } else {
            classify_source(info.webpage_url.as_str())
        };
        let file_like = match source {
            SourceTag::Discord | SourceTag::File => true,
            _ => false,
        };
        let title = if file_like && info.title.as_str().is_empty() {
            match filename_from_url(info.webpage_url.as_str()) {
                Some(f) => f,
                None => clean_title(info.title.as_str()),
            }
        } else {
            clean_title(info.title.as_str())
        };
        let author = if file_like && chars_eq_str(&chars_of(info.author.as_str()), "Unknown") {
            "File Upload".to_owned()
        } else {
            info.author
        };
        Track {
            uri: info.webpage_url,
            duration_secs: info.duration_secs,
            requester: requester.to_owned(),
            thumbnail: info.thumbnail,
            source,
            title,
            author,
            is_live: info.is_live,
            ui_link: info.ui_link,
        }
    }

    /// Builds a track from the metadata a stream probe reported.
    pub fn from_aux(meta: &AuxMeta, requester: &str) -> (t: Self)
        ensures
            t.uri@ == aux_uri(*meta),
            t.duration_secs == meta.duration_secs,
            t.requester@ == requester@,
            t.thumbnail@ == (match meta.thumbnail {
                Some(th) => th@,
                None => Seq::<char>::empty(),
            }),
            t.source == classify_source_spec(aux_uri(*meta)),
            t.title@ == aux_title(*meta),
            t.author@ == aux_author(*meta),
            t.is_live == (meta.duration_secs is None),
            t.ui_link is None,
    {
        let uri = string_of_opt(&meta.source_url);
        let source = classify_source(uri.as_str());
        let raw_title = string_of_opt(&meta.title);
        let file_like = match source {
            SourceTag::Discord | SourceTag::File => true,
            _ => false,
        };
        let title: String;
        let author: String;
        if file_like {
            title = match filename_from_url(uri.as_str()) {
                Some(f) => f,
                None => {
                    let raw = chars_of(raw_title.as_str());
                    if !raw_title.as_str().is_empty() && !looks_hashy_exec(&raw) && !(raw_title
                        == uri) {
                        clean_title(raw_title.as_str())
                    } else {
                        match parse_url(uri.as_str()) {
                            Some(p) => {
                                let path = chars_of(p.path.as_str());
                                let seg = last_segment_exec(&path, '/');
                                if seg.len() != 0 {
                                    string_from(&seg)
                                } else {
                                    "Unknown File".to_owned()
                                }
                            },
                            None => "Unknown File".to_owned(),
                        }
                    }
                },
            };
            author = match &meta.artist {
                Some(a) => {
                    if !chars_eq_str(&chars_of(a.as_str()), "Unknown") && !a.as_str().is_empty() {
                        a.clone()
                    } else {
                        "File Upload".to_owned()
                    }
                },
                None => "File Upload".to_owned(),
            };
        } else {
            title = if raw_title.as_str().is_empty() {
                clean_title("Unknown")
            } else {
                clean_title(raw_title.as_str())
            };
            author = match &meta.channel {
                Some(c) => c.clone(),
                None => match &meta.artist {
                    Some(a) => a.clone(),
                    None => "Unknown".to_owned(),
                },
            };
        }
        Track {
            uri,
            duration_secs: meta.duration_secs,
            requester: requester.to_owned(),
            thumbnail: string_of_opt(&meta.thumbnail),
            source,
            title,
            author,
            is_live: meta.duration_secs.is_none(),
            ui_link: None,
        }
    }

    /// The track's URI, or a placeholder link when it has none.
    pub fn uri_safe(&self) -> (s: String)
        ensures
            s@ == uri_safe_spec(self.uri@),
    {
        if self.uri.as_str().is_empty() {
            "https://discord.gg".to_owned()
        } else {
            self.uri.clone()
        }
    }

    /// The link shown in messages: the UI link when there is one.
    pub fn link_for_ui(&self) -> (s: String)
        ensures
            s@ == (match self.ui_link {
                Some(l) => l@,
                None => uri_safe_spec(self.uri@),
            }),
    {
        match &self.ui_link {
            Some(l) => l.clone(),
            None => self.uri_safe(),
        }
    }

    /// "m:ss" / "h:mm:ss", or "Live / Unknown".
    pub fn duration_display(&self) -> (s: String)
        ensures
            s@ == duration_display_spec(self.duration_secs, self.is_live),
    {
        match self.duration_secs {
            Some(s) => {
                if !self.is_live {
                    fmt_sec(s)
                } else {
                    "Live / Unknown".to_owned()
                }
            },
            None => "Live / Unknown".to_owned(),
        }
    }
}

} // verus!

verus! {

// ── per-guild player state ──────────────────────────────────────────────

/// How long (milliseconds) a command-set intentional-stop flag stays
/// believable; a track end after that is treated as natural.
pub const STOP_FLAG_TTL_MS: u64 = 10_000;

/// The player state of one guild. Times are milliseconds on a monotonic
/// clock that the caller supplies.
#[derive(Debug)]
pub struct GuildState {
    pub queue: std::collections::VecDeque<Track>,
    pub current: Option<Track>,
    pub previous: Option<Track>,
    pub loop_mode: LoopMode,
    pub volume: u16,
    /// (channel id, message id) of the live Now Playing card.
    pub np_message: Option<(u64, u64)>,
    pub home_channel: Option<u64>,
    pub voice_channel_id: Option<u64>,
    pub playing: bool,
    pub paused: bool,
    /// True while a command-driven stop waits for the track end it caused.
    pub stop_intentional: bool,
    /// When that stop was requested.
    pub stop_flag_at: Option<u64>,
    pub error_streak: u32,
    pub recovering: bool,
    /// Open-circuit deadline after a systemic stop.
    pub cooldown_until: Option<u64>,
    /// Last time the 24/7 watchdog rejoined after an unexpected drop.
    pub stay_last_rejoin: Option<u64>,
    /// Recently started tracks, oldest first.
    pub autoplay_history: std::collections::VecDeque<HistoryEntry>,
    /// True when the current track plays from an in-memory Opus cache.
    pub current_is_cached: bool,
}

/// What the player should do after the state advanced to the next track.
#[derive(Debug)]
pub enum Advance {
    /// Start this track.
    Play(Track),
    /// The queue is exhausted; `had_activity` says whether something had
    /// just been playing (and the conclusion deserves an announcement).
    Concluded { had_activity: bool },
}

/// Why a queue edit was refused.
#[derive(Clone, Copy, Debug, PartialEq, Eq, Structural)]
pub enum QueueError {
    InvalidPosition,
    EmptyQueue,
}

impl GuildState {
    /// The state of a guild that was never touched, at `volume`.
    pub open spec fn is_fresh(&self, volume: u16) -> bool {
        &&& self.queue@.len() == 0
        &&& self.current is None
        &&& self.previous is None
        &&& self.loop_mode == LoopMode::Off
        &&& self.volume == volume
        &&& self.np_message is None
        &&& self.home_channel is None
        &&& self.voice_channel_id is None
        &&& !self.playing
        &&& !self.paused
        &&& !self.stop_intentional
        &&& self.stop_flag_at is None
        &&& self.error_streak == 0
        &&& !self.recovering
        &&& self.cooldown_until is None
        &&& self.stay_last_rejoin is None
        &&& self.autoplay_history@.len() == 0
        &&& !self.current_is_cached
    }

    pub fn with_default_volume(volume: u16) -> (st: Self)
        ensures
            st.is_fresh(volume),
    {
        GuildState {
            queue: std::collections::VecDeque::new(),
            current: None,
            previous: None,
            loop_mode: LoopMode::Off,
            volume,
            np_message: None,
            home_channel: None,
            voice_channel_id: None,
            playing: false,
            paused: false,
            stop_intentional: false,
            stop_flag_at: None,
            error_streak: 0,
            recovering: false,
            cooldown_until: None,
            stay_last_rejoin: None,
            autoplay_history: std::collections::VecDeque::new(),
            current_is_cached: false,
        }
    }

    /// Marks the next track end as caused by a command.
    pub fn request_stop(&mut self, now: u64)
        ensures
            *final(self) == (GuildState {
                stop_intentional: true,
                stop_flag_at: Some(now),
                ..*old(self)
            }),
    {
        self.stop_intentional = true;
        self.stop_flag_at = Some(now);
    }

    pub open spec fn fresh_stop_spec(&self, now: u64) -> bool {
        self.stop_intentional && (self.stop_flag_at matches Some(t) && (if now >= t {
            now - t
        } else {
            0
        }) < STOP_FLAG_TTL_MS)
    }

    /// Consumes the intentional-stop flag; false when it is absent or too
    /// old to trust (the end is then natural).
    pub fn take_fresh_stop(&mut self, now: u64) -> (b: bool)
        ensures
            b == old(self).fresh_stop_spec(now),
            *final(self) == (if old(self).stop_intentional {
                GuildState { stop_intentional: false, stop_flag_at: None, ..*old(self) }
            } else {
                *old(self)
            }),
    {
        if !self.stop_intentional {
            return false;
        }
        self.stop_intentional = false;
        match self.stop_flag_at.take() {
            Some(t) => now.saturating_sub(t) < STOP_FLAG_TTL_MS,
            None => false,
        }
    }

    /// True while a systemic stop is cooling down.
    pub fn circuit_open(&self, now: u64) -> (b: bool)
        ensures
            b == (self.cooldown_until matches Some(t) && now < t),
    {
        match self.cooldown_until {
            Some(t) => now < t,
            None => false,
        }
    }

    /// The user did something explicit: let events flow again.
    pub fn break_circuit(&mut self)
        ensures
            *final(self) == (GuildState { cooldown_until: None, ..*old(self) }),
    {
        self.cooldown_until = None;
    }
}

impl Default for GuildState {
    fn default() -> (st: Self)
        ensures
            st.is_fresh(100),
    {
        GuildState::with_default_volume(100)
    }
}

/// A command-set stop is honoured exactly once: the first track end within
/// the time-to-live is the command's, the next one is natural.
pub proof fn lemma_stop_flag_consumed_once(st: GuildState, now: u64, t: u64)
    requires
        st.stop_intentional,
        st.stop_flag_at == Some(now),
        now <= t,
        t - now < STOP_FLAG_TTL_MS,
    ensures
        st.fresh_stop_spec(t),
        !(GuildState { stop_intentional: false, stop_flag_at: None, ..st }).fresh_stop_spec(t),
{
}

/// A stop flag older than the time-to-live never swallows a natural end.
pub proof fn lemma_stale_stop_flag_ignored(st: GuildState, t: u64)
    requires
        st.stop_flag_at matches Some(at) && at <= t && t - at >= STOP_FLAG_TTL_MS,
    ensures
        !st.fresh_stop_spec(t),
{
}

} // verus!

verus! {

/// The queue after the finished track went back according to the loop
/// mode: to the front (single track), to the back (whole queue), or away.
pub open spec fn requeued(queue: Seq<Track>, current: Option<Track>, mode: LoopMode) -> Seq<Track> {
    match current {
        Some(c) => match mode {
            LoopMode::Track => seq![c] + queue,
            LoopMode::Queue => queue.push(c),
            LoopMode::Off => queue,
        },
        None => queue,
    }
}

impl GuildState {
    /// Moves on to the next track: re-queues the finished one as the loop
    /// mode says and takes the head of the queue. When the queue is empty the
    /// player goes idle and the loop mode resets.
    pub fn advance(&mut self) -> (r: Advance)
        ensures
            ({
                let q = requeued(old(self).queue@, old(self).current, old(self).loop_mode);
                if q.len() == 0 {
                    &&& r == Advance::Concluded {
                        had_activity: old(self).playing || old(self).previous is Some,
                    }
                    &&& *final(self) == (GuildState {
                        queue: final(self).queue,
                        current: None,
                        previous: None,
                        playing: false,
                        loop_mode: LoopMode::Off,
                        current_is_cached: false,
                        ..*old(self)
                    })
                    &&& final(self).queue@.len() == 0
                } else {
                    &&& r == Advance::Play(q[0])
                    &&& *final(self) == (GuildState {
                        queue: final(self).queue,
                        current: Some(q[0]),
                        previous: None,
                        playing: true,
                        paused: false,
                        ..*old(self)
                    })
                    &&& final(self).queue@ == q.drop_first()
                }
            }),
    {
        if let Some(cur) = self.current.take() {
            match self.loop_mode {
                LoopMode::Track => self.queue.push_front(cur),
                LoopMode::Queue => self.queue.push_back(cur),
                LoopMode::Off => {},
            }
        }
        match self.queue.pop_front() {
            None => {
                let had_activity = self.playing || self.current.is_some() || self.previous.is_some();
                self.previous = None;
                self.playing = false;
                self.loop_mode = LoopMode::Off;
                self.current_is_cached = false;
                Advance::Concluded { had_activity }
            },
            Some(track) => {
                self.previous = None;
                let t = track.duplicate();
                self.current = Some(track);
                self.playing = true;
                self.paused = false;
                Advance::Play(t)
            },
        }
    }
}

} // verus!

verus! {

/// With single-track loop, the finished track is the next one and the rest
/// of the queue is untouched.
pub proof fn lemma_loop_track_replays(queue: Seq<Track>, c: Track)
    ensures
        requeued(queue, Some(c), LoopMode::Track).len() > 0,
        requeued(queue, Some(c), LoopMode::Track)[0] == c,
        requeued(queue, Some(c), LoopMode::Track).drop_first() == queue,
{
    assert((seq![c] + queue).drop_first() =~= queue);
}

/// With whole-queue loop no track is lost: the finished track goes to the
/// back, and the queue keeps every track it had.
pub proof fn lemma_loop_queue_keeps_all(queue: Seq<Track>, c: Track)
    ensures
        requeued(queue, Some(c), LoopMode::Queue) == queue.push(c),
        requeued(queue, Some(c), LoopMode::Queue).to_multiset() == queue.to_multiset().insert(c),
        queue.len() > 0 ==> requeued(queue, Some(c), LoopMode::Queue)[0] == queue[0],
{
    vstd::seq_lib::lemma_multiset_commutative(queue, seq![c]);
    assert(queue.push(c) =~= queue + seq![c]);
    assert(seq![c].to_multiset() =~= vstd::multiset::Multiset::<Track>::empty().insert(c)) by {
        broadcast use vstd::seq_lib::group_to_multiset_ensures;
        assert(seq![c] =~= Seq::<Track>::empty().push(c));
    }
}

/// With loop off, the finished track is dropped.
pub proof fn lemma_loop_off_consumes(queue: Seq<Track>, c: Track)
    ensures
        requeued(queue, Some(c), LoopMode::Off) == queue,
{
}

/// What a track error asks the player to do.
#[derive(Debug, Clone, Copy, PartialEq, Eq, Structural)]
pub enum ErrorAction {
    /// The error ended a command-driven stop: nothing to do.
    Ignore,
    /// Too many failures in a row: playback stopped and the queue cleared.
    StopAll,
    /// Rejoin this voice channel and retry the failed track.
    Recover { voice_channel: u64 },
    /// Skip to the next track; `streak` errors in a row so far.
    Skip { streak: u32 },
}

impl GuildState {
    /// Bookkeeping once a track started streaming.
    pub fn started(&mut self)
        ensures
            *final(self) == (GuildState {
                error_streak: 0,
                recovering: false,
                current_is_cached: false,
                ..*old(self)
            }),
    {
        self.error_streak = 0;
        self.recovering = false;
        self.current_is_cached = false;
    }

    /// The current track now plays from the exact watch URL `url` (a
    /// Spotify match upgraded from a lazy search query).
    pub fn upgrade_current_uri(&mut self, url: &str)
        ensures
            match old(self).current {
                Some(c) => final(self).current matches Some(n) && n.uri@ == url@ && n.ui_link
                    == (match c.ui_link {
                    Some(l) => Some(l),
                    None => Some(n.uri),
                }) && n == (Track { uri: n.uri, ui_link: n.ui_link, ..c }),
                None => final(self).current is None,
            },
            *final(self) == (GuildState { current: final(self).current, ..*old(self) }),
    {
        match self.current.take() {
            Some(c) => {
                let mut n = c;
                n.uri = url.to_owned();
                if n.ui_link.is_none() {
                    n.ui_link = Some(n.uri.clone());
                }
                self.current = Some(n);
            },
            None => {},
        }
    }

    /// Refreshes the current track from what the stream probe reported:
    /// title (cleaned), a real author, the duration (then not live) and a
    /// thumbnail.
    pub fn apply_probe(&mut self, aux: &AuxMeta)
        ensures
            *final(self) == (GuildState { current: final(self).current, ..*old(self) }),
            match old(self).current {
                Some(c) => final(self).current matches Some(n) && n == (Track {
                    title: n.title,
                    author: n.author,
                    duration_secs: n.duration_secs,
                    is_live: n.is_live,
                    thumbnail: n.thumbnail,
                    ..c
                }) && n.title@ == (match aux.title {
                    Some(t) => clean_title_spec(t@),
                    None => c.title@,
                }) && n.author@ == (match probe_author(*aux) {
                    Some(a) => a,
                    None => c.author@,
                }) && n.duration_secs == (match aux.duration_secs {
                    Some(d) => Some(d),
                    None => c.duration_secs,
                }) && n.is_live == (aux.duration_secs is None && c.is_live) && n.thumbnail@ == (
                match aux.thumbnail {
                    Some(th) => if th@.len() != 0 {
                        th@
                    } else {
                        c.thumbnail@
                    },
                    None => c.thumbnail@,
                }),
                None => final(self).current is None,
            },
    {
        match self.current.take() {
            Some(c) => {
                let mut n = c;
                match &aux.title {
                    Some(t) => {
                        n.title = clean_title(t.as_str());
                    },
                    None => {},
                }
                let who = match &aux.channel {
                    Some(ch) => Some(ch),
                    None => match &aux.artist {
                        Some(a) => Some(a),
                        None => None,
                    },
                };
                match who {
                    Some(w) => {
                        if !w.as_str().is_empty() && !chars_eq_str(&chars_of(w.as_str()), "Unknown") {
                            n.author = w.clone();
                        }
                    },
                    None => {},
                }
                match aux.duration_secs {
                    Some(d) => {
                        n.duration_secs = Some(d);
                        n.is_live = false;
                    },
                    None => {},
                }
                match &aux.thumbnail {
                    Some(th) => {
                        if !th.as_str().is_empty() {
                            n.thumbnail = th.clone();
                        }
                    },
                    None => {},
                }
                self.current = Some(n);
            },
            None => {},
        }
    }
}

/// The author a probe reports: channel, else artist, when it is neither
/// empty nor "Unknown".
pub open spec fn probe_author(aux: AuxMeta) -> Option<Seq<char>> {
    let w = match aux.channel {
        Some(ch) => Some(ch@),
        None => opt_view(aux.artist),
    };
    match w {
        Some(a) => if a.len() != 0 && a != "Unknown"@ {
            Some(a)
        } else {
            None
        },
        None => None,
    }
}

} // verus!

verus! {

/// A fresh `RandomState`: calls `std::collections::hash_map::RandomState::new`.
/// Its keys are random; nothing is claimed of them.
#[verifier::external_body]
fn fresh_random_state() -> RandomState {
    RandomState::new()
}

/// The hasher of a `RandomState`: calls `BuildHasher::build_hasher`. Nothing
/// is claimed of it.
#[verifier::external_body]
fn hasher_of(state: &RandomState) -> DefaultHasher {
    state.build_hasher()
}

/// A random number: what a freshly keyed hasher finishes with.
fn random_u64() -> u64 {
    let state = fresh_random_state();
    let h = hasher_of(&state);
    h.finish()
}

/// The index a random draw selects below `bound`.
pub fn index_from(draw: u64, bound: usize) -> (i: usize)
    requires
        bound > 0,
    ensures
        i as int == draw as int % bound as int,
        i < bound,
{
    (draw % (bound as u64)) as usize
}

/// A random index below `bound`.
pub fn rand_index(bound: usize) -> (i: usize)
    requires
        bound > 0,
    ensures
        i < bound,
        exists|draw: u64| i as int == #[trigger] (draw as int % bound as int),
{
    let draw = random_u64();
    index_from(draw, bound)
}

/// `q` with the elements at `i` and `j` exchanged.
pub open spec fn swapped<A>(q: Seq<A>, i: int, j: int) -> Seq<A> {
    q.update(i, q[j]).update(j, q[i])
}

/// The Fisher-Yates steps from step `k` on: step `k` exchanges position
/// `i = len - 1 - k` with position `draws[k] % (i + 1)`.
pub open spec fn fisher_yates_from<A>(q: Seq<A>, draws: Seq<u64>, k: int) -> Seq<A>
    decreases draws.len() - k,
{
    if k < 0 || k >= draws.len() {
        q
    } else {
        let i = q.len() - 1 - k;
        fisher_yates_from(swapped(q, i, draws[k] as int % (i + 1)), draws, k + 1)
    }
}

/// A Fisher-Yates shuffle of `q` driven by `draws`: for `i` from the last
/// position down to 1, position `i` is exchanged with the draw for that step
/// modulo `i + 1`.
pub open spec fn fisher_yates<A>(q: Seq<A>, draws: Seq<u64>) -> Seq<A> {
    fisher_yates_from(q, draws, 0)
}

impl GuildState {
    /// Skips `amount` tracks (at least one): drops `amount - 1` from the
    /// front of the queue and stops the current one, remembering it as the
    /// previous track.
    pub fn skip_tracks(&mut self, amount: u32, now: u64)
        ensures
            ({
                let n = if amount == 0 {
                    0
                } else {
                    amount - 1
                };
                let dropped = if n <= old(self).queue@.len() {
                    n as int
                } else {
                    old(self).queue@.len() as int
                };
                &&& final(self).queue@ == old(self).queue@.skip(dropped)
                &&& *final(self) == (GuildState {
                    queue: final(self).queue,
                    stop_intentional: true,
                    stop_flag_at: Some(now),
                    playing: false,
                    previous: old(self).current,
                    current: None,
                    current_is_cached: false,
                    ..*old(self)
                })
            }),
    {
        let amount = if amount == 0 {
            1
        } else {
            amount
        };
        let mut k: u32 = 0;
        let ghost q0 = self.queue@;
        let ghost s0 = *self;
        while k < amount - 1
            invariant
                *self == (GuildState { queue: self.queue, ..s0 }),
                amount >= 1,
                k <= amount - 1,
                k <= q0.len() ==> self.queue@ == q0.skip(k as int),
                k > q0.len() ==> self.queue@.len() == 0,
            decreases amount - 1 - k,
        {
            let ghost before = self.queue@;
            let _ = self.queue.pop_front();
            proof {
                if k < q0.len() {
                    assert(self.queue@ =~= q0.skip(k + 1));
                }
            }
            k += 1;
        }
        proof {
            if amount - 1 > q0.len() {
                assert(q0.skip(q0.len() as int) =~= self.queue@);
            }
        }
        self.request_stop(now);
        self.playing = false;
        self.previous = self.current.take();
        self.current_is_cached = false;
    }

    /// Stops playback and forgets the queue, the current and the previous
    /// track; the loop mode resets.
    pub fn stop_all(&mut self, now: u64)
        ensures
            final(self).queue@.len() == 0,
            *final(self) == (GuildState {
                queue: final(self).queue,
                stop_intentional: true,
                stop_flag_at: Some(now),
                loop_mode: LoopMode::Off,
                playing: false,
                previous: None,
                current: None,
                current_is_cached: false,
                ..*old(self)
            }),
    {
        self.request_stop(now);
        self.queue.clear();
        self.loop_mode = LoopMode::Off;
        self.playing = false;
        self.previous = None;
        self.current = None;
        self.current_is_cached = false;
    }

    /// Appends a track to the queue; returns the new queue length (the
    /// track's 1-based position).
    pub fn enqueue(&mut self, t: Track) -> (n: usize)
        ensures
            final(self).queue@ == old(self).queue@.push(t),
            n == final(self).queue@.len(),
            *final(self) == (GuildState { queue: final(self).queue, ..*old(self) }),
    {
        self.queue.push_back(t);
        self.queue.len()
    }

    /// Appends the entries of a resolved playlist, in order, each built by
    /// `Track::from_resolved` for `requester`.
    pub fn enqueue_all(&mut self, infos: Vec<ResolvedInfo>, requester: &str)
        ensures
            final(self).queue@.len() == old(self).queue@.len() + infos@.len(),
            final(self).queue@.take(old(self).queue@.len() as int) == old(self).queue@,
            forall|j: int|
                0 <= j < infos@.len() ==> Track::is_resolved_entry(
                    #[trigger] final(self).queue@[old(self).queue@.len() + j],
                    infos@[j],
                    requester@,
                ),
            *final(self) == (GuildState { queue: final(self).queue, ..*old(self) }),
    {
        let ghost q0 = self.queue@;
        let ghost s0 = *self;
        let ghost all = infos@;
        let mut rest = infos;
        let n = rest.len();
        let mut k: usize = 0;
        while k < n
            invariant
                n == all.len(),
                k <= n,
                rest@ == all.skip(k as int),
                self.queue@.len() == q0.len() + k,
                self.queue@.take(q0.len() as int) == q0,
                forall|j: int|
                    0 <= j < k ==> Track::is_resolved_entry(
                        #[trigger] self.queue@[q0.len() + j],
                        all[j],
                        requester@,
                    ),
                *self == (GuildState { queue: self.queue, ..s0 }),
            decreases n - k,
        {
            let info = rest.remove(0);
            assert(info == all[k as int]);
            assert(rest@ =~= all.skip(k + 1));
            let ghost before = self.queue@;
            self.enqueue(Track::from_resolved(info, requester));
            assert(self.queue@.take(q0.len() as int) =~= before.take(q0.len() as int));
            assert forall|j: int| 0 <= j < k + 1 implies Track::is_resolved_entry(
                #[trigger] self.queue@[q0.len() + j],
                all[j],
                requester@,
            ) by {
                if j < k {
                    assert(self.queue@[q0.len() + j] == before[q0.len() + j]);
                }
            }
            k += 1;
        }
    }

    /// With no voice connection there is nothing to play: the player is
    /// idle and forgets the current track.
    pub fn no_voice(&mut self)
        ensures
            *final(self) == (GuildState { current: None, playing: false, ..*old(self) }),
    {
        self.current = None;
        self.playing = false;
    }

    /// Drops every queued track; the current one plays on.
    pub fn clear_queue(&mut self)
        ensures
            final(self).queue@.len() == 0,
            *final(self) == (GuildState { queue: final(self).queue, ..*old(self) }),
    {
        self.queue.clear();
    }

    /// Removes the track at 1-based position `pos`.
    pub fn remove_at(&mut self, pos: u32) -> (r: Result<Track, QueueError>)
        ensures
            (pos == 0 || pos > old(self).queue@.len()) <==> r is Err,
            r matches Err(e) ==> e == QueueError::InvalidPosition && *final(self) == *old(self),
            r matches Ok(t) ==> {
                &&& t == old(self).queue@[pos - 1]
                &&& final(self).queue@ == old(self).queue@.remove(pos - 1)
                &&& *final(self) == (GuildState { queue: final(self).queue, ..*old(self) })
            },
    {
        if pos == 0 || pos as usize > self.queue.len() {
            return Err(QueueError::InvalidPosition);
        }
        match self.queue.remove((pos - 1) as usize) {
            Some(t) => Ok(t),
            None => Err(QueueError::InvalidPosition),
        }
    }

    /// Moves the track at 1-based position `from_pos` to `to_pos`; returns
    /// its title.
    pub fn move_track(&mut self, from_pos: u32, to_pos: u32) -> (r: Result<String, QueueError>)
        ensures
            ({
                let n = old(self).queue@.len();
                (from_pos == 0 || from_pos > n || to_pos == 0 || to_pos > n) <==> r is Err
            }),
            r matches Err(e) ==> e == QueueError::InvalidPosition && *final(self) == *old(self),
            r matches Ok(title) ==> {
                let t = old(self).queue@[from_pos - 1];
                &&& title == t.title
                &&& final(self).queue@ == old(self).queue@.remove(from_pos - 1).insert(
                    to_pos - 1,
                    t,
                )
                &&& *final(self) == (GuildState { queue: final(self).queue, ..*old(self) })
            },
    {
        let n = self.queue.len();
        if from_pos == 0 || from_pos as usize > n || to_pos == 0 || to_pos as usize > n {
            return Err(QueueError::InvalidPosition);
        }
        match self.queue.remove((from_pos - 1) as usize) {
            Some(t) => {
                let title = t.title.clone();
                self.queue.insert((to_pos - 1) as usize, t);
                Ok(title)
            },
            None => Err(QueueError::InvalidPosition),
        }
    }

    /// Shuffles the queue (Fisher-Yates) with random draws; refused when it
    /// is empty.
    pub fn shuffle(&mut self) -> (r: Result<(), QueueError>)
        ensures
            (old(self).queue@.len() == 0) <==> r is Err,
            r matches Err(e) ==> e == QueueError::EmptyQueue && *final(self) == *old(self),
            r is Ok ==> exists|draws: Seq<u64>|
                draws.len() + 1 == old(self).queue@.len() && #[trigger] fisher_yates(
                    old(self).queue@,
                    draws,
                ) == final(self).queue@,
            final(self).queue@.len() == old(self).queue@.len(),
            final(self).queue@.to_multiset() == old(self).queue@.to_multiset(),
            *final(self) == (GuildState { queue: final(self).queue, ..*old(self) }),
    {
        let len = self.queue.len();
        if len == 0 {
            return Err(QueueError::EmptyQueue);
        }
        let mut draws: Vec<u64> = Vec::new();
        while draws.len() < len - 1
            invariant
                draws@.len() <= len - 1,
            decreases len - 1 - draws@.len(),
        {
            draws.push(random_u64());
        }
        let ghost q0 = self.queue@;
        self.shuffle_with(&draws);
        assert(fisher_yates(q0, draws@) == self.queue@);
        Ok(())
    }

    /// The Fisher-Yates shuffle of the queue driven by `draws`, one draw per
    /// position from the last down to the second.
    pub fn shuffle_with(&mut self, draws: &Vec<u64>)
        requires
            draws@.len() + 1 == old(self).queue@.len(),
        ensures
            final(self).queue@ == fisher_yates(old(self).queue@, draws@),
            final(self).queue@.len() == old(self).queue@.len(),
            final(self).queue@.to_multiset() == old(self).queue@.to_multiset(),
            *final(self) == (GuildState { queue: final(self).queue, ..*old(self) }),
    {
        let len = self.queue.len();
        let ghost q0 = self.queue@;
        let ghost s0 = *self;
        let mut k: usize = 0;
        while k < draws.len()
            invariant
                *self == (GuildState { queue: self.queue, ..s0 }),
                k <= draws@.len(),
                draws@.len() + 1 == len,
                len == self.queue@.len(),
                self.queue@.to_multiset() == q0.to_multiset(),
                fisher_yates(q0, draws@) == fisher_yates_from(self.queue@, draws@, k as int),
            decreases draws@.len() - k,
        {
            let i = len - 1 - k;
            let j = index_from(draws[k], i + 1);
            let ghost cur = self.queue@;
            self.swap_queued(i, j);
            assert(self.queue@ == swapped(cur, i as int, j as int));
            k += 1;
        }
    }

    /// Exchanges the queued tracks at 0-based indices `i` and `j`.
    pub fn swap_queued(&mut self, i: usize, j: usize)
        requires
            i < old(self).queue@.len(),
            j < old(self).queue@.len(),
        ensures
            final(self).queue@ == old(self).queue@.update(i as int, old(self).queue@[j as int]).update(
                j as int,
                old(self).queue@[i as int],
            ),
            final(self).queue@.to_multiset() == old(self).queue@.to_multiset(),
            *final(self) == (GuildState { queue: final(self).queue, ..*old(self) }),
    {
        let ghost q0 = self.queue@;
        if i == j {
            assert(q0.update(i as int, q0[j as int]).update(j as int, q0[i as int]) =~= q0);
            return;
        }
        let (lo, hi) = if i < j {
            (i, j)
        } else {
            (j, i)
        };
        let b = self.queue.remove(hi);
        let a = self.queue.remove(lo);
        match (a, b) {
            (Some(a), Some(b)) => {
                self.queue.insert(lo, b);
                self.queue.insert(hi, a);
            },
            _ => {},
        }
        proof {
            let target = q0.update(i as int, q0[j as int]).update(j as int, q0[i as int]);
            assert(self.queue@ =~= target);
            broadcast use vstd::seq_lib::to_multiset_update;
            broadcast use vstd::multiset::group_multiset_axioms;
            let s1 = q0.update(i as int, q0[j as int]);
            assert(s1[j as int] == q0[j as int]);
            assert(q0.to_multiset().count(q0[i as int]) > 0) by {
                broadcast use vstd::seq_lib::group_to_multiset_ensures;
                assert(q0.contains(q0[i as int]));
            }
            assert(target.to_multiset() =~= q0.to_multiset());
        }
    }

    /// Cycles the loop mode and returns the new one.
    pub fn cycle_loop(&mut self) -> (m: LoopMode)
        ensures
            m == old(self).loop_mode.cycle_spec(),
            *final(self) == (GuildState { loop_mode: m, ..*old(self) }),
    {
        self.loop_mode = self.loop_mode.cycle();
        self.loop_mode
    }
}

} // verus!

verus! {

impl GuildState {
    /// A track ended: true when the player should move on, false when the
    /// end was caused by a command (whose flag is consumed).
    pub fn on_track_end(&mut self, now: u64) -> (advance: bool)
        ensures
            advance == !old(self).fresh_stop_spec(now),
            *final(self) == (if old(self).stop_intentional {
                GuildState { stop_intentional: false, stop_flag_at: None, ..*old(self) }
            } else {
                *old(self)
            }),
    {
        !self.take_fresh_stop(now)
    }

    /// A track failed. Counts the failure and decides: stop everything
    /// after `max_errors` failures in a row, rejoin voice once after
    /// `rejoin_at`, otherwise skip to the next track.
    pub fn on_track_error(&mut self, now: u64, max_errors: u32, rejoin_at: u32) -> (a: ErrorAction)
        ensures
            ({
                let s0 = if old(self).stop_intentional {
                    GuildState { stop_intentional: false, stop_flag_at: None, ..*old(self) }
                } else {
                    *old(self)
                };
                let streak = if s0.error_streak == u32::MAX {
                    u32::MAX
                } else {
                    (s0.error_streak + 1) as u32
                };
                if old(self).fresh_stop_spec(now) {
                    a == ErrorAction::Ignore && *final(self) == s0
                } else if streak >= max_errors {
                    &&& a == ErrorAction::StopAll
                    &&& final(self).queue@.len() == 0
                    &&& *final(self) == (GuildState {
                        queue: final(self).queue,
                        playing: false,
                        error_streak: streak,
                        loop_mode: LoopMode::Off,
                        ..s0
                    })
                } else if streak >= rejoin_at && !s0.recovering {
                    &&& *final(self) == (GuildState {
                        playing: false,
                        error_streak: streak,
                        recovering: true,
                        ..s0
                    })
                    &&& a == (match s0.voice_channel_id {
                        Some(vc) => ErrorAction::Recover { voice_channel: vc },
                        None => ErrorAction::Skip { streak },
                    })
                } else {
                    &&& a == ErrorAction::Skip { streak }
                    &&& *final(self) == (GuildState {
                        playing: false,
                        error_streak: streak,
                        ..s0
                    })
                }
            }),
    {
        if self.take_fresh_stop(now) {
            return ErrorAction::Ignore;
        }
        self.playing = false;
        self.error_streak = self.error_streak.saturating_add(1);
        let streak = self.error_streak;
        if streak >= max_errors {
            self.queue.clear();
            self.loop_mode = LoopMode::Off;
            return ErrorAction::StopAll;
        }
        if streak >= rejoin_at && !self.recovering {
            self.recovering = true;
            if let Some(vc) = self.voice_channel_id {
                return ErrorAction::Recover { voice_channel: vc };
            }
        }
        ErrorAction::Skip { streak }
    }

    /// The recovery rejoin succeeded: back in `voice_channel`, and the
    /// failed track goes to the front of the queue to be retried.
    pub fn recovery_rejoined(&mut self, voice_channel: u64)
        ensures
            final(self).queue@ == (match old(self).current {
                Some(c) => seq![c] + old(self).queue@,
                None => old(self).queue@,
            }),
            *final(self) == (GuildState {
                queue: final(self).queue,
                current: None,
                voice_channel_id: Some(voice_channel),
                recovering: false,
                ..*old(self)
            }),
    {
        self.voice_channel_id = Some(voice_channel);
        self.recovering = false;
        if let Some(failed) = self.current.take() {
            self.queue.push_front(failed);
        }
        proof {
            if let Some(c) = old(self).current {
                assert(self.queue@ =~= seq![c] + old(self).queue@);
            }
        }
    }

    /// The recovery rejoin failed: playback is over and the queue cleared.
    pub fn recovery_failed(&mut self)
        ensures
            final(self).queue@.len() == 0,
            *final(self) == (GuildState {
                queue: final(self).queue,
                recovering: false,
                playing: false,
                current: None,
                voice_channel_id: None,
                ..*old(self)
            }),
    {
        self.recovering = false;
        self.queue.clear();
        self.playing = false;
        self.current = None;
        self.voice_channel_id = None;
    }

    /// The bot was disconnected from voice: forget what played and hand back
    /// the Now Playing card to delete.
    pub fn bot_left_voice(&mut self, now: u64) -> (np: Option<(u64, u64)>)
        ensures
            np == old(self).np_message,
            *final(self) == (GuildState {
                stop_intentional: true,
                stop_flag_at: Some(now),
                playing: false,
                current: None,
                previous: None,
                voice_channel_id: None,
                np_message: None,
                ..*old(self)
            }),
    {
        self.request_stop(now);
        self.playing = false;
        self.current = None;
        self.previous = None;
        self.voice_channel_id = None;
        self.np_message.take()
    }

    /// Every human left the bot's channel: clear everything, and when audio
    /// was live (`has_handle`: a track handle exists) flag the stop.
    /// Returns whether audio was live.
    pub fn channel_emptied(&mut self, now: u64, has_handle: bool) -> (was_live: bool)
        ensures
            was_live == (old(self).playing || old(self).current is Some || has_handle),
            final(self).queue@.len() == 0,
            *final(self) == (GuildState {
                queue: final(self).queue,
                loop_mode: LoopMode::Off,
                playing: false,
                current: None,
                previous: None,
                stop_intentional: if was_live {
                    true
                } else {
                    old(self).stop_intentional
                },
                stop_flag_at: if was_live {
                    Some(now)
                } else {
                    old(self).stop_flag_at
                },
                ..*old(self)
            }),
    {
        let was_live = self.playing || self.current.is_some() || has_handle;
        self.queue.clear();
        self.loop_mode = LoopMode::Off;
        self.playing = false;
        self.current = None;
        self.previous = None;
        if was_live {
            self.request_stop(now);
        }
        was_live
    }

    /// Disconnected and empty: the registry may forget this guild.
    pub fn is_stale(&self, has_handle: bool) -> (b: bool)
        ensures
            b == (self.voice_channel_id is None && self.queue@.len() == 0 && self.current is None
                && !has_handle),
    {
        self.voice_channel_id.is_none() && self.queue.len() == 0 && self.current.is_none()
            && !has_handle
    }

    /// Whether the idle timer should make the bot leave: not in 24/7 mode,
    /// nothing queued and nothing playing.
    pub fn should_auto_leave(&self, has_stay_channel: bool) -> (b: bool)
        ensures
            b == (!has_stay_channel && self.queue@.len() == 0 && !self.playing),
    {
        !has_stay_channel && self.queue.len() == 0 && !self.playing
    }

    /// Whether the bot should go back to its 24/7 channel `target`: it is
    /// elsewhere and idle.
    pub fn should_return_to_stay(&self, target: u64) -> (b: bool)
        ensures
            b == !(self.voice_channel_id == Some(target) || self.playing || self.queue@.len()
                > 0),
    {
        !(self.voice_channel_id == Some(target) || self.playing || self.queue.len() > 0)
    }
}

impl GuildState {
    /// The previous-track button: the current track goes back to the front
    /// of the queue to play again, and the stop it causes is flagged.
    pub fn step_back(&mut self, now: u64)
        ensures
            final(self).queue@ == (match old(self).current {
                Some(c) => seq![c] + old(self).queue@,
                None => old(self).queue@,
            }),
            *final(self) == (GuildState {
                queue: final(self).queue,
                current: None,
                stop_intentional: true,
                stop_flag_at: Some(now),
                playing: false,
                ..*old(self)
            }),
    {
        if let Some(cur) = self.current.take() {
            self.queue.push_front(cur);
        }
        proof {
            if let Some(c) = old(self).current {
                assert(self.queue@ =~= seq![c] + old(self).queue@);
            }
        }
        self.request_stop(now);
        self.playing = false;
    }

    /// The skip button: the current track stops and becomes the previous
    /// one; the queue moves on by itself.
    pub fn skip_current(&mut self, now: u64)
        ensures
            *final(self) == (GuildState {
                stop_intentional: true,
                stop_flag_at: Some(now),
                playing: false,
                previous: old(self).current,
                current: None,
                ..*old(self)
            }),
    {
        self.request_stop(now);
        self.playing = false;
        self.previous = self.current.take();
    }

    /// The stop button and the leave command: playback ends, the queue, the
    /// current and the previous track are dropped and looping is off.
    pub fn halt(&mut self, now: u64)
        ensures
            final(self).queue@.len() == 0,
            *final(self) == (GuildState {
                queue: final(self).queue,
                stop_intentional: true,
                stop_flag_at: Some(now),
                loop_mode: LoopMode::Off,
                playing: false,
                previous: None,
                current: None,
                ..*old(self)
            }),
    {
        self.request_stop(now);
        self.queue.clear();
        self.loop_mode = LoopMode::Off;
        self.playing = false;
        self.previous = None;
        self.current = None;
    }

    /// Before re-buffering the current track for a seek: its end is flagged
    /// as command-driven and playback counts as stopped. Returns the track
    /// to re-buffer; with no current track nothing changes.
    pub fn begin_rebuffer(&mut self, now: u64) -> (t: Option<Track>)
        ensures
            t == old(self).current,
            old(self).current is None ==> *final(self) == *old(self),
            old(self).current is Some ==> *final(self) == (GuildState {
                stop_intentional: true,
                stop_flag_at: Some(now),
                playing: false,
                ..*old(self)
            }),
    {
        match &self.current {
            Some(c) => {
                let t = c.duplicate();
                self.request_stop(now);
                self.playing = false;
                Some(t)
            },
            None => None,
        }
    }

    /// The re-buffered track plays from a seekable cache.
    pub fn rebuffered(&mut self)
        ensures
            *final(self) == (GuildState {
                playing: true,
                paused: false,
                error_streak: 0,
                recovering: false,
                current_is_cached: true,
                ..*old(self)
            }),
    {
        self.playing = true;
        self.paused = false;
        self.error_streak = 0;
        self.recovering = false;
        self.current_is_cached = true;
    }
}

} // verus!
