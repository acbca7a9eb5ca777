//! Query classification and the parsing of what the search backends return:
//! platform prefixes, Spotify links, yt-dlp entries, YouTube Music result
//! rows, SoundCloud hits and Spotify embed pages. The network and process
//! calls themselves happen outside the library, which hands the decoded
//! values in.

use vstd::prelude::*;
use vstd::string::StringSliceAdditionalSpecFns;

use crate::settings::SourcesConfig;
use crate::state::{fmt_sec_spec, opt_view};
use crate::json::{
    as_string, as_u64, field, field_spec, first, first_spec, get, get_spec, json_parse, parse_json,
    step, step_spec, str_spec, u64_spec, JsonValue,
};
use crate::web::{percent_encode, url_encode};
use crate::text::{
    ascii_lower_seq, chars_eq_str, decimal, pad2, chars_of, contains_exec, contains_seq,
    drop_empty, drop_empty_exec, parse_u64, parse_u64_spec, split_class, split_exec,
    starts_with, starts_with_exec, string_from, suffix_from, to_ascii_lower, trim_class,
    trim_start_class, trim_start_spec, trim_ws, views, CharClass,
};

verus! {

// ── resolved metadata ───────────────────────────────────────────────────

/// What a resolver found for a query.
#[derive(Debug, Clone)]
pub struct ResolvedMeta {
    pub webpage_url: String,
    pub title: String,
    pub author: String,
    pub duration_secs: Option<u64>,
    pub thumbnail: String,
    pub is_live: bool,
    pub is_spotify_match: bool,
    pub ui_link: Option<String>,
}

/// `ResolvedMeta` with its strings as character sequences.
#[verifier::ext_equal]
pub struct MetaView {
    pub webpage_url: Seq<char>,
    pub title: Seq<char>,
    pub author: Seq<char>,
    pub duration_secs: Option<u64>,
    pub thumbnail: Seq<char>,
    pub is_live: bool,
    pub is_spotify_match: bool,
    pub ui_link: Option<Seq<char>>,
}

impl View for ResolvedMeta {
    type V = MetaView;

    open spec fn view(&self) -> MetaView {
        MetaView {
            webpage_url: self.webpage_url@,
            title: self.title@,
            author: self.author@,
            duration_secs: self.duration_secs,
            thumbnail: self.thumbnail@,
            is_live: self.is_live,
            is_spotify_match: self.is_spotify_match,
            ui_link: opt_view(self.ui_link),
        }
    }
}

impl From<ResolvedMeta> for crate::state::ResolvedInfo {
    fn from(m: ResolvedMeta) -> (r: crate::state::ResolvedInfo) {
        crate::state::ResolvedInfo {
            webpage_url: m.webpage_url,
            title: m.title,
            author: m.author,
            duration_secs: m.duration_secs,
            thumbnail: m.thumbnail,
            is_live: m.is_live,
            is_spotify_match: m.is_spotify_match,
            ui_link: m.ui_link,
        }
    }
}

impl vstd::std_specs::convert::FromSpecImpl<ResolvedMeta> for crate::state::ResolvedInfo {
    open spec fn obeys_from_spec() -> bool {
        true
    }

    open spec fn from_spec(m: ResolvedMeta) -> crate::state::ResolvedInfo {
        crate::state::ResolvedInfo {
            webpage_url: m.webpage_url,
            title: m.title,
            author: m.author,
            duration_secs: m.duration_secs,
            thumbnail: m.thumbnail,
            is_live: m.is_live,
            is_spotify_match: m.is_spotify_match,
            ui_link: m.ui_link,
        }
    }
}

pub open spec fn metas_view(v: Seq<ResolvedMeta>) -> Seq<MetaView> {
    v.map_values(|m: ResolvedMeta| m@)
}

/// The string in `o`, or `d`.
pub open spec fn or_text(o: Option<String>, d: Seq<char>) -> Seq<char> {
    match o {
        Some(s) => s@,
        None => d,
    }
}

fn text_or(o: &Option<String>, d: &str) -> (r: String)
    ensures
        r@ == or_text(*o, d@),
{
    match o {
        Some(s) => s.clone(),
        None => d.to_owned(),
    }
}

fn clone_opt(o: &Option<String>) -> (r: Option<String>)
    ensures
        opt_view(r) == opt_view(*o),
{
    match o {
        Some(s) => Some(s.clone()),
        None => None,
    }
}

/// `a`, then `b`, then `c`.
fn concat3(a: &str, b: &str, c: &str) -> (r: String)
    ensures
        r@ == a@ + b@ + c@,
{
    let mut v = chars_of(a);
    crate::text::push_str(&mut v, b);
    crate::text::push_str(&mut v, c);
    string_from(&v)
}

// ── query classification ────────────────────────────────────────────────

pub open spec fn is_url_spec(q: Seq<char>) -> bool {
    starts_with(q, "http://"@) || starts_with(q, "https://"@)
}

/// An `http://` or `https://` URL.
pub fn is_url(q: &str) -> (b: bool)
    ensures
        b == is_url_spec(q@),
{
    let v = chars_of(q);
    starts_with_exec(&v, "http://") || starts_with_exec(&v, "https://")
}

pub open spec fn youtube_search_spec(query: Seq<char>) -> Seq<char> {
    "ytsearch1:"@ + query
}

/// The yt-dlp query for the best YouTube match of `query`.
pub fn youtube_search(query: &str) -> (r: String)
    ensures
        r@ == youtube_search_spec(query@),
{
    crate::text::concat_str("ytsearch1:", query)
}

/// A platform that a query can name with a search prefix.
#[derive(Debug, Clone, Copy, PartialEq, Eq, Structural)]
pub enum SearchPlatform {
    YouTube,
    SoundCloud,
    Spotify,
    AppleMusic,
}

/// The prefix that names each platform.
pub open spec fn search_tag(p: SearchPlatform) -> Seq<char> {
    match p {
        SearchPlatform::YouTube => "ytsearch"@,
        SearchPlatform::SoundCloud => "scsearch"@,
        SearchPlatform::Spotify => "spsearch"@,
        SearchPlatform::AppleMusic => "amsearch"@,
    }
}

/// The platform whose prefix `lower` starts with, tried in the order
/// YouTube, SoundCloud, Spotify, Apple Music.
pub open spec fn tagged_platform(lower: Seq<char>) -> Option<SearchPlatform> {
    if starts_with(lower, search_tag(SearchPlatform::YouTube)) {
        Some(SearchPlatform::YouTube)
    } else if starts_with(lower, search_tag(SearchPlatform::SoundCloud)) {
        Some(SearchPlatform::SoundCloud)
    } else if starts_with(lower, search_tag(SearchPlatform::Spotify)) {
        Some(SearchPlatform::Spotify)
    } else if starts_with(lower, search_tag(SearchPlatform::AppleMusic)) {
        Some(SearchPlatform::AppleMusic)
    } else {
        None
    }
}

/// The ASCII-lowercased query after the prefix, with the result count
/// (`ytsearch1:`, `ytsearch:5:`) ignored: leading colons, then digits, then
/// the colons after them are removed.
pub open spec fn parse_prefix_spec(q: Seq<char>) -> Option<(SearchPlatform, Seq<char>)> {
    let lower = ascii_lower_seq(q);
    match tagged_platform(lower) {
        Some(p) => Some(
            (
                p,
                trim_start_spec(
                    trim_start_spec(
                        trim_start_spec(lower.skip(search_tag(p).len() as int), CharClass::Colon),
                        CharClass::AsciiDigit,
                    ),
                    CharClass::Colon,
                ),
            ),
        ),
        None => None,
    }
}

/// A query that starts with a platform prefix (in any ASCII case) is a
/// search on that platform: `ytsearch` YouTube, `scsearch` SoundCloud,
/// `spsearch` Spotify, `amsearch` Apple Music. When nothing but the query
/// follows the prefix (it starts with neither a colon nor a digit), that
/// query, lowercased, is what is searched for.
pub proof fn lemma_prefix_names_platform(p: SearchPlatform, x: Seq<char>)
    ensures
        parse_prefix_spec(search_tag(p) + x) matches Some((q, _)) && q == p,
        (x.len() == 0 || (x[0] != ':' && !('0' <= x[0] && x[0] <= '9'))) ==> parse_prefix_spec(
            search_tag(p) + x,
        ) == Some((p, ascii_lower_seq(x))),
{
    reveal_strlit("ytsearch");
    reveal_strlit("scsearch");
    reveal_strlit("spsearch");
    reveal_strlit("amsearch");
    let t = search_tag(p);
    let l = ascii_lower_seq(t + x);
    assert(l =~= t + ascii_lower_seq(x));
    assert(l.take(8) =~= t);
    assert(starts_with(l, t));
    assert(l[0] == t[0] && l[1] == t[1]);
    assert(l.skip(8) =~= ascii_lower_seq(x));
    assert(tagged_platform(l) == Some(p)) by {
        let yt = search_tag(SearchPlatform::YouTube);
        let sc = search_tag(SearchPlatform::SoundCloud);
        let sp = search_tag(SearchPlatform::Spotify);
        if p != SearchPlatform::YouTube {
            assert(l.take(8)[0] != yt[0]);
            assert(!starts_with(l, yt));
        }
        if p != SearchPlatform::YouTube && p != SearchPlatform::SoundCloud {
            assert(l.take(8)[1] != sc[1] || l.take(8)[0] != sc[0]);
            assert(!starts_with(l, sc));
        }
        if p == SearchPlatform::AppleMusic {
            assert(l.take(8)[0] != sp[0]);
            assert(!starts_with(l, sp));
        }
    }
    let lx = ascii_lower_seq(x);
    if x.len() == 0 || (x[0] != ':' && !('0' <= x[0] && x[0] <= '9')) {
        if x.len() > 0 {
            assert(lx[0] == crate::text::ascii_lower(x[0]));
        }
        assert(crate::text::lead_count(lx, CharClass::Colon) == 0);
        assert(lx.skip(0) =~= lx);
        assert(crate::text::lead_count(lx, CharClass::AsciiDigit) == 0);
    }
}

/// A query without any platform prefix is not a prefixed search.
pub proof fn lemma_no_prefix(q: Seq<char>)
    requires
        forall|p: SearchPlatform| !starts_with(ascii_lower_seq(q), #[trigger] search_tag(p)),
    ensures
        parse_prefix_spec(q) is None,
{
    assert(!starts_with(ascii_lower_seq(q), search_tag(SearchPlatform::YouTube)));
    assert(!starts_with(ascii_lower_seq(q), search_tag(SearchPlatform::SoundCloud)));
    assert(!starts_with(ascii_lower_seq(q), search_tag(SearchPlatform::Spotify)));
    assert(!starts_with(ascii_lower_seq(q), search_tag(SearchPlatform::AppleMusic)));
}

/// Parses an optional leading platform prefix: `ytsearch[:N]`,
/// `scsearch[:N]`, `spsearch[:N]`, `amsearch[:N]`, in any ASCII case.
/// Returns the platform and the lowercased rest of the query.
pub fn parse_prefix(q: &str) -> (r: Option<(SearchPlatform, String)>)
    ensures
        r matches Some((p, s)) ==> parse_prefix_spec(q@) == Some((p, s@)),
        r is None ==> parse_prefix_spec(q@) is None,
{
    proof {
        reveal_strlit("ytsearch");
        reveal_strlit("scsearch");
        reveal_strlit("spsearch");
        reveal_strlit("amsearch");
    }
    let lower = to_ascii_lower(&chars_of(q));
    let p = if starts_with_exec(&lower, "ytsearch") {
        SearchPlatform::YouTube
    } else if starts_with_exec(&lower, "scsearch") {
        SearchPlatform::SoundCloud
    } else if starts_with_exec(&lower, "spsearch") {
        SearchPlatform::Spotify
    } else if starts_with_exec(&lower, "amsearch") {
        SearchPlatform::AppleMusic
    } else {
        return None;
    };
    let rest = suffix_from(&lower, 8);
    let rest = trim_start_class(&rest, CharClass::Colon);
    let rest = trim_start_class(&rest, CharClass::AsciiDigit);
    let rest = trim_start_class(&rest, CharClass::Colon);
    Some((p, string_from(&rest)))
}

pub open spec fn is_playlist_query_spec(q: Seq<char>) -> bool {
    contains_seq(q, "playlist"@) || contains_seq(q, "album"@) || contains_seq(q, "list="@)
        || contains_seq(q, "/sets/"@)
}

/// Whether a query names a playlist, an album or a SoundCloud set.
pub fn is_playlist_query(q: &str) -> (b: bool)
    ensures
        b == is_playlist_query_spec(q@),
{
    let v = chars_of(q);
    contains_exec(&v, "playlist") || contains_exec(&v, "album") || contains_exec(&v, "list=")
        || contains_exec(&v, "/sets/")
}

/// A query that names a playlist, an album, a `list=` link or a SoundCloud
/// set is loaded as a collection, and any other query as a single track.
pub proof fn lemma_collection_queries(q: Seq<char>)
    ensures
        contains_seq(q, "playlist"@) ==> is_playlist_query_spec(q),
        contains_seq(q, "album"@) ==> is_playlist_query_spec(q),
        contains_seq(q, "list="@) ==> is_playlist_query_spec(q),
        contains_seq(q, "/sets/"@) ==> is_playlist_query_spec(q),
        !contains_seq(q, "playlist"@) && !contains_seq(q, "album"@) && !contains_seq(q, "list="@)
            && !contains_seq(q, "/sets/"@) ==> !is_playlist_query_spec(q),
{
}

// ── base64 ──────────────────────────────────────────────────────────────

/// The standard base64 alphabet (RFC 4648): `A-Z`, `a-z`, `0-9`, `+`, `/`.
pub open spec fn b64_char(v: int) -> char {
    if v < 26 {
        (('A' as u32) + v) as char
    } else if v < 52 {
        (('a' as u32) + (v - 26)) as char
    } else if v < 62 {
        (('0' as u32) + (v - 52)) as char
    } else if v == 62 {
        '+'
    } else {
        '/'
    }
}

/// Standard base64 with `=` padding: each group of three bytes becomes four
/// characters of six bits each; a final group of one or two bytes is padded.
pub open spec fn base64_spec(b: Seq<u8>) -> Seq<char>
    decreases b.len(),
{
    if b.len() == 0 {
        Seq::empty()
    } else {
        let b0 = b[0] as int;
        let b1 = if b.len() > 1 { b[1] as int } else { 0 };
        let b2 = if b.len() > 2 { b[2] as int } else { 0 };
        if b.len() == 1 {
            seq![b64_char(b0 / 4), b64_char((b0 % 4) * 16), '=', '=']
        } else if b.len() == 2 {
            seq![b64_char(b0 / 4), b64_char((b0 % 4) * 16 + b1 / 16), b64_char((b1 % 16) * 4), '=']
        } else {
            seq![
                b64_char(b0 / 4),
                b64_char((b0 % 4) * 16 + b1 / 16),
                b64_char((b1 % 16) * 4 + b2 / 64),
                b64_char(b2 % 64),
            ] + base64_spec(b.skip(3))
        }
    }
}

/// Base64 output is four characters per started group of three bytes.
pub proof fn lemma_base64_len(b: Seq<u8>)
    ensures
        base64_spec(b).len() == 4 * ((b.len() + 2) / 3),
    decreases b.len(),
{
    if b.len() > 2 {
        lemma_base64_len(b.skip(3));
    }
}

fn b64_char_exec(v: u32) -> (c: char)
    requires
        v < 64,
    ensures
        c == b64_char(v as int),
{
    if v < 26 {
        crate::text::char_from_u32_ascii(('A' as u32) + v)
    } else if v < 52 {
        crate::text::char_from_u32_ascii(('a' as u32) + (v - 26))
    } else if v < 62 {
        crate::text::char_from_u32_ascii(('0' as u32) + (v - 52))
    } else if v == 62 {
        '+'
    } else {
        '/'
    }
}

/// Base64 of the UTF-8 bytes of `input`.
pub fn base64_encode(input: &str) -> (r: String)
    ensures
        r@ == base64_spec(input.spec_bytes()),
{
    let bytes = input.as_bytes();
    let ghost b = bytes@;
    let n = bytes.len();
    let mut out: Vec<char> = Vec::new();
    let mut i: usize = 0;
    assert(b.skip(0) =~= b);
    while i < n
        invariant
            b == bytes@,
            n == b.len(),
            i <= n,
            base64_spec(b) == out@ + base64_spec(b.skip(i as int)),
        decreases n - i,
    {
        let ghost rest = b.skip(i as int);
        let b0 = bytes[i] as u32;
        assert(rest[0] == b0);
        out.push(b64_char_exec(b0 / 4));
        if n - i == 1 {
            out.push(b64_char_exec((b0 % 4) * 16));
            out.push('=');
            out.push('=');
            assert(base64_spec(b.skip(n as int)) =~= Seq::<char>::empty());
            i = n;
        } else {
            let b1 = bytes[i + 1] as u32;
            assert(rest[1] == b1);
            out.push(b64_char_exec((b0 % 4) * 16 + b1 / 16));
            if n - i == 2 {
                out.push(b64_char_exec((b1 % 16) * 4));
                out.push('=');
                assert(base64_spec(b.skip(n as int)) =~= Seq::<char>::empty());
                i = n;
            } else {
                let b2 = bytes[i + 2] as u32;
                assert(rest[2] == b2);
                out.push(b64_char_exec((b1 % 16) * 4 + b2 / 64));
                out.push(b64_char_exec(b2 % 64));
                assert(rest.skip(3) =~= b.skip(i + 3));
                i = i + 3;
            }
        }
    }
    assert(out@ + Seq::<char>::empty() =~= out@);
    string_from(&out)
}

// ── durations in YouTube Music rows ─────────────────────────────────────

/// Folds `h:m:s` style pieces into seconds (`total * 60 + piece`), each
/// piece trimmed and parsed as a `u64`; `None` when a piece does not parse
/// or the total overflows.
pub open spec fn clock_total(parts: Seq<Seq<char>>) -> Option<u64>
    decreases parts.len(),
{
    if parts.len() == 0 {
        Some(0)
    } else {
        match clock_total(parts.drop_last()) {
            Some(acc) => match parse_u64_spec(trim_ws(parts.last())) {
                Some(v) => if acc * 60 + v <= u64::MAX {
                    Some((acc * 60 + v) as u64)
                } else {
                    None
                },
                None => None,
            },
            None => None,
        }
    }
}

/// A `m:ss` or `h:mm:ss` duration in seconds. A text without `:` is never a
/// duration, so bare numbers (view counts and the like) do not match.
pub open spec fn parse_mmss_spec(s: Seq<char>) -> Option<u64> {
    let t = trim_ws(s);
    if !contains_seq(t, ":"@) {
        None
    } else {
        clock_total(split_class(t, CharClass::Colon))
    }
}

proof fn lemma_clock_total_none(ps: Seq<Seq<char>>, i: int)
    requires
        0 <= i <= ps.len(),
        clock_total(ps.take(i)) is None,
    ensures
        clock_total(ps) is None,
    decreases ps.len(),
{
    if ps.len() == i {
        assert(ps.take(i) =~= ps);
    } else {
        assert(ps.drop_last().take(i) =~= ps.take(i));
        lemma_clock_total_none(ps.drop_last(), i);
    }
}

/// The seconds that clock pieces (`h`, `m`, `s`, most significant first,
/// each trimmed) add up to; `None` when a piece does not parse or the total
/// does not fit.
pub(crate) fn clock_seconds(parts: &Vec<Vec<char>>) -> (r: Option<u64>)
    ensures
        r == clock_total(views(parts@)),
{
    let ghost ps = views(parts@);
    let mut total: u64 = 0;
    let mut i: usize = 0;
    assert(ps.take(0) =~= Seq::<Seq<char>>::empty());
    while i < parts.len()
        invariant
            i <= parts@.len(),
            ps == views(parts@),
            clock_total(ps.take(i as int)) == Some(total),
        decreases parts.len() - i,
    {
        assert(ps.take(i + 1).drop_last() =~= ps.take(i as int));
        assert(ps.take(i + 1).last() == parts@[i as int]@);
        let piece = trim_class(&parts[i], CharClass::Whitespace);
        let v = match parse_u64(&piece) {
            Some(v) => v,
            None => {
                proof {
                    lemma_clock_total_none(ps, i + 1);
                }
                return None;
            },
        };
        let m = match total.checked_mul(60) {
            Some(m) => m,
            None => {
                proof {
                    assert(total * 60 + v > u64::MAX);
                    assert(clock_total(ps.take(i + 1)) is None);
                    lemma_clock_total_none(ps, i + 1);
                }
                return None;
            },
        };
        total = match m.checked_add(v) {
            Some(x) => x,
            None => {
                proof {
                    assert(clock_total(ps.take(i + 1)) is None);
                    lemma_clock_total_none(ps, i + 1);
                }
                return None;
            },
        };
        i += 1;
    }
    assert(ps.take(parts@.len() as int) =~= ps);
    Some(total)
}

/// The pieces of a formatted time: `[h, mm, ss]` from one hour on,
/// `[m, ss]` below.
pub open spec fn fmt_sec_pieces(s: nat) -> Seq<Seq<char>> {
    let h = s / 3600;
    let m = (s % 3600) / 60;
    let sec = s % 60;
    if h > 0 {
        seq![decimal(h), pad2(m), pad2(sec)]
    } else {
        seq![decimal(m), pad2(sec)]
    }
}

/// A formatted time is untouched by trimming, holds a colon, splits into
/// its pieces on colons, and the pieces add up to the seconds again.
pub proof fn lemma_fmt_sec_pieces(s: u64)
    ensures
        trim_ws(fmt_sec_spec(s as nat)) == fmt_sec_spec(s as nat),
        contains_seq(fmt_sec_spec(s as nat), ":"@),
        split_class(fmt_sec_spec(s as nat), CharClass::Colon) == fmt_sec_pieces(s as nat),
        2 <= fmt_sec_pieces(s as nat).len() <= 3,
        clock_total(fmt_sec_pieces(s as nat)) == Some(s),
{
    reveal_strlit(":");
    let n = s as nat;
    let h = n / 3600;
    let m = (n % 3600) / 60;
    let sec = n % 60;
    assert(n == (h * 60 + m) * 60 + sec) by (nonlinear_arith)
        requires
            h == n / 3600,
            m == (n % 3600) / 60,
            sec == n % 60,
    ;
    assert(h <= n && h * 60 + m <= n) by (nonlinear_arith)
        requires
            n == (h * 60 + m) * 60 + sec,
            h >= 0,
            m >= 0,
            sec >= 0,
    ;
    crate::text::lemma_pad2_digits(m);
    crate::text::lemma_pad2_digits(sec);
    crate::text::lemma_digits_parse(pad2(m));
    crate::text::lemma_digits_parse(pad2(sec));
    let f = fmt_sec_spec(n);
    let b = pad2(sec);
    reveal_with_fuel(clock_total, 4);
    if h > 0 {
        let a = decimal(h);
        let mid = pad2(m);
        crate::text::lemma_decimal_digits(h);
        crate::text::lemma_digits_parse(a);
        assert(f =~= a.push(':') + (mid.push(':') + b));
        crate::text::lemma_split_after(a, ':', mid.push(':') + b, CharClass::Colon);
        crate::text::lemma_split_after(mid, ':', b, CharClass::Colon);
        crate::text::lemma_split_whole(b, CharClass::Colon);
        assert(split_class(f, CharClass::Colon) =~= fmt_sec_pieces(n));
        let ps = fmt_sec_pieces(n);
        assert(ps.drop_last() =~= seq![a, mid]);
        assert(ps.drop_last().drop_last() =~= seq![a]);
        assert(ps.drop_last().drop_last().drop_last() =~= Seq::<Seq<char>>::empty());
        assert(f[0] == a[0]);
        assert(f[f.len() - 1] == b[b.len() - 1]);
        assert(f.subrange(a.len() as int, a.len() as int + 1) =~= ":"@);
        assert(crate::text::occurs_at(f, ":"@, a.len() as int));
    } else {
        assert(m <= n);
        let a = decimal(m);
        crate::text::lemma_decimal_digits(m);
        crate::text::lemma_digits_parse(a);
        assert(f =~= a.push(':') + b);
        crate::text::lemma_split_after(a, ':', b, CharClass::Colon);
        crate::text::lemma_split_whole(b, CharClass::Colon);
        assert(split_class(f, CharClass::Colon) =~= fmt_sec_pieces(n));
        let ps = fmt_sec_pieces(n);
        assert(ps.drop_last() =~= seq![a]);
        assert(ps.drop_last().drop_last() =~= Seq::<Seq<char>>::empty());
        assert(f[0] == a[0]);
        assert(f[f.len() - 1] == b[b.len() - 1]);
        assert(f.subrange(a.len() as int, a.len() as int + 1) =~= ":"@);
        assert(crate::text::occurs_at(f, ":"@, a.len() as int));
    }
    crate::text::lemma_trim_unchanged(f);
}

/// Parsing a formatted time gives the seconds back.
pub proof fn lemma_formatted_time_parses_back(s: u64)
    ensures
        parse_mmss_spec(fmt_sec_spec(s as nat)) == Some(s),
{
    lemma_fmt_sec_pieces(s);
}

pub fn parse_mmss(s: &str) -> (r: Option<u64>)
    ensures
        r == parse_mmss_spec(s@),
{
    let t = trim_class(&chars_of(s), CharClass::Whitespace);
    if !contains_exec(&t, ":") {
        return None;
    }
    clock_seconds(&split_exec(&t, CharClass::Colon))
}

// ── YouTube Music row metadata ──────────────────────────────────────────

/// The labels YouTube Music puts before the artist ("Song • Artist • 3:33").
pub open spec fn is_category_token(s: Seq<char>) -> bool {
    let l = ascii_lower_seq(s);
    l == "song"@ || l == "video"@ || l == "single"@ || l == "ep"@ || l == "album"@ || l
        == "playlist"@ || l == "live"@
}

fn is_category_token_exec(s: &Vec<char>) -> (b: bool)
    ensures
        b == is_category_token(s@),
{
    let l = to_ascii_lower(s);
    chars_eq_str(&l, "song") || chars_eq_str(&l, "video") || chars_eq_str(&l, "single")
        || chars_eq_str(&l, "ep") || chars_eq_str(&l, "album") || chars_eq_str(&l, "playlist")
        || chars_eq_str(&l, "live")
}

/// The non-empty trimmed pieces of `meta` between bullets (`•`).
pub open spec fn meta_segments(meta: Seq<char>) -> Seq<Seq<char>> {
    drop_empty(split_class(meta, CharClass::Bullet).map_values(|p: Seq<char>| trim_ws(p)))
}

/// The first segment that is not a category label, or empty.
pub open spec fn first_artist(segs: Seq<Seq<char>>) -> Seq<char>
    decreases segs.len(),
{
    if segs.len() == 0 {
        Seq::empty()
    } else if !is_category_token(segs[0]) {
        segs[0]
    } else {
        first_artist(segs.drop_first())
    }
}

/// The last segment that reads as a duration.
pub open spec fn last_duration(segs: Seq<Seq<char>>) -> Option<u64>
    decreases segs.len(),
{
    if segs.len() == 0 {
        None
    } else {
        match parse_mmss_spec(segs.last()) {
            Some(d) => Some(d),
            None => last_duration(segs.drop_last()),
        }
    }
}

pub open spec fn parse_ytm_meta_spec(meta: Seq<char>) -> (Seq<char>, Option<u64>) {
    (first_artist(meta_segments(meta)), last_duration(meta_segments(meta)))
}

fn first_artist_exec(segs: &Vec<Vec<char>>) -> (r: Vec<char>)
    ensures
        r@ == first_artist(views(segs@)),
{
    let ghost sv = views(segs@);
    let mut k: usize = 0;
    assert(sv.skip(0) =~= sv);
    while k < segs.len()
        invariant
            k <= segs@.len(),
            sv == views(segs@),
            first_artist(sv) == first_artist(sv.skip(k as int)),
        decreases segs.len() - k,
    {
        assert(sv.skip(k as int)[0] == segs@[k as int]@);
        if !is_category_token_exec(&segs[k]) {
            return segs[k].clone();
        }
        assert(sv.skip(k as int).drop_first() =~= sv.skip(k + 1));
        k += 1;
    }
    assert(sv.skip(k as int) =~= Seq::<Seq<char>>::empty());
    Vec::new()
}

fn last_duration_exec(segs: &Vec<Vec<char>>) -> (r: Option<u64>)
    ensures
        r == last_duration(views(segs@)),
{
    let ghost sv = views(segs@);
    let mut j: usize = segs.len();
    assert(sv.take(j as int) =~= sv);
    while j > 0
        invariant
            j <= segs@.len(),
            sv == views(segs@),
            last_duration(sv) == last_duration(sv.take(j as int)),
        decreases j,
    {
        assert(sv.take(j as int).last() == segs@[j - 1]@);
        assert(sv.take(j as int).drop_last() =~= sv.take(j - 1));
        let piece = string_from(&segs[j - 1]);
        match parse_mmss(piece.as_str()) {
            Some(d) => {
                return Some(d);
            },
            None => {},
        }
        j -= 1;
    }
    assert(sv.take(0) =~= Seq::<Seq<char>>::empty());
    None
}

/// Reads a YouTube Music meta line such as "Song • Rick Astley • 3:33",
/// whose first token may be a category label rather than the artist.
/// Returns (artist, duration in seconds).
pub fn parse_ytm_meta(meta_text: &str) -> (r: (String, Option<u64>))
    ensures
        r.0@ == parse_ytm_meta_spec(meta_text@).0,
        r.1 == parse_ytm_meta_spec(meta_text@).1,
{
    let pieces = split_exec(&chars_of(meta_text), CharClass::Bullet);
    let mut trimmed: Vec<Vec<char>> = Vec::new();
    let mut i: usize = 0;
    let ghost raw = views(pieces@);
    let ghost mapped = raw.map_values(|p: Seq<char>| trim_ws(p));
    while i < pieces.len()
        invariant
            i <= pieces@.len(),
            raw == views(pieces@),
            mapped == raw.map_values(|p: Seq<char>| trim_ws(p)),
            views(trimmed@) == mapped.take(i as int),
        decreases pieces.len() - i,
    {
        let t = trim_class(&pieces[i], CharClass::Whitespace);
        let ghost before = trimmed@;
        trimmed.push(t);
        proof {
            assert(raw[i as int] == pieces@[i as int]@);
            assert(mapped[i as int] == trim_ws(raw[i as int]));
            assert(views(trimmed@) =~= views(before).push(t@));
            assert(mapped.take(i + 1) =~= mapped.take(i as int).push(mapped[i as int]));
        }
        i += 1;
    }
    assert(mapped.take(pieces@.len() as int) =~= mapped);
    let segs = drop_empty_exec(trimmed);
    let ghost sv = views(segs@);
    assert(sv == meta_segments(meta_text@));
    let author = first_artist_exec(&segs);
    let dur = last_duration_exec(&segs);
    (string_from(&author), dur)
}

/// The cleaned title of a YouTube Music row ("Unknown" when it has none).
pub fn clean_ytm_title(raw: &str) -> (r: String)
    ensures
        r@ == crate::state::clean_title_spec(
            if raw@.len() == 0 {
                "Unknown"@
            } else {
                raw@
            },
        ),
{
    if chars_of(raw).len() == 0 {
        crate::state::clean_title("Unknown")
    } else {
        crate::state::clean_title(raw)
    }
}

// ── Spotify links ───────────────────────────────────────────────────────

/// What a Spotify link points at.
#[derive(Debug, Clone, Copy, PartialEq, Eq, Structural)]
pub enum SpotifyKind {
    Track,
    Album,
    Playlist,
}

/// A Spotify track, album or playlist, by id.
pub struct SpotifyRef {
    pub kind: SpotifyKind,
    pub id: String,
}

pub open spec fn spotify_kind_of(p: Seq<char>) -> Option<SpotifyKind> {
    if p == "track"@ {
        Some(SpotifyKind::Track)
    } else if p == "album"@ {
        Some(SpotifyKind::Album)
    } else if p == "playlist"@ {
        Some(SpotifyKind::Playlist)
    } else {
        None
    }
}

/// Walks the pieces of a link from index `i`: a kind word sets the kind and
/// takes the next piece (if any) as the id; the last kind word wins.
pub open spec fn spotify_scan(
    parts: Seq<Seq<char>>,
    i: int,
    kind: Option<SpotifyKind>,
    id: Option<Seq<char>>,
) -> (Option<SpotifyKind>, Option<Seq<char>>)
    decreases parts.len() + 2 - i,
{
    if i < 0 || i >= parts.len() {
        (kind, id)
    } else {
        match spotify_kind_of(parts[i]) {
            Some(k) => spotify_scan(
                parts,
                i + 2,
                Some(k),
                if i + 1 < parts.len() {
                    Some(parts[i + 1])
                } else {
                    None
                },
            ),
            None => spotify_scan(parts, i + 1, kind, id),
        }
    }
}

/// A link to `open.spotify.com` or a `spotify:` URI, split on `/` and `:`,
/// yields its (last) kind word and the id after it, cut at the first `?`.
pub open spec fn spotify_ref_spec(url: Seq<char>) -> Option<(SpotifyKind, Seq<char>)> {
    if !contains_seq(url, "open.spotify.com"@) && !starts_with(url, "spotify:"@) {
        None
    } else {
        let parts = drop_empty(split_class(url, CharClass::SlashOrColon));
        match spotify_scan(parts, 0, None, None) {
            (Some(k), Some(id)) => Some((k, split_class(id, CharClass::Question)[0])),
            _ => None,
        }
    }
}

fn spotify_kind_exec(p: &Vec<char>) -> (r: Option<SpotifyKind>)
    ensures
        r == spotify_kind_of(p@),
{
    if chars_eq_str(p, "track") {
        Some(SpotifyKind::Track)
    } else if chars_eq_str(p, "album") {
        Some(SpotifyKind::Album)
    } else if chars_eq_str(p, "playlist") {
        Some(SpotifyKind::Playlist)
    } else {
        None
    }
}

impl SpotifyRef {
    /// Reads a Spotify link (`https://open.spotify.com/track/ID?si=..` or
    /// `spotify:album:ID`); `None` for anything else.
    pub fn parse(url: &str) -> (r: Option<Self>)
        ensures
            r matches Some(sr) ==> spotify_ref_spec(url@) == Some((sr.kind, sr.id@)),
            r is None ==> spotify_ref_spec(url@) is None,
    {
        let v = chars_of(url);
        if !contains_exec(&v, "open.spotify.com") && !starts_with_exec(&v, "spotify:") {
            return None;
        }
        let parts = drop_empty_exec(split_exec(&v, CharClass::SlashOrColon));
        let ghost pv = views(parts@);
        let mut kind: Option<SpotifyKind> = None;
        let mut id: Option<Vec<char>> = None;
        let mut i: usize = 0;
        while i < parts.len()
            invariant
                pv == views(parts@),
                i <= parts@.len(),
                spotify_scan(pv, 0, None, None) == spotify_scan(
                    pv,
                    i as int,
                    kind,
                    match id {
                        Some(x) => Some(x@),
                        None => None,
                    },
                ),
            decreases parts.len() + 2 - i,
        {
            assert(pv[i as int] == parts@[i as int]@);
            let ghost i0 = i as int;
            match spotify_kind_exec(&parts[i]) {
                Some(k) => {
                    kind = Some(k);
                    if i + 1 < parts.len() {
                        id = Some(parts[i + 1].clone());
                        assert(pv[i0 + 1] == parts@[i0 + 1]@);
                        i = i + 2;
                    } else {
                        id = None;
                        i = parts.len();
                        assert(spotify_scan(pv, i0 + 2, Some(k), None) == (
                            Some(k),
                            None::<Seq<char>>,
                        ));
                        assert(spotify_scan(pv, i as int, Some(k), None) == (
                            Some(k),
                            None::<Seq<char>>,
                        ));
                    }
                },
                None => {
                    i = i + 1;
                },
            }
        }
        match (kind, id) {
            (Some(k), Some(x)) => {
                let pieces = split_exec(&x, CharClass::Question);
                proof {
                    assert(split_class(x@, CharClass::Question).len() > 0);
                }
                let first = pieces[0].clone();
                Some(SpotifyRef { kind: k, id: string_from(&first) })
            },
            _ => None,
        }
    }
}

// ── yt-dlp entries ──────────────────────────────────────────────────────

/// The fields of one JSON object printed by `yt-dlp -j`.
#[derive(Debug, Clone)]
pub struct YtDlpEntry {
    pub title: Option<String>,
    pub uploader: Option<String>,
    pub channel: Option<String>,
    /// `duration`, truncated to whole seconds.
    pub duration_secs: Option<u64>,
    pub thumbnail: Option<String>,
    pub webpage_url: Option<String>,
    pub url: Option<String>,
    pub is_live: Option<bool>,
}

/// One JSON value from yt-dlp: its `_type` (when a string) and its fields
/// (`None` when they do not decode).
#[derive(Debug, Clone)]
pub struct YtDlpValue {
    pub type_tag: Option<String>,
    pub entry: Option<YtDlpEntry>,
}

/// One output line of a flat playlist dump: the value, and the values of
/// its `entries` array (empty when it has none).
#[derive(Debug, Clone)]
pub struct YtDlpLine {
    pub value: YtDlpValue,
    pub entries: Vec<YtDlpValue>,
}

pub open spec fn is_playlist_value(v: YtDlpValue) -> bool {
    v.type_tag matches Some(t) && t@ == "playlist"@
}

/// `webpage_url`, else `url`, when it is an `http` URL or a `...search:`
/// query.
pub open spec fn entry_link(e: YtDlpEntry) -> Option<Seq<char>> {
    let u = match e.webpage_url {
        Some(w) => Some(w@),
        None => opt_view(e.url),
    };
    match u {
        Some(x) => if starts_with(x, "http"@) || contains_seq(x, "search:"@) {
            Some(x)
        } else {
            None
        },
        None => None,
    }
}

/// The metadata of a playable entry; `None` for playlists, undecodable
/// values and entries without a usable link.
pub open spec fn entry_meta(v: YtDlpValue, spotify: bool, ui: Option<Seq<char>>) -> Option<
    MetaView,
> {
    if is_playlist_value(v) {
        None
    } else {
        match v.entry {
            None => None,
            Some(e) => match entry_link(e) {
                None => None,
                Some(link) => Some(
                    MetaView {
                        webpage_url: link,
                        title: or_text(e.title, "Unknown"@),
                        author: match e.channel {
                            Some(c) => c@,
                            None => or_text(e.uploader, "Unknown"@),
                        },
                        duration_secs: match e.duration_secs {
                            Some(d) => if d > 0 {
                                Some(d)
                            } else {
                                None
                            },
                            None => None,
                        },
                        thumbnail: or_text(e.thumbnail, Seq::empty()),
                        is_live: match e.is_live {
                            Some(b) => b,
                            None => false,
                        },
                        is_spotify_match: spotify,
                        ui_link: ui,
                    },
                ),
            },
        }
    }
}

fn is_playlist_value_exec(v: &YtDlpValue) -> (b: bool)
    ensures
        b == is_playlist_value(*v),
{
    match &v.type_tag {
        Some(t) => chars_eq_str(&chars_of(t.as_str()), "playlist"),
        None => false,
    }
}

/// Reads one yt-dlp value as a playable entry.
pub fn parse_entry(v: &YtDlpValue, spotify: bool, ui_link: Option<String>) -> (r: Option<
    ResolvedMeta,
>)
    ensures
        r matches Some(m) ==> entry_meta(*v, spotify, opt_view(ui_link)) == Some(m@),
        r is None ==> entry_meta(*v, spotify, opt_view(ui_link)) is None,
{
    proof {
        reveal_strlit("");
    }
    if is_playlist_value_exec(v) {
        return None;
    }
    let e = match &v.entry {
        Some(e) => e,
        None => return None,
    };
    let link = match &e.webpage_url {
        Some(w) => w.clone(),
        None => match &e.url {
            Some(u) => u.clone(),
            None => return None,
        },
    };
    let lv = chars_of(link.as_str());
    if !(starts_with_exec(&lv, "http") || contains_exec(&lv, "search:")) {
        return None;
    }
    let author = match &e.channel {
        Some(c) => c.clone(),
        None => text_or(&e.uploader, "Unknown"),
    };
    let duration_secs = match e.duration_secs {
        Some(d) => if d > 0 {
            Some(d)
        } else {
            None
        },
        None => None,
    };
    let is_live = match e.is_live {
        Some(b) => b,
        None => false,
    };
    Some(
        ResolvedMeta {
            webpage_url: link,
            title: text_or(&e.title, "Unknown"),
            author,
            duration_secs,
            thumbnail: text_or(&e.thumbnail, ""),
            is_live,
            is_spotify_match: spotify,
            ui_link,
        },
    )
}

/// The first playable entry among `vals`.
pub open spec fn first_meta(vals: Seq<YtDlpValue>) -> Option<MetaView>
    decreases vals.len(),
{
    if vals.len() == 0 {
        None
    } else {
        match entry_meta(vals[0], false, None) {
            Some(m) => Some(m),
            None => first_meta(vals.drop_first()),
        }
    }
}

pub open spec fn no_results_msg(query: Seq<char>) -> Seq<char> {
    "No results for `"@ + query + "`"@
}

/// The result of a single-video yt-dlp lookup for `query`: the first
/// playable entry among the values it printed.
pub fn extract_result(values: &Vec<YtDlpValue>, query: &str) -> (r: Result<ResolvedMeta, String>)
    ensures
        r matches Ok(m) ==> first_meta(values@) == Some(m@),
        r matches Err(e) ==> first_meta(values@) is None && e@ == no_results_msg(query@),
{
    let mut i: usize = 0;
    assert(values@.skip(0) =~= values@);
    while i < values.len()
        invariant
            i <= values@.len(),
            first_meta(values@) == first_meta(values@.skip(i as int)),
        decreases values.len() - i,
    {
        assert(values@.skip(i as int)[0] == values@[i as int]);
        match parse_entry(&values[i], false, None) {
            Some(m) => {
                return Ok(m);
            },
            None => {},
        }
        assert(values@.skip(i as int).drop_first() =~= values@.skip(i + 1));
        i += 1;
    }
    assert(values@.skip(i as int) =~= Seq::<YtDlpValue>::empty());
    Err(concat3("No results for `", query, "`"))
}

/// The playable entries among `vs`, in order.
pub open spec fn value_metas(vs: Seq<YtDlpValue>) -> Seq<MetaView>
    decreases vs.len(),
{
    if vs.len() == 0 {
        Seq::empty()
    } else {
        value_metas(vs.drop_last()) + match entry_meta(vs.last(), false, None) {
            Some(m) => seq![m],
            None => Seq::empty(),
        }
    }
}

/// A playlist line contributes its entries; any other line itself.
pub open spec fn line_metas(l: YtDlpLine) -> Seq<MetaView> {
    if is_playlist_value(l.value) {
        value_metas(l.entries@)
    } else {
        value_metas(seq![l.value])
    }
}

pub open spec fn lines_metas(ls: Seq<YtDlpLine>) -> Seq<MetaView>
    decreases ls.len(),
{
    if ls.len() == 0 {
        Seq::empty()
    } else {
        lines_metas(ls.drop_last()) + line_metas(ls.last())
    }
}

fn push_value_meta(out: &mut Vec<ResolvedMeta>, v: &YtDlpValue)
    ensures
        metas_view(final(out)@) == metas_view(old(out)@) + value_metas(seq![*v]),
{
    let ghost before = metas_view(out@);
    assert(seq![*v].drop_last() =~= Seq::<YtDlpValue>::empty());
    assert(value_metas(Seq::<YtDlpValue>::empty()) =~= Seq::<MetaView>::empty());
    assert(seq![*v].last() == *v);
    match parse_entry(v, false, None) {
        Some(m) => {
            out.push(m);
            assert(metas_view(out@) =~= before + seq![m@]);
        },
        None => {
            assert(metas_view(out@) =~= before + Seq::<MetaView>::empty());
        },
    }
}

fn push_value_metas(out: &mut Vec<ResolvedMeta>, vs: &Vec<YtDlpValue>)
    ensures
        metas_view(final(out)@) == metas_view(old(out)@) + value_metas(vs@),
{
    let ghost start = metas_view(out@);
    let mut i: usize = 0;
    assert(vs@.take(0) =~= Seq::<YtDlpValue>::empty());
    assert(start + Seq::<MetaView>::empty() =~= start);
    while i < vs.len()
        invariant
            i <= vs@.len(),
            metas_view(out@) == start + value_metas(vs@.take(i as int)),
        decreases vs.len() - i,
    {
        assert(vs@.take(i + 1).drop_last() =~= vs@.take(i as int));
        assert(vs@.take(i + 1).last() == vs@[i as int]);
        let ghost before = metas_view(out@);
        match parse_entry(&vs[i], false, None) {
            Some(m) => {
                out.push(m);
                assert(metas_view(out@) =~= before.push(m@));
                assert(before + seq![m@] =~= before.push(m@));
            },
            None => {
                assert(before + Seq::<MetaView>::empty() =~= before);
            },
        }
        i += 1;
        assert(metas_view(out@) =~= start + value_metas(vs@.take(i as int)));
    }
    assert(vs@.take(vs@.len() as int) =~= vs@);
}

/// The tracks of a flat yt-dlp playlist dump, one line per value.
pub fn playlist_result(lines: &Vec<YtDlpLine>) -> (r: Result<Vec<ResolvedMeta>, String>)
    ensures
        r matches Ok(v) ==> metas_view(v@) == lines_metas(lines@) && v@.len() > 0,
        r matches Err(e) ==> lines_metas(lines@).len() == 0 && e@
            == "Playlist empty or failed to load"@,
{
    let mut out: Vec<ResolvedMeta> = Vec::new();
    let mut i: usize = 0;
    assert(lines@.take(0) =~= Seq::<YtDlpLine>::empty());
    assert(metas_view(out@) =~= Seq::<MetaView>::empty());
    while i < lines.len()
        invariant
            i <= lines@.len(),
            metas_view(out@) == lines_metas(lines@.take(i as int)),
        decreases lines.len() - i,
    {
        assert(lines@.take(i + 1).drop_last() =~= lines@.take(i as int));
        assert(lines@.take(i + 1).last() == lines@[i as int]);
        let line = &lines[i];
        if is_playlist_value_exec(&line.value) {
            push_value_metas(&mut out, &line.entries);
        } else {
            push_value_meta(&mut out, &line.value);
        }
        i += 1;
    }
    assert(lines@.take(lines@.len() as int) =~= lines@);
    if out.len() == 0 {
        return Err("Playlist empty or failed to load".to_owned());
    }
    Ok(out)
}

// ── YouTube Music search rows ───────────────────────────────────────────

/// The parts of a `musicResponsiveListItemRenderer` that a search reads.
#[derive(Debug, Clone)]
pub struct YtmItem {
    /// `playlistItemData.videoId`: `None` when absent, `Some(None)` when
    /// present but not a string.
    pub playlist_video_id: Option<Option<String>>,
    /// The `videoId` of the play button overlay, read the same way.
    pub overlay_video_id: Option<Option<String>>,
    /// For each flex column, the `text` of each of its runs (`None` where
    /// it is not a string); a column without runs has none.
    pub columns: Vec<Vec<Option<String>>>,
    /// The `url` of each thumbnail, in order.
    pub thumbnails: Vec<Option<String>>,
}

/// The run texts of a column, concatenated.
pub open spec fn runs_text(runs: Seq<Option<String>>) -> Seq<char>
    decreases runs.len(),
{
    if runs.len() == 0 {
        Seq::empty()
    } else {
        runs_text(runs.drop_last()) + or_text(runs.last(), Seq::empty())
    }
}

/// The non-empty column texts of `cols`, in order.
pub open spec fn filled_texts(cols: Seq<Vec<Option<String>>>) -> Seq<Seq<char>>
    decreases cols.len(),
{
    if cols.len() == 0 {
        Seq::empty()
    } else {
        let prev = filled_texts(cols.drop_last());
        let t = runs_text(cols.last()@);
        if t.len() == 0 {
            prev
        } else {
            prev.push(t)
        }
    }
}

/// `ps` joined with " • ".
pub open spec fn join_bullets(ps: Seq<Seq<char>>) -> Seq<char>
    decreases ps.len(),
{
    if ps.len() == 0 {
        Seq::empty()
    } else if ps.len() == 1 {
        ps[0]
    } else {
        join_bullets(ps.drop_last()) + " \u{2022} "@ + ps.last()
    }
}

/// The title column (the first).
pub open spec fn ytm_raw_title(cols: Seq<Vec<Option<String>>>) -> Seq<char> {
    if cols.len() > 0 {
        runs_text(cols[0]@)
    } else {
        Seq::empty()
    }
}

/// Every column after the title that has text, joined with bullets: the
/// "Artist • Album • 3:22" line (or "Song • Artist • 3:22").
pub open spec fn ytm_meta_text(cols: Seq<Vec<Option<String>>>) -> Seq<char> {
    if cols.len() <= 1 {
        Seq::empty()
    } else {
        join_bullets(filled_texts(cols.skip(1)))
    }
}

pub open spec fn ytm_has_video(it: YtmItem) -> bool {
    it.playlist_video_id is Some || it.overlay_video_id is Some
}

pub open spec fn ytm_video_id(it: YtmItem) -> Seq<char> {
    match it.playlist_video_id {
        Some(Some(v)) => v@,
        _ => match it.overlay_video_id {
            Some(Some(v)) => v@,
            _ => Seq::empty(),
        },
    }
}

pub open spec fn ytm_thumbnail(it: YtmItem) -> Seq<char> {
    if it.thumbnails@.len() > 0 {
        or_text(it.thumbnails@.last(), Seq::empty())
    } else {
        Seq::empty()
    }
}

/// What a YouTube Music row resolves to.
pub open spec fn ytm_meta(it: YtmItem) -> MetaView {
    let raw = ytm_raw_title(it.columns@);
    let (author, duration) = parse_ytm_meta_spec(ytm_meta_text(it.columns@));
    MetaView {
        webpage_url: "https://www.youtube.com/watch?v="@ + ytm_video_id(it),
        title: crate::state::clean_title_spec(
            if raw.len() == 0 {
                "Unknown"@
            } else {
                raw
            },
        ),
        author: if author.len() == 0 {
            "Unknown"@
        } else {
            author
        },
        duration_secs: duration,
        thumbnail: ytm_thumbnail(it),
        is_live: false,
        is_spotify_match: false,
        ui_link: None,
    }
}

/// The first row that carries a video id.
pub open spec fn first_video_row(items: Seq<YtmItem>) -> Option<YtmItem>
    decreases items.len(),
{
    if items.len() == 0 {
        None
    } else if ytm_has_video(items[0]) {
        Some(items[0])
    } else {
        first_video_row(items.drop_first())
    }
}

/// The row a YouTube Music search takes is the first row that carries a
/// video id (in its playlist data or its play-button overlay).
pub proof fn lemma_first_video_row(items: Seq<YtmItem>)
    ensures
        first_video_row(items) matches Some(it) ==> exists|i: int|
            0 <= i < items.len() && items[i] == it && (it.playlist_video_id is Some
                || it.overlay_video_id is Some) && forall|j: int|
                0 <= j < i ==> (#[trigger] items[j]).playlist_video_id is None
                    && items[j].overlay_video_id is None,
        first_video_row(items) is None ==> forall|i: int|
            0 <= i < items.len() ==> (#[trigger] items[i]).playlist_video_id is None
                && items[i].overlay_video_id is None,
    decreases items.len(),
{
    if items.len() > 0 && !ytm_has_video(items[0]) {
        let rest = items.drop_first();
        lemma_first_video_row(rest);
        if let Some(it) = first_video_row(rest) {
            let i = choose|i: int|
                0 <= i < rest.len() && rest[i] == it && (it.playlist_video_id is Some
                    || it.overlay_video_id is Some) && forall|j: int|
                    0 <= j < i ==> (#[trigger] rest[j]).playlist_video_id is None
                        && rest[j].overlay_video_id is None;
            assert(items[i + 1] == it);
            assert forall|j: int| 0 <= j < i + 1 implies (#[trigger] items[j]).playlist_video_id is None
                && items[j].overlay_video_id is None by {
                if j > 0 {
                    assert(items[j] == rest[j - 1]);
                }
            }
        } else {
            assert forall|i: int| 0 <= i < items.len() implies (#[trigger] items[i]).playlist_video_id is None
                && items[i].overlay_video_id is None by {
                if i > 0 {
                    assert(items[i] == rest[i - 1]);
                }
            }
        }
    } else if items.len() > 0 {
        assert(items[0] == items[0]);
    }
}

fn runs_text_exec(runs: &Vec<Option<String>>) -> (r: Vec<char>)
    ensures
        r@ == runs_text(runs@),
{
    let mut out: Vec<char> = Vec::new();
    let mut i: usize = 0;
    assert(runs@.take(0) =~= Seq::<Option<String>>::empty());
    while i < runs.len()
        invariant
            i <= runs@.len(),
            out@ == runs_text(runs@.take(i as int)),
        decreases runs.len() - i,
    {
        assert(runs@.take(i + 1).drop_last() =~= runs@.take(i as int));
        assert(runs@.take(i + 1).last() == runs@[i as int]);
        match &runs[i] {
            Some(t) => crate::text::push_str(&mut out, t.as_str()),
            None => {
                assert(out@ + Seq::<char>::empty() =~= out@);
            },
        }
        i += 1;
    }
    assert(runs@.take(runs@.len() as int) =~= runs@);
    out
}

fn ytm_meta_text_exec(cols: &Vec<Vec<Option<String>>>) -> (r: String)
    ensures
        r@ == ytm_meta_text(cols@),
{
    let mut out: Vec<char> = Vec::new();
    if cols.len() <= 1 {
        return string_from(&out);
    }
    let ghost tail = cols@.skip(1);
    let mut k: usize = 1;
    let mut count: usize = 0;
    assert(tail.take(0) =~= Seq::<Vec<Option<String>>>::empty());
    while k < cols.len()
        invariant
            1 <= k <= cols@.len(),
            tail == cols@.skip(1),
            count == filled_texts(tail.take(k - 1)).len(),
            count <= k,
            out@ == join_bullets(filled_texts(tail.take(k - 1))),
        decreases cols.len() - k,
    {
        assert(tail.take(k as int).drop_last() =~= tail.take(k - 1));
        assert(tail.take(k as int).last() == cols@[k as int]);
        let t = runs_text_exec(&cols[k]);
        if t.len() > 0 {
            let ghost prev = filled_texts(tail.take(k - 1));
            assert(prev.push(t@).drop_last() =~= prev);
            if count > 0 {
                crate::text::push_str(&mut out, " \u{2022} ");
            }
            crate::text::push_all(&mut out, &t);
            count += 1;
        }
        k += 1;
    }
    assert(tail.take(k - 1) =~= tail);
    string_from(&out)
}

/// The track a YouTube Music search found for `query`: the first row with
/// a video id, read as a watch URL, cleaned title, artist and duration.
pub fn ytmusic_result(items: &Vec<YtmItem>, query: &str) -> (r: Result<ResolvedMeta, String>)
    ensures
        r matches Ok(m) ==> first_video_row(items@) matches Some(it) && m@ == ytm_meta(it),
        r matches Err(e) ==> first_video_row(items@) is None && e@
            == "No results on YouTube Music for `"@ + query@ + "`"@,
{
    let mut i: usize = 0;
    assert(items@.skip(0) =~= items@);
    while i < items.len()
        invariant
            i <= items@.len(),
            first_video_row(items@) == first_video_row(items@.skip(i as int)),
        decreases items.len() - i,
    {
        assert(items@.skip(i as int)[0] == items@[i as int]);
        let it = &items[i];
        if it.playlist_video_id.is_some() || it.overlay_video_id.is_some() {
            return Ok(ytm_row_meta(it));
        }
        assert(items@.skip(i as int).drop_first() =~= items@.skip(i + 1));
        i += 1;
    }
    assert(items@.skip(i as int) =~= Seq::<YtmItem>::empty());
    Err(concat3("No results on YouTube Music for `", query, "`"))
}

fn ytm_row_meta(it: &YtmItem) -> (m: ResolvedMeta)
    ensures
        m@ == ytm_meta(*it),
{
    proof {
        reveal_strlit("Unknown");
    }
    let video_id: String = match &it.playlist_video_id {
        Some(Some(v)) => v.clone(),
        _ => match &it.overlay_video_id {
            Some(Some(v)) => v.clone(),
            _ => String::new(),
        },
    };
    let raw_title: Vec<char> = if it.columns.len() > 0 {
        runs_text_exec(&it.columns[0])
    } else {
        Vec::new()
    };
    let meta_text = ytm_meta_text_exec(&it.columns);
    let (author, duration_secs) = parse_ytm_meta(meta_text.as_str());
    let thumbnail = if it.thumbnails.len() > 0 {
        text_or(&it.thumbnails[it.thumbnails.len() - 1], "")
    } else {
        String::new()
    };
    proof {
        reveal_strlit("");
    }
    let author = if chars_of(author.as_str()).len() == 0 {
        "Unknown".to_owned()
    } else {
        author
    };
    ResolvedMeta {
        webpage_url: crate::text::concat_str("https://www.youtube.com/watch?v=", video_id.as_str()),
        title: clean_ytm_title(string_from(&raw_title).as_str()),
        author,
        duration_secs,
        thumbnail,
        is_live: false,
        is_spotify_match: false,
        ui_link: None,
    }
}

// ── SoundCloud search hits ──────────────────────────────────────────────

/// One item of a SoundCloud search `collection`.
#[derive(Debug, Clone)]
pub struct ScItem {
    pub kind: String,
    pub permalink_url: Option<String>,
    pub title: Option<String>,
    /// Milliseconds.
    pub duration: Option<u64>,
    pub artwork_url: Option<String>,
    /// `user.username`.
    pub username: Option<String>,
}

pub open spec fn sc_is_track(it: ScItem) -> bool {
    it.kind@ == "track"@ && it.permalink_url is Some
}

pub open spec fn sc_meta(it: ScItem) -> MetaView {
    MetaView {
        webpage_url: or_text(it.permalink_url, Seq::empty()),
        title: or_text(it.title, "Unknown"@),
        author: or_text(it.username, Seq::empty()),
        duration_secs: match it.duration {
            Some(ms) => Some((ms / 1000) as u64),
            None => None,
        },
        thumbnail: or_text(it.artwork_url, Seq::empty()),
        is_live: false,
        is_spotify_match: false,
        ui_link: None,
    }
}

/// The first track with a permalink.
pub open spec fn first_sc_track(items: Seq<ScItem>) -> Option<ScItem>
    decreases items.len(),
{
    if items.len() == 0 {
        None
    } else if sc_is_track(items[0]) {
        Some(items[0])
    } else {
        first_sc_track(items.drop_first())
    }
}

/// The track a SoundCloud search found for `query`.
pub fn soundcloud_result(items: &Vec<ScItem>, query: &str) -> (r: Result<ResolvedMeta, String>)
    ensures
        r matches Ok(m) ==> first_sc_track(items@) matches Some(it) && m@ == sc_meta(it),
        r matches Err(e) ==> first_sc_track(items@) is None && e@
            == "No results on SoundCloud for `"@ + query@ + "`"@,
{
    proof {
        reveal_strlit("");
    }
    let mut i: usize = 0;
    assert(items@.skip(0) =~= items@);
    while i < items.len()
        invariant
            i <= items@.len(),
            first_sc_track(items@) == first_sc_track(items@.skip(i as int)),
        decreases items.len() - i,
    {
        assert(items@.skip(i as int)[0] == items@[i as int]);
        let it = &items[i];
        if chars_eq_str(&chars_of(it.kind.as_str()), "track") && it.permalink_url.is_some() {
            proof {
                reveal_strlit("");
            }
            let duration_secs = match it.duration {
                Some(ms) => Some(ms / 1000),
                None => None,
            };
            return Ok(
                ResolvedMeta {
                    webpage_url: text_or(&it.permalink_url, ""),
                    title: text_or(&it.title, "Unknown"),
                    author: text_or(&it.username, ""),
                    duration_secs,
                    thumbnail: text_or(&it.artwork_url, ""),
                    is_live: false,
                    is_spotify_match: false,
                    ui_link: None,
                },
            );
        }
        assert(items@.skip(i as int).drop_first() =~= items@.skip(i + 1));
        i += 1;
    }
    assert(items@.skip(i as int) =~= Seq::<ScItem>::empty());
    Err(concat3("No results on SoundCloud for `", query, "`"))
}

// ── Spotify metadata ────────────────────────────────────────────────────

/// A track object of the Spotify Web API.
#[derive(Debug, Clone)]
pub struct SpTrack {
    pub name: String,
    /// The artists' names, in order.
    pub artists: Vec<String>,
    /// `duration_ms`, already in whole seconds (see `ms_to_secs`).
    pub duration_secs: Option<u64>,
    /// The `url` of each image of the track's album.
    pub album_images: Vec<String>,
}

/// Milliseconds to whole seconds, as the track deserializer reads
/// `duration_ms`.
pub fn ms_to_secs(ms: Option<u64>) -> (r: Option<u64>)
    ensures
        r == (match ms {
            Some(x) => Some((x / 1000) as u64),
            None => None::<u64>,
        }),
{
    match ms {
        Some(x) => Some(x / 1000),
        None => None,
    }
}

pub open spec fn sp_artist(t: SpTrack) -> Seq<char> {
    if t.artists@.len() > 0 {
        t.artists@[0]@
    } else {
        Seq::empty()
    }
}

/// A Spotify track, to be matched on YouTube by "artist title".
pub open spec fn sp_meta_spec(t: SpTrack, ui: Seq<char>) -> MetaView {
    MetaView {
        webpage_url: youtube_search_spec(sp_artist(t) + " "@ + t.name@),
        title: t.name@,
        author: sp_artist(t),
        duration_secs: t.duration_secs,
        thumbnail: if t.album_images@.len() > 0 {
            t.album_images@[0]@
        } else {
            Seq::empty()
        },
        is_live: false,
        is_spotify_match: true,
        ui_link: Some(ui),
    }
}

pub fn sp_meta(t: &SpTrack, ui: String) -> (m: ResolvedMeta)
    ensures
        m@ == sp_meta_spec(*t, ui@),
{
    proof {
        reveal_strlit("");
    }
    let artist = if t.artists.len() > 0 {
        t.artists[0].clone()
    } else {
        String::new()
    };
    let q = concat3(artist.as_str(), " ", t.name.as_str());
    let thumbnail = if t.album_images.len() > 0 {
        t.album_images[0].clone()
    } else {
        String::new()
    };
    ResolvedMeta {
        webpage_url: youtube_search(q.as_str()),
        title: t.name.clone(),
        author: artist,
        duration_secs: t.duration_secs,
        thumbnail,
        is_live: false,
        is_spotify_match: true,
        ui_link: Some(ui),
    }
}

/// The album tracks that decoded and have a name.
pub open spec fn album_metas_spec(items: Seq<Option<SpTrack>>, label: Seq<char>) -> Seq<MetaView>
    decreases items.len(),
{
    if items.len() == 0 {
        Seq::empty()
    } else {
        album_metas_spec(items.drop_last(), label) + match items.last() {
            Some(t) => if t.name@.len() > 0 {
                seq![sp_meta_spec(t, label)]
            } else {
                Seq::empty()
            },
            None => Seq::empty(),
        }
    }
}

/// Appends the tracks of one page of an album (`None` where an item did not
/// decode as a track) to `metas`.
pub fn push_album_page(metas: &mut Vec<ResolvedMeta>, items: &Vec<Option<SpTrack>>, label: &str)
    ensures
        metas_view(final(metas)@) == metas_view(old(metas)@) + album_metas_spec(items@, label@),
{
    let ghost start = metas_view(metas@);
    let mut i: usize = 0;
    assert(items@.take(0) =~= Seq::<Option<SpTrack>>::empty());
    assert(start + Seq::<MetaView>::empty() =~= start);
    while i < items.len()
        invariant
            i <= items@.len(),
            metas_view(metas@) == start + album_metas_spec(items@.take(i as int), label@),
        decreases items.len() - i,
    {
        assert(items@.take(i + 1).drop_last() =~= items@.take(i as int));
        assert(items@.take(i + 1).last() == items@[i as int]);
        let ghost before = metas_view(metas@);
        match &items[i] {
            Some(t) => {
                if chars_of(t.name.as_str()).len() > 0 {
                    let m = sp_meta(t, label.to_owned());
                    metas.push(m);
                    assert(metas_view(metas@) =~= before + seq![m@]);
                } else {
                    assert(metas_view(metas@) =~= before + Seq::<MetaView>::empty());
                }
            },
            None => {
                assert(metas_view(metas@) =~= before + Seq::<MetaView>::empty());
            },
        }
        i += 1;
        assert(metas_view(metas@) =~= start + album_metas_spec(items@.take(i as int), label@));
    }
    assert(items@.take(items@.len() as int) =~= items@);
}

/// `metas` when it is not empty, else `msg` as the error.
pub fn non_empty_result(metas: Vec<ResolvedMeta>, msg: &str) -> (r: Result<Vec<ResolvedMeta>, String>)
    ensures
        r matches Ok(v) ==> v@ == metas@ && metas@.len() > 0,
        r matches Err(e) ==> metas@.len() == 0 && e@ == msg@,
{
    if metas.len() == 0 {
        Err(msg.to_owned())
    } else {
        Ok(metas)
    }
}

/// The first track of a collection, for a link that should play one track.
pub fn first_of_collection(metas: Vec<ResolvedMeta>) -> (r: Result<ResolvedMeta, String>)
    ensures
        r matches Ok(m) ==> metas@.len() > 0 && m == metas@[0],
        r matches Err(e) ==> metas@.len() == 0 && e@ == "Spotify collection was empty"@,
{
    let mut metas = metas;
    if metas.len() == 0 {
        return Err("Spotify collection was empty".to_owned());
    }
    Ok(metas.remove(0))
}

// ── YouTube Music search responses ──────────────────────────────────────

/// The member that marks a result row in a YouTube Music response.
pub open spec fn row_key() -> Seq<char> {
    "musicResponsiveListItemRenderer"@
}

/// Every result row of a YouTube Music response, in document order: an
/// object's own row member first, then the rows inside each of its members,
/// and the rows inside each element of an array.
pub open spec fn rows_in(v: JsonValue) -> Seq<JsonValue>
    decreases v,
{
    match v {
        JsonValue::Obj(es) => own_row(es@) + rows_in_entries(es@),
        JsonValue::Arr(a) => rows_in_values(a@),
        _ => Seq::empty(),
    }
}

/// The row member of an object, if it has one.
pub open spec fn own_row(es: Seq<(String, JsonValue)>) -> Seq<JsonValue> {
    match field_spec(es, row_key()) {
        Some(x) => seq![x],
        None => Seq::empty(),
    }
}

pub open spec fn rows_in_entries(es: Seq<(String, JsonValue)>) -> Seq<JsonValue>
    decreases es,
{
    if es.len() == 0 {
        Seq::empty()
    } else {
        rows_in_entries(es.drop_last()) + rows_in(es.last().1)
    }
}

pub open spec fn rows_in_values(a: Seq<JsonValue>) -> Seq<JsonValue>
    decreases a,
{
    if a.len() == 0 {
        Seq::empty()
    } else {
        rows_in_values(a.drop_last()) + rows_in(a.last())
    }
}

/// The elements of an array value; none for anything else.
pub open spec fn arr_items(v: Option<JsonValue>) -> Seq<JsonValue> {
    match v {
        Some(JsonValue::Arr(a)) => a@,
        _ => Seq::empty(),
    }
}

/// A member read as optional text: `None` when absent, `Some(None)` when
/// present but not a string.
pub open spec fn opt_text(v: Option<JsonValue>) -> Option<Option<String>> {
    match v {
        Some(x) => Some(str_spec(Some(x))),
        None => None,
    }
}

pub open spec fn overlay_video_node(row: JsonValue) -> Option<JsonValue> {
    step_spec(
        step_spec(
            step_spec(
                step_spec(
                    step_spec(
                        step_spec(get_spec(row, "overlay"@), "musicItemThumbnailOverlayRenderer"@),
                        "content"@,
                    ),
                    "musicPlayButtonRenderer"@,
                ),
                "playNavigationEndpoint"@,
            ),
            "watchEndpoint"@,
        ),
        "videoId"@,
    )
}

/// The run texts of a flex column.
pub open spec fn column_runs(col: JsonValue) -> Seq<Option<String>> {
    arr_items(
        step_spec(
            step_spec(get_spec(col, "musicResponsiveListItemFlexColumnRenderer"@), "text"@),
            "runs"@,
        ),
    ).map_values(|r: JsonValue| str_spec(get_spec(r, "text"@)))
}

pub open spec fn thumbnail_urls(row: JsonValue) -> Seq<Option<String>> {
    arr_items(
        step_spec(
            step_spec(
                step_spec(get_spec(row, "thumbnail"@), "musicThumbnailRenderer"@),
                "thumbnail"@,
            ),
            "thumbnails"@,
        ),
    ).map_values(|t: JsonValue| str_spec(get_spec(t, "url"@)))
}

/// `item` holds what the result row `row` says.
pub open spec fn ytm_item_is(item: YtmItem, row: JsonValue) -> bool {
    let cols = arr_items(get_spec(row, "flexColumns"@));
    &&& item.playlist_video_id == opt_text(step_spec(get_spec(row, "playlistItemData"@), "videoId"@))
    &&& item.overlay_video_id == opt_text(overlay_video_node(row))
    &&& item.columns@.len() == cols.len()
    &&& forall|i: int| 0 <= i < cols.len() ==> #[trigger] item.columns@[i]@ == column_runs(cols[i])
    &&& item.thumbnails@ == thumbnail_urls(row)
}

/// Each item holds what the row at its position says.
pub open spec fn ytm_items_are(items: Seq<YtmItem>, rows: Seq<JsonValue>) -> bool {
    &&& items.len() == rows.len()
    &&& forall|i: int| 0 <= i < rows.len() ==> ytm_item_is(#[trigger] items[i], rows[i])
}

fn opt_text_of(v: Option<&JsonValue>) -> (r: Option<Option<String>>)
    ensures
        r == opt_text(crate::json::opt_deref(v)),
{
    match v {
        Some(_) => Some(as_string(v)),
        None => None,
    }
}

fn texts_of(a: Option<&JsonValue>, key: &str) -> (r: Vec<Option<String>>)
    ensures
        r@ == arr_items(crate::json::opt_deref(a)).map_values(|x: JsonValue| str_spec(get_spec(x, key@))),
{
    let mut out: Vec<Option<String>> = Vec::new();
    match a {
        Some(JsonValue::Arr(xs)) => {
            let mut i: usize = 0;
            while i < xs.len()
                invariant
                    i <= xs@.len(),
                    out@ == xs@.take(i as int).map_values(|x: JsonValue| str_spec(get_spec(x, key@))),
                decreases xs.len() - i,
            {
                out.push(as_string(get(&xs[i], key)));
                i += 1;
                assert(out@ =~= xs@.take(i as int).map_values(
                    |x: JsonValue| str_spec(get_spec(x, key@)),
                ));
            }
            assert(xs@.take(xs@.len() as int) =~= xs@);
        },
        _ => {},
    }
    out
}

/// Reads one result row.
pub fn ytm_item_from(row: &JsonValue) -> (item: YtmItem)
    ensures
        ytm_item_is(item, *row),
{
    let overlay = step(
        step(
            step(
                step(
                    step(step(get(row, "overlay"), "musicItemThumbnailOverlayRenderer"), "content"),
                    "musicPlayButtonRenderer",
                ),
                "playNavigationEndpoint",
            ),
            "watchEndpoint",
        ),
        "videoId",
    );
    let thumbs = step(
        step(step(get(row, "thumbnail"), "musicThumbnailRenderer"), "thumbnail"),
        "thumbnails",
    );
    let mut columns: Vec<Vec<Option<String>>> = Vec::new();
    let ghost cols = arr_items(get_spec(*row, "flexColumns"@));
    match get(row, "flexColumns") {
        Some(JsonValue::Arr(cs)) => {
            let mut i: usize = 0;
            while i < cs.len()
                invariant
                    i <= cs@.len(),
                    cols == cs@,
                    columns@.len() == i,
                    forall|j: int| 0 <= j < i ==> #[trigger] columns@[j]@ == column_runs(cols[j]),
                decreases cs.len() - i,
            {
                let runs = step(
                    step(get(&cs[i], "musicResponsiveListItemFlexColumnRenderer"), "text"),
                    "runs",
                );
                columns.push(texts_of(runs, "text"));
                i += 1;
            }
        },
        _ => {},
    }
    YtmItem {
        playlist_video_id: opt_text_of(step(get(row, "playlistItemData"), "videoId")),
        overlay_video_id: opt_text_of(overlay),
        columns,
        thumbnails: texts_of(thumbs, "url"),
    }
}

proof fn lemma_items_concat(a: Seq<YtmItem>, ra: Seq<JsonValue>, b: Seq<YtmItem>, rb: Seq<JsonValue>)
    requires
        ytm_items_are(a, ra),
        ytm_items_are(b, rb),
    ensures
        ytm_items_are(a + b, ra + rb),
{
    assert forall|i: int| 0 <= i < (ra + rb).len() implies ytm_item_is(#[trigger] (a + b)[i], (ra + rb)[i]) by {
        if i < ra.len() {
            assert((a + b)[i] == a[i]);
        } else {
            assert((a + b)[i] == b[i - a.len()]);
        }
    }
}

/// The result rows of a YouTube Music response, read, in document order.
pub fn ytm_items(v: &JsonValue) -> (r: Vec<YtmItem>)
    ensures
        ytm_items_are(r@, rows_in(*v)),
    decreases v,
{
    let mut out: Vec<YtmItem> = Vec::new();
    match v {
        JsonValue::Obj(es) => {
            match field(es, "musicResponsiveListItemRenderer") {
                Some(x) => out.push(ytm_item_from(x)),
                None => {},
            }
            let ghost own = out@;
            let ghost own_rows = own_row(es@);
            assert(ytm_items_are(own, own_rows));
            let mut i: usize = 0;
            assert(es@.take(0) =~= Seq::<(String, JsonValue)>::empty());
            while i < es.len()
                invariant
                    i <= es@.len(),
                    *v == JsonValue::Obj(*es),
                    ytm_items_are(out@, own_rows + rows_in_entries(es@.take(i as int))),
                decreases es.len() - i,
            {
                assert(es@.take(i + 1).drop_last() =~= es@.take(i as int));
                assert(es@.take(i + 1).last() == es@[i as int]);
                proof {
                    assert(decreases_to!(*v => (*v)->Obj_0));
                    assert(decreases_to!(*es => es@));
                    assert(decreases_to!(es@ => es@[i as int]));
                    assert(decreases_to!(es@[i as int] => es@[i as int].1));
                    assert(decreases_to!(*v => es@[i as int].1));
                }
                let mut sub = ytm_items(&es[i].1);
                let ghost before = out@;
                proof {
                    lemma_items_concat(before, own_rows + rows_in_entries(es@.take(i as int)), sub@, rows_in(es@[i as int].1));
                    assert(own_rows + rows_in_entries(es@.take(i as int)) + rows_in(es@[i as int].1)
                        =~= own_rows + rows_in_entries(es@.take(i + 1)));
                }
                out.append(&mut sub);
                i += 1;
            }
            assert(es@.take(es@.len() as int) =~= es@);
        },
        JsonValue::Arr(a) => {
            let mut i: usize = 0;
            assert(a@.take(0) =~= Seq::<JsonValue>::empty());
            while i < a.len()
                invariant
                    i <= a@.len(),
                    *v == JsonValue::Arr(*a),
                    ytm_items_are(out@, rows_in_values(a@.take(i as int))),
                decreases a.len() - i,
            {
                assert(a@.take(i + 1).drop_last() =~= a@.take(i as int));
                assert(a@.take(i + 1).last() == a@[i as int]);
                proof {
                    assert(decreases_to!(*v => (*v)->Arr_0));
                    assert(decreases_to!(*a => a@));
                    assert(decreases_to!(a@ => a@[i as int]));
                    assert(decreases_to!(*v => a@[i as int]));
                }
                let mut sub = ytm_items(&a[i]);
                let ghost before = out@;
                proof {
                    lemma_items_concat(before, rows_in_values(a@.take(i as int)), sub@, rows_in(a@[i as int]));
                }
                out.append(&mut sub);
                i += 1;
            }
            assert(a@.take(a@.len() as int) =~= a@);
        },
        _ => {},
    }
    out
}

/// The track a YouTube Music search response (its JSON text) names for
/// `query`: the rows are read in document order and `ytmusic_result` picks.
/// `Err` with the parser's message when the text is not JSON.
pub fn ytmusic_from_json(json: &str, query: &str) -> (r: Result<ResolvedMeta, String>)
    ensures
        json_parse(json@) is None ==> r is Err,
        json_parse(json@) matches Some(doc) ==> exists|items: Seq<YtmItem>|
            #[trigger] ytm_items_are(items, rows_in(doc)) && (match r {
                Ok(m) => first_video_row(items) matches Some(it) && m@ == ytm_meta(it),
                Err(e) => first_video_row(items) is None && e@ == "No results on YouTube Music for `"@
                    + query@ + "`"@,
            }),
{
    let doc = match parse_json(json) {
        Ok(d) => d,
        Err(msg) => return Err(msg),
    };
    let items = ytm_items(&doc);
    let r = ytmusic_result(&items, query);
    assert(ytm_items_are(items@, rows_in(doc)));
    r
}

// ── Spotify embed pages ─────────────────────────────────────────────────

pub open spec fn embed_marker() -> Seq<char> {
    "<script id=\"__NEXT_DATA__\" type=\"application/json\">"@
}

/// The part of `s` before the first occurrence of `p` (all of `s` when `p`
/// does not occur).
pub open spec fn before_first(s: Seq<char>, p: Seq<char>) -> Seq<char> {
    match crate::text::find_seq(s, p) {
        Some(j) => s.take(j),
        None => s,
    }
}

/// The JSON of a Spotify embed page: the text after the first data-script
/// tag, up to the next such tag and then up to the first `</script>`.
pub open spec fn embed_json_spec(html: Seq<char>) -> Option<Seq<char>> {
    match crate::text::find_seq(html, embed_marker()) {
        None => None,
        Some(i) => Some(
            before_first(
                before_first(html.skip(i + embed_marker().len()), embed_marker()),
                "</script>"@,
            ),
        ),
    }
}

fn before_first_exec(s: &Vec<char>, p: &str) -> (r: Vec<char>)
    ensures
        r@ == before_first(s@, p@),
{
    let pv = chars_of(p);
    match crate::text::find_exec(s, &pv) {
        Some(j) => {
            proof {
                crate::text::lemma_find_from_some(s@, pv@, 0);
            }
            crate::text::slice_of(s, 0, j)
        },
        None => s.clone(),
    }
}

/// Cuts the `__NEXT_DATA__` JSON out of a Spotify embed page.
pub fn embed_json(html: &str) -> (r: Option<String>)
    ensures
        r matches Some(j) ==> embed_json_spec(html@) == Some(j@),
        r is None ==> embed_json_spec(html@) is None,
{
    let marker = "<script id=\"__NEXT_DATA__\" type=\"application/json\">";
    let h = chars_of(html);
    let mv = chars_of(marker);
    let hl = h.len();
    let ml = mv.len();
    match crate::text::find_exec(&h, &mv) {
        None => None,
        Some(i) => {
            proof {
                assert(crate::text::find_from(h@, mv@, 0) == Some(i as int));
                crate::text::lemma_find_from_some(h@, mv@, 0);
                assert(crate::text::occurs_at(h@, mv@, i as int));
            }
            let rest = crate::text::slice_of(&h, i + ml, hl);
            assert(rest@ =~= h@.skip(i + ml));
            let piece = before_first_exec(&rest, marker);
            let json = before_first_exec(&piece, "</script>");
            Some(string_from(&json))
        },
    }
}

/// One entry of an embed page's `trackList`.
#[derive(Debug, Clone)]
pub struct EmbedTrack {
    pub title: Option<String>,
    pub subtitle: Option<String>,
    /// Milliseconds.
    pub duration: Option<u64>,
}

pub open spec fn embed_meta(t: EmbedTrack, cover: Seq<char>, ui: Seq<char>) -> MetaView {
    let name = or_text(t.title, Seq::empty());
    let artist = or_text(t.subtitle, Seq::empty());
    MetaView {
        webpage_url: youtube_search_spec(artist + " "@ + name),
        title: name,
        author: if artist.len() == 0 {
            "Unknown"@
        } else {
            artist
        },
        duration_secs: match t.duration {
            Some(ms) => if ms / 1000 > 0 {
                Some((ms / 1000) as u64)
            } else {
                None
            },
            None => None,
        },
        thumbnail: cover,
        is_live: false,
        is_spotify_match: true,
        ui_link: Some(ui),
    }
}

/// The named tracks of a playlist embed, in order.
pub open spec fn embed_metas(list: Seq<EmbedTrack>, cover: Seq<char>, ui: Seq<char>) -> Seq<
    MetaView,
>
    decreases list.len(),
{
    if list.len() == 0 {
        Seq::empty()
    } else {
        embed_metas(list.drop_last(), cover, ui) + if or_text(list.last().title, Seq::empty()).len()
            > 0 {
            seq![embed_meta(list.last(), cover, ui)]
        } else {
            Seq::empty()
        }
    }
}

fn embed_track_meta(t: &EmbedTrack, cover: &str, ui: &str) -> (m: ResolvedMeta)
    ensures
        m@ == embed_meta(*t, cover@, ui@),
{
    proof {
        reveal_strlit("");
    }
    let name = text_or(&t.title, "");
    let artist = text_or(&t.subtitle, "");
    let q = concat3(artist.as_str(), " ", name.as_str());
    let duration_secs = match t.duration {
        Some(ms) => if ms / 1000 > 0 {
            Some(ms / 1000)
        } else {
            None
        },
        None => None,
    };
    let author = if chars_of(artist.as_str()).len() == 0 {
        "Unknown".to_owned()
    } else {
        artist
    };
    ResolvedMeta {
        webpage_url: youtube_search(q.as_str()),
        title: name,
        author,
        duration_secs,
        thumbnail: cover.to_owned(),
        is_live: false,
        is_spotify_match: true,
        ui_link: Some(ui.to_owned()),
    }
}

/// The tracks of a Spotify playlist embed (`cover` is the playlist's cover
/// art, `ui` the playlist's link).
pub fn embed_result(list: &Vec<EmbedTrack>, cover: &str, ui: &str) -> (r: Result<
    Vec<ResolvedMeta>,
    String,
>)
    ensures
        r matches Ok(v) ==> metas_view(v@) == embed_metas(list@, cover@, ui@) && v@.len() > 0,
        r matches Err(e) ==> embed_metas(list@, cover@, ui@).len() == 0 && e@
            == "Playlist empty or failed to load"@,
{
    let mut metas: Vec<ResolvedMeta> = Vec::new();
    let mut i: usize = 0;
    assert(list@.take(0) =~= Seq::<EmbedTrack>::empty());
    assert(metas_view(metas@) =~= Seq::<MetaView>::empty());
    while i < list.len()
        invariant
            i <= list@.len(),
            metas_view(metas@) == embed_metas(list@.take(i as int), cover@, ui@),
        decreases list.len() - i,
    {
        assert(list@.take(i + 1).drop_last() =~= list@.take(i as int));
        assert(list@.take(i + 1).last() == list@[i as int]);
        let ghost before = metas_view(metas@);
        let t = &list[i];
        let has_name = match &t.title {
            Some(n) => chars_of(n.as_str()).len() > 0,
            None => false,
        };
        if has_name {
            let m = embed_track_meta(t, cover, ui);
            metas.push(m);
            assert(metas_view(metas@) =~= before + seq![m@]);
        } else {
            assert(metas_view(metas@) =~= before + Seq::<MetaView>::empty());
        }
        i += 1;
    }
    assert(list@.take(list@.len() as int) =~= list@);
    if metas.len() == 0 {
        return Err("Playlist empty or failed to load".to_owned());
    }
    Ok(metas)
}

/// One `trackList` entry as the embed page holds it.
pub open spec fn embed_track_of(t: JsonValue) -> EmbedTrack {
    EmbedTrack {
        title: str_spec(get_spec(t, "title"@)),
        subtitle: str_spec(get_spec(t, "subtitle"@)),
        duration: u64_spec(get_spec(t, "duration"@)),
    }
}

/// The playlist entity of an embed document
/// (`/props/pageProps/state/data/entity`).
pub open spec fn embed_entity_node(doc: JsonValue) -> Option<JsonValue> {
    step_spec(
        step_spec(step_spec(step_spec(get_spec(doc, "props"@), "pageProps"@), "state"@), "data"@),
        "entity"@,
    )
}

/// The tracks and the cover art URL (`/coverArt/sources/0/url`, empty when
/// absent) of the playlist entity of an embed document; `None` when the
/// document has no entity. A missing or non-array `trackList` lists no
/// tracks.
pub open spec fn embed_entity_spec(doc: JsonValue) -> Option<(Seq<EmbedTrack>, Seq<char>)> {
    match embed_entity_node(doc) {
        None => None,
        Some(e) => Some(
            (
                match get_spec(e, "trackList"@) {
                    Some(JsonValue::Arr(a)) => a@.map_values(|t: JsonValue| embed_track_of(t)),
                    _ => Seq::empty(),
                },
                match str_spec(
                    step_spec(first_spec(step_spec(get_spec(e, "coverArt"@), "sources"@)), "url"@),
                ) {
                    Some(u) => u@,
                    None => Seq::empty(),
                },
            ),
        ),
    }
}

fn embed_track_from(t: &JsonValue) -> (r: EmbedTrack)
    ensures
        r == embed_track_of(*t),
{
    EmbedTrack {
        title: as_string(get(t, "title")),
        subtitle: as_string(get(t, "subtitle")),
        duration: as_u64(get(t, "duration")),
    }
}

/// Reads the tracks and cover art of the playlist entity of an embed
/// document.
pub fn embed_entity(doc: &JsonValue) -> (r: Option<(Vec<EmbedTrack>, String)>)
    ensures
        r matches Some((v, c)) ==> embed_entity_spec(*doc) == Some((v@, c@)),
        r is None ==> embed_entity_spec(*doc) is None,
{
    let e = step(step(step(step(get(doc, "props"), "pageProps"), "state"), "data"), "entity");
    let e = match e {
        Some(e) => e,
        None => return None,
    };
    let mut tracks: Vec<EmbedTrack> = Vec::new();
    match get(e, "trackList") {
        Some(JsonValue::Arr(a)) => {
            let mut i: usize = 0;
            while i < a.len()
                invariant
                    i <= a@.len(),
                    tracks@ == a@.take(i as int).map_values(|t: JsonValue| embed_track_of(t)),
                decreases a.len() - i,
            {
                let t = embed_track_from(&a[i]);
                tracks.push(t);
                i += 1;
                assert(tracks@ =~= a@.take(i as int).map_values(|t: JsonValue| embed_track_of(t)));
            }
            assert(a@.take(a@.len() as int) =~= a@);
        },
        _ => {},
    }
    let cover = match as_string(step(first(step(get(e, "coverArt"), "sources")), "url")) {
        Some(u) => u,
        None => String::new(),
    };
    Some((tracks, cover))
}

/// What a Spotify embed document (its JSON text) resolves to.
pub open spec fn embed_outcome(json: Seq<char>, ui: Seq<char>) -> Option<Result<Seq<MetaView>, Seq<char>>> {
    match json_parse(json) {
        None => None,
        Some(doc) => match embed_entity_spec(doc) {
            None => Some(Err("spotify embed data missing entity"@)),
            Some((list, cover)) => if embed_metas(list, cover, ui).len() == 0 {
                Some(Err("Playlist empty or failed to load"@))
            } else {
                Some(Ok(embed_metas(list, cover, ui)))
            },
        },
    }
}

/// The tracks of a Spotify playlist from the JSON of its embed page (`ui`
/// is the playlist's link): the named entries of the entity's track list.
/// `None` in the outcome means the JSON did not parse, which is reported as
/// `bad embed json: ` and the parser's message.
pub fn resolve_embed_json(json: &str, ui: &str) -> (r: Result<Vec<ResolvedMeta>, String>)
    ensures
        embed_outcome(json@, ui@) is None ==> (r matches Err(e) && crate::text::starts_with(
            e@,
            "bad embed json: "@,
        )),
        embed_outcome(json@, ui@) matches Some(Ok(ms)) ==> (r matches Ok(v) && metas_view(v@)
            == ms),
        embed_outcome(json@, ui@) matches Some(Err(m)) ==> (r matches Err(e) && e@ == m),
{
    let doc = match parse_json(json) {
        Ok(d) => d,
        Err(msg) => {
            let e = crate::text::concat_str("bad embed json: ", msg.as_str());
            proof {
                reveal_strlit("bad embed json: ");
                assert(e@.take(16) =~= "bad embed json: "@);
            }
            return Err(e);
        },
    };
    match embed_entity(&doc) {
        None => Err("spotify embed data missing entity".to_owned()),
        Some((list, cover)) => embed_result(&list, cover.as_str(), ui),
    }
}

// ── request URLs and Apple Music matches ────────────────────────────────

/// `base` followed by the percent-encoded `query`.
pub open spec fn with_encoded(base: Seq<char>, query: &str) -> Seq<char> {
    base + percent_encode(query.spec_bytes())
}

fn append_encoded(base: &str, query: &str) -> (r: String)
    ensures
        r@ == with_encoded(base@, query),
{
    let enc = url_encode(query);
    crate::text::concat_str(base, enc.as_str())
}

/// The SoundCloud search request for `query`.
pub fn soundcloud_search_url(query: &str, client_id: &str) -> (r: String)
    ensures
        r@ == with_encoded("https://api-v2.soundcloud.com/search?q="@, query) + "&client_id="@
            + client_id@ + "&limit=5&offset=0&linked_partitioning=1&facet=model"@,
{
    let head = append_encoded("https://api-v2.soundcloud.com/search?q=", query);
    let mid = concat3(head.as_str(), "&client_id=", client_id);
    crate::text::concat_str(mid.as_str(), "&limit=5&offset=0&linked_partitioning=1&facet=model")
}

/// The Spotify Web API search for the best track match of `query`.
pub fn spotify_search_url(query: &str) -> (r: String)
    ensures
        r@ == with_encoded("https://api.spotify.com/v1/search?type=track&limit=1&q="@, query),
{
    append_encoded("https://api.spotify.com/v1/search?type=track&limit=1&q=", query)
}

/// The Spotify search page for `query`, shown as a matched track's link.
pub fn spotify_search_link(query: &str) -> (r: String)
    ensures
        r@ == with_encoded("https://open.spotify.com/search/"@, query),
{
    append_encoded("https://open.spotify.com/search/", query)
}

/// The iTunes search for the best song match of `query`.
pub fn itunes_search_url(query: &str) -> (r: String)
    ensures
        r@ == with_encoded(
            "https://itunes.apple.com/search?media=music&entity=song&limit=1&term="@,
            query,
        ),
{
    append_encoded("https://itunes.apple.com/search?media=music&entity=song&limit=1&term=", query)
}

/// The YouTube query for an iTunes hit: "artist track".
pub fn itunes_youtube_query(artist: &str, track: &str) -> (r: String)
    ensures
        r@ == artist@ + " "@ + track@,
{
    concat3(artist, " ", track)
}

/// A YouTube match of an Apple Music hit, relabelled: not a Spotify match,
/// linked to the Apple Music search for `query`, with the iTunes artwork
/// (when present and not empty) and the iTunes duration.
pub open spec fn apple_music_spec(
    m: MetaView,
    query: &str,
    artwork: Option<Seq<char>>,
    track_ms: Option<u64>,
) -> MetaView {
    MetaView {
        is_spotify_match: false,
        ui_link: Some(with_encoded("https://music.apple.com/search?term="@, query)),
        thumbnail: match artwork {
            Some(a) => if a.len() > 0 {
                a
            } else {
                m.thumbnail
            },
            None => m.thumbnail,
        },
        duration_secs: match track_ms {
            Some(ms) => Some((ms / 1000) as u64),
            None => None,
        },
        ..m
    }
}

pub fn apple_music_apply(
    m: ResolvedMeta,
    query: &str,
    artwork: Option<String>,
    track_ms: Option<u64>,
) -> (r: ResolvedMeta)
    ensures
        r@ == apple_music_spec(m@, query, opt_view(artwork), track_ms),
{
    let mut m = m;
    m.is_spotify_match = false;
    m.ui_link = Some(append_encoded("https://music.apple.com/search?term=", query));
    match artwork {
        Some(art) => {
            if chars_of(art.as_str()).len() > 0 {
                m.thumbnail = art;
            }
        },
        None => {},
    }
    m.duration_secs = match track_ms {
        Some(ms) => Some(ms / 1000),
        None => None,
    };
    m
}

impl SpotifyKind {
    pub open spec fn word_spec(self) -> Seq<char> {
        match self {
            SpotifyKind::Track => "track"@,
            SpotifyKind::Album => "album"@,
            SpotifyKind::Playlist => "playlist"@,
        }
    }

    /// The word a link uses for this kind.
    pub fn word(self) -> (s: &'static str)
        ensures
            s@ == self.word_spec(),
    {
        match self {
            SpotifyKind::Track => "track",
            SpotifyKind::Album => "album",
            SpotifyKind::Playlist => "playlist",
        }
    }
}

impl SpotifyRef {
    /// The `open.spotify.com` page of the referenced item.
    pub fn page_link(&self) -> (r: String)
        ensures
            r@ == "https://open.spotify.com/"@ + self.kind.word_spec() + "/"@ + self.id@,
    {
        let head = concat3("https://open.spotify.com/", self.kind.word(), "/");
        crate::text::concat_str(head.as_str(), self.id.as_str())
    }

    /// Where the referenced item is read: the Web API for tracks and
    /// albums (first page of 50), the public embed page for playlists.
    pub fn source_url(&self) -> (r: String)
        ensures
            r@ == (match self.kind {
                SpotifyKind::Track => "https://api.spotify.com/v1/tracks/"@ + self.id@,
                SpotifyKind::Album => "https://api.spotify.com/v1/albums/"@ + self.id@
                    + "/tracks?limit=50"@,
                SpotifyKind::Playlist => "https://open.spotify.com/embed/playlist/"@ + self.id@,
            }),
    {
        match self.kind {
            SpotifyKind::Track => crate::text::concat_str(
                "https://api.spotify.com/v1/tracks/",
                self.id.as_str(),
            ),
            SpotifyKind::Album => concat3(
                "https://api.spotify.com/v1/albums/",
                self.id.as_str(),
                "/tracks?limit=50",
            ),
            SpotifyKind::Playlist => crate::text::concat_str(
                "https://open.spotify.com/embed/playlist/",
                self.id.as_str(),
            ),
        }
    }
}

// ── credentials ─────────────────────────────────────────────────────────

/// A cached access token is reused while it has more than a minute left.
pub fn token_fresh(elapsed_secs: u64, ttl_secs: u64) -> (b: bool)
    ensures
        b == (elapsed_secs < (if ttl_secs >= 60 { ttl_secs - 60 } else { 0 })),
{
    elapsed_secs < ttl_secs.saturating_sub(60)
}

/// A SoundCloud client id from the environment is used when it has the
/// 32 bytes of a real one.
pub fn usable_client_id(id: &str) -> (b: bool)
    ensures
        b == (crate::text::utf8_len(id@) == 32),
{
    crate::text::utf8_len_is(&chars_of(id), 32)
}

/// The `Authorization` header of the client-credentials token request.
pub fn basic_auth_header(id: &str, secret: &str) -> (r: String)
    ensures
        r@ == "Basic "@ + base64_spec(vstd::utf8::encode_utf8(id@ + ":"@ + secret@)),
{
    let creds = concat3(id, ":", secret);
    let enc = base64_encode(creds.as_str());
    crate::text::concat_str("Basic ", enc.as_str())
}

// ── SoundCloud client id scraping ───────────────────────────────────────

pub open spec fn strings_view(v: Seq<String>) -> Seq<Seq<char>> {
    v.map_values(|s: String| s@)
}

/// What `regex::Regex::new(pattern)` and then `find_iter(text)` yield: the
/// matched texts in order; `None` when the pattern does not compile.
pub uninterp spec fn regex_find_all(pattern: Seq<char>, text: Seq<char>) -> Option<
    Seq<Seq<char>>,
>;

/// Compiles `pattern` with `regex::Regex::new` and collects the texts of
/// `find_iter(text)`. The contract claims only that the result is a
/// function of the two strings.
#[verifier::external_body]
fn find_all_matches(pattern: &str, text: &str) -> (r: Option<Vec<String>>)
    ensures
        r matches Some(v) ==> regex_find_all(pattern@, text@) == Some(strings_view(v@)),
        r is None ==> regex_find_all(pattern@, text@) is None,
{
    match regex::Regex::new(pattern) {
        Ok(re) => Some(re.find_iter(text).map(|m| m.as_str().to_string()).collect()),
        Err(_) => None,
    }
}

/// What `regex::Regex::new(pattern)` and then `captures(text)` yield for the
/// first capture group: `Some(None)` when nothing matches (or the group did
/// not take part); `None` when the pattern does not compile.
pub uninterp spec fn regex_group1(pattern: Seq<char>, text: Seq<char>) -> Option<
    Option<Seq<char>>,
>;

/// Compiles `pattern` with `regex::Regex::new` and reads group 1 of
/// `captures(text)`. The contract claims only that the result is a function
/// of the two strings.
#[verifier::external_body]
fn first_group1(pattern: &str, text: &str) -> (r: Option<Option<String>>)
    ensures
        r matches Some(Some(g)) ==> regex_group1(pattern@, text@) == Some(Some(g@)),
        r matches Some(None) ==> regex_group1(pattern@, text@) == Some(None::<Seq<char>>),
        r is None ==> regex_group1(pattern@, text@) is None,
{
    match regex::Regex::new(pattern) {
        Ok(re) => Some(re.captures(text).and_then(|c| c.get(1)).map(|m| m.as_str().to_string())),
        Err(_) => None,
    }
}

/// The script assets of the SoundCloud home page.
pub open spec fn sc_asset_pattern() -> Seq<char> {
    r"https://a-v2\.sndcdn\.com/assets/[a-zA-Z0-9-]+\.js"@
}

/// A 32-character client id after `client_id` or inside `"data":{"id":"`.
pub open spec fn sc_id_pattern() -> Seq<char> {
    r#"(?:[?&/]?(?:client_id)[\s:=&]*"?|"data":\{"id":")([A-Za-z0-9]{32})"?"#@
}

/// How many asset scripts are searched for a client id.
pub const SC_ASSET_LIMIT: usize = 12;

/// The first twelve asset script URLs found in the SoundCloud home page.
pub fn sc_asset_urls(html: &str) -> (r: Vec<String>)
    ensures
        strings_view(r@) == (match regex_find_all(sc_asset_pattern(), html@) {
            Some(ms) => if ms.len() > SC_ASSET_LIMIT {
                ms.take(SC_ASSET_LIMIT as int)
            } else {
                ms
            },
            None => Seq::empty(),
        }),
{
    let pattern = r"https://a-v2\.sndcdn\.com/assets/[a-zA-Z0-9-]+\.js";
    match find_all_matches(pattern, html) {
        Some(v) => {
            let mut out: Vec<String> = Vec::new();
            let mut i: usize = 0;
            while i < v.len() && i < SC_ASSET_LIMIT
                invariant
                    i <= v@.len(),
                    i <= SC_ASSET_LIMIT,
                    strings_view(out@) == strings_view(v@).take(i as int),
                decreases v.len() - i,
            {
                let c = v[i].clone();
                let ghost before = out@;
                out.push(c);
                proof {
                    assert(c@ == v@[i as int]@);
                    assert(out@ == before.push(c));
                    assert(strings_view(out@) =~= strings_view(before).push(c@));
                    assert(strings_view(v@).take(i + 1) =~= strings_view(v@).take(i as int).push(
                        c@,
                    ));
                }
                i += 1;
            }
            proof {
                if v@.len() <= SC_ASSET_LIMIT {
                    assert(strings_view(v@).take(i as int) =~= strings_view(v@));
                }
            }
            out
        },
        None => {
            let out: Vec<String> = Vec::new();
            assert(strings_view(out@) =~= Seq::<Seq<char>>::empty());
            out
        },
    }
}

/// The client id that an asset script contains, if any.
pub fn sc_client_id_in(body: &str) -> (r: Option<String>)
    ensures
        opt_view(r) == (match regex_group1(sc_id_pattern(), body@) {
            Some(g) => g,
            None => None,
        }),
{
    let pattern = r#"(?:[?&/]?(?:client_id)[\s:=&]*"?|"data":\{"id":")([A-Za-z0-9]{32})"?"#;
    match first_group1(pattern, body) {
        Some(g) => g,
        None => None,
    }
}

// ── choosing a resolver ─────────────────────────────────────────────────

pub open spec fn platform_enabled(cfg: SourcesConfig, p: SearchPlatform) -> bool {
    match p {
        SearchPlatform::YouTube => cfg.youtube_enabled,
        SearchPlatform::SoundCloud => cfg.soundcloud_enabled,
        SearchPlatform::Spotify => cfg.spotify_enabled,
        SearchPlatform::AppleMusic => cfg.apple_music_enabled,
    }
}

pub open spec fn disabled_msg(p: SearchPlatform) -> Seq<char> {
    match p {
        SearchPlatform::YouTube => "YouTube source is disabled in config.toml"@,
        SearchPlatform::SoundCloud => "SoundCloud source is disabled in config.toml"@,
        SearchPlatform::Spotify => "Spotify source is disabled in config.toml"@,
        SearchPlatform::AppleMusic => "Apple Music source is disabled in config.toml"@,
    }
}

/// How a query is resolved.
pub enum ResolvePlan {
    /// A Spotify link: read from Spotify, matched on YouTube.
    Spotify(SpotifyRef),
    /// A URL: extracted with yt-dlp.
    Extract(String),
    /// A prefixed search on an enabled platform.
    Search(SearchPlatform, String),
    /// A prefixed search on a disabled platform: the error to report.
    Refused(String),
    /// A plain query: tried on each enabled source in turn.
    Chain(String),
}

/// The query with its platform prefix (if any) parsed off.
pub open spec fn stripped_query(raw: Seq<char>) -> (Option<SearchPlatform>, Seq<char>) {
    match parse_prefix_spec(raw) {
        Some((p, q)) => (Some(p), q),
        None => (None, raw),
    }
}

/// Decides how `raw` is resolved: Spotify links first; then, after an
/// optional platform prefix, URLs go to yt-dlp, prefixed queries to their
/// platform (or are refused when it is disabled), and plain text to the
/// fallback chain.
pub fn resolve_plan(raw: &str, cfg: &SourcesConfig) -> (plan: ResolvePlan)
    ensures
        spotify_ref_spec(raw@) matches Some((k, id)) ==> (plan matches ResolvePlan::Spotify(r)
            && r.kind == k && r.id@ == id),
        spotify_ref_spec(raw@) is None && is_url_spec(stripped_query(raw@).1) ==> (
        plan matches ResolvePlan::Extract(u) && u@ == stripped_query(raw@).1),
        spotify_ref_spec(raw@) is None && !is_url_spec(stripped_query(raw@).1) ==> (match stripped_query(
            raw@,
        ).0 {
            Some(p) => if platform_enabled(*cfg, p) {
                (plan matches ResolvePlan::Search(pp, q) && pp == p && q@ == stripped_query(raw@).1)
            } else {
                (plan matches ResolvePlan::Refused(e) && e@ == disabled_msg(p))
            },
            None => (plan matches ResolvePlan::Chain(q) && q@ == raw@),
        }),
{
    match SpotifyRef::parse(raw) {
        Some(r) => {
            return ResolvePlan::Spotify(r);
        },
        None => {},
    }
    let (explicit, stripped) = match parse_prefix(raw) {
        Some((p, q)) => (Some(p), q),
        None => (None, raw.to_owned()),
    };
    if is_url(stripped.as_str()) {
        return ResolvePlan::Extract(stripped);
    }
    match explicit {
        Some(p) => {
            let enabled = match p {
                SearchPlatform::YouTube => cfg.youtube_enabled,
                SearchPlatform::SoundCloud => cfg.soundcloud_enabled,
                SearchPlatform::Spotify => cfg.spotify_enabled,
                SearchPlatform::AppleMusic => cfg.apple_music_enabled,
            };
            if enabled {
                ResolvePlan::Search(p, stripped)
            } else {
                let msg = match p {
                    SearchPlatform::YouTube => "YouTube source is disabled in config.toml",
                    SearchPlatform::SoundCloud => "SoundCloud source is disabled in config.toml",
                    SearchPlatform::Spotify => "Spotify source is disabled in config.toml",
                    SearchPlatform::AppleMusic => "Apple Music source is disabled in config.toml",
                };
                ResolvePlan::Refused(msg.to_owned())
            }
        },
        None => ResolvePlan::Chain(stripped),
    }
}

/// The sources a plain query is tried on, in order.
#[derive(Debug, Clone, Copy, PartialEq, Eq, Structural)]
pub enum ChainSource {
    YouTubeMusic,
    YouTube,
    Spotify,
    SoundCloud,
}

pub open spec fn chain_rank(s: ChainSource) -> int {
    match s {
        ChainSource::YouTubeMusic => 0,
        ChainSource::YouTube => 1,
        ChainSource::Spotify => 2,
        ChainSource::SoundCloud => 3,
    }
}

/// YouTube Music and YouTube both follow the YouTube switch.
pub open spec fn chain_enabled(cfg: SourcesConfig, s: ChainSource) -> bool {
    match s {
        ChainSource::YouTubeMusic => cfg.youtube_enabled,
        ChainSource::YouTube => cfg.youtube_enabled,
        ChainSource::Spotify => cfg.spotify_enabled,
        ChainSource::SoundCloud => cfg.soundcloud_enabled,
    }
}

/// The rank after which the next source is looked for.
pub open spec fn after_rank(after: Option<ChainSource>) -> int {
    match after {
        Some(a) => chain_rank(a),
        None => -1,
    }
}

/// Name searches walk YouTube Music, then YouTube, then Spotify, then
/// SoundCloud; the two YouTube sources follow the YouTube switch and the
/// others their own.
pub proof fn lemma_fallback_order(cfg: SourcesConfig)
    ensures
        chain_rank(ChainSource::YouTubeMusic) < chain_rank(ChainSource::YouTube),
        chain_rank(ChainSource::YouTube) < chain_rank(ChainSource::Spotify),
        chain_rank(ChainSource::Spotify) < chain_rank(ChainSource::SoundCloud),
        after_rank(None) < chain_rank(ChainSource::YouTubeMusic),
        chain_enabled(cfg, ChainSource::YouTubeMusic) == cfg.youtube_enabled,
        chain_enabled(cfg, ChainSource::YouTube) == cfg.youtube_enabled,
        chain_enabled(cfg, ChainSource::Spotify) == cfg.spotify_enabled,
        chain_enabled(cfg, ChainSource::SoundCloud) == cfg.soundcloud_enabled,
{
}

/// The next source to try after `after` failed (`None`: start): the first
/// enabled source that comes later in the order YouTube Music, YouTube,
/// Spotify, SoundCloud; `None` when none is left.
pub fn chain_next(cfg: &SourcesConfig, after: Option<ChainSource>) -> (r: Option<ChainSource>)
    ensures
        r matches Some(s) ==> chain_enabled(*cfg, s) && after_rank(after) < chain_rank(s),
        r matches Some(s) ==> forall|t: ChainSource|
            after_rank(after) < #[trigger] chain_rank(t) < chain_rank(s) ==> !chain_enabled(
                *cfg,
                t,
            ),
        r is None ==> forall|t: ChainSource|
            after_rank(after) < #[trigger] chain_rank(t) ==> !chain_enabled(*cfg, t),
{
    let start: u8 = match after {
        None => 0,
        Some(ChainSource::YouTubeMusic) => 1,
        Some(ChainSource::YouTube) => 2,
        Some(ChainSource::Spotify) => 3,
        Some(ChainSource::SoundCloud) => 4,
    };
    if start <= 0 && cfg.youtube_enabled {
        return Some(ChainSource::YouTubeMusic);
    }
    if start <= 1 && cfg.youtube_enabled {
        return Some(ChainSource::YouTube);
    }
    if start <= 2 && cfg.spotify_enabled {
        return Some(ChainSource::Spotify);
    }
    if start <= 3 && cfg.soundcloud_enabled {
        return Some(ChainSource::SoundCloud);
    }
    None
}

/// The error of a plain query that no source found.
pub fn chain_exhausted_msg(query: &str) -> (r: String)
    ensures
        r@ == "No results for `"@ + query@
            + "` on any platform (ytmusic, youtube, spotify, soundcloud)"@,
{
    concat3("No results for `", query, "` on any platform (ytmusic, youtube, spotify, soundcloud)")
}

} // verus!
