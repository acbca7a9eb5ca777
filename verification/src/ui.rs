//! The texts and component ids of the player messages: the Now Playing
//! card, the queue pages, the help pages, status messages, and the ids of
//! the player buttons. Building the Discord components from them happens
//! outside the library.

use vstd::prelude::*;

use crate::config;
use crate::state::{duration_display_spec, fmt_sec, fmt_sec_spec, uri_safe_spec, GuildState, SourceTag, Track};
use crate::text::{
    chars_eq_str, chars_of, contains_exec, contains_seq, decimal, push_decimal, push_str,
    split_class, split_exec, string_from, trim_class, trim_ws, views, CharClass,
};

verus! {

// ── badges and titles ───────────────────────────────────────────────────

pub open spec fn is_apple_music(t: Track) -> bool {
    t.ui_link matches Some(l) && contains_seq(l@, "music.apple.com"@)
}

/// The badge of a track's platform: Apple Music matches (which play from
/// YouTube) get their own.
pub open spec fn platform_logo_spec(t: Track) -> Seq<char> {
    if is_apple_music(t) {
        config::APPLEMUSIC@
    } else {
        match t.source {
            SourceTag::Youtube => config::YOUTUBE@,
            SourceTag::SoundCloud => config::SOUNDCLOUD@,
            SourceTag::SpotifyMatched => config::SPOTIFY@,
            SourceTag::Discord => config::FOLDER@,
            SourceTag::File => config::FOLDER@,
        }
    }
}

fn is_apple_music_exec(t: &Track) -> (b: bool)
    ensures
        b == is_apple_music(*t),
{
    match &t.ui_link {
        Some(l) => contains_exec(&chars_of(l.as_str()), "music.apple.com"),
        None => false,
    }
}

/// Platform badge for the Now Playing header.
pub fn platform_logo(t: &Track) -> (s: &'static str)
    ensures
        s@ == platform_logo_spec(*t),
{
    if is_apple_music_exec(t) {
        return config::APPLEMUSIC;
    }
    match t.source {
        SourceTag::Youtube => config::YOUTUBE,
        SourceTag::SoundCloud => config::SOUNDCLOUD,
        SourceTag::SpotifyMatched => config::SPOTIFY,
        SourceTag::Discord => config::FOLDER,
        SourceTag::File => config::FOLDER,
    }
}

/// `s` with `[` and `]` turned into `(` and `)`, so it can stand inside a
/// Markdown link.
pub open spec fn md_safe(s: Seq<char>) -> Seq<char> {
    s.map_values(
        |c: char|
            if c == '[' {
                '('
            } else if c == ']' {
                ')'
            } else {
                c
            },
    )
}

fn md_safe_exec(s: &str) -> (r: Vec<char>)
    ensures
        r@ == md_safe(s@),
{
    let v = chars_of(s);
    let mut out: Vec<char> = Vec::new();
    let mut i: usize = 0;
    while i < v.len()
        invariant
            i <= v@.len(),
            v@ == s@,
            out@ == md_safe(v@.take(i as int)),
        decreases v.len() - i,
    {
        let c = v[i];
        out.push(
            if c == '[' {
                '('
            } else if c == ']' {
                ')'
            } else {
                c
            },
        );
        i += 1;
        assert(out@ =~= md_safe(v@.take(i as int)));
    }
    assert(v@.take(v@.len() as int) =~= v@);
    out
}

/// The track title, safe to put inside a Markdown link.
pub fn md_title(t: &Track) -> (s: String)
    ensures
        s@ == md_safe(t.title@),
{
    string_from(&md_safe_exec(t.title.as_str()))
}

// ── custom emojis ───────────────────────────────────────────────────────

/// A custom Discord emoji written as `<:name:id>` or `<a:name:id>`.
#[derive(Clone, Debug)]
pub struct CustomEmoji {
    pub animated: bool,
    pub name: String,
    pub id: u64,
}

/// The parts of a custom emoji tag: the trimmed text without its angle
/// brackets, split on `:`, gives the animation marker, the name and the id.
pub open spec fn parse_emoji_spec(s: Seq<char>) -> Option<(bool, Seq<char>, u64)> {
    let t = trim_ws(s);
    if t.len() >= 2 && t[0] == '<' && t.last() == '>' {
        let parts = split_class(t.subrange(1, t.len() - 1), CharClass::Colon);
        if parts.len() >= 3 {
            match crate::text::parse_u64_spec(parts[2]) {
                Some(id) => Some((parts[0] == "a"@, parts[1], id)),
                None => None,
            }
        } else {
            None
        }
    } else {
        None
    }
}

/// Reads a custom emoji tag.
pub fn parse_emoji(s: &str) -> (r: Option<CustomEmoji>)
    ensures
        r matches Some(e) ==> parse_emoji_spec(s@) == Some((e.animated, e.name@, e.id)),
        r is None ==> parse_emoji_spec(s@) is None,
{
    let t = trim_class(&chars_of(s), CharClass::Whitespace);
    if t.len() < 2 || t[0] != '<' || t[t.len() - 1] != '>' {
        return None;
    }
    let inner = crate::text::slice_of(&t, 1, t.len() - 1);
    let parts = split_exec(&inner, CharClass::Colon);
    let ghost pv = views(parts@);
    if parts.len() < 3 {
        return None;
    }
    assert(pv[0] == parts@[0]@ && pv[1] == parts@[1]@ && pv[2] == parts@[2]@);
    match crate::text::parse_u64(&parts[2]) {
        Some(id) => Some(
            CustomEmoji {
                animated: chars_eq_str(&parts[0], "a"),
                name: string_from(&parts[1]),
                id,
            },
        ),
        None => None,
    }
}

// ── status messages ─────────────────────────────────────────────────────

/// An error message: the error emoji, two spaces, the text.
pub fn error_text(msg: &str) -> (s: String)
    ensures
        s@ == config::ERROR@ + "  "@ + msg@,
{
    let mut out = chars_of(config::ERROR);
    push_str(&mut out, "  ");
    push_str(&mut out, msg);
    string_from(&out)
}

/// A success message: the success emoji, two spaces, the text.
pub fn success_text(msg: &str) -> (s: String)
    ensures
        s@ == config::SUCCESS@ + "  "@ + msg@,
{
    let mut out = chars_of(config::SUCCESS);
    push_str(&mut out, "  ");
    push_str(&mut out, msg);
    string_from(&out)
}

// ── the Now Playing card ────────────────────────────────────────────────

/// `s` with backticks turned into quotes (it goes inside a code block).
pub open spec fn no_backticks(s: Seq<char>) -> Seq<char> {
    s.map_values(
        |c: char|
            if c == '`' {
                '\''
            } else {
                c
            },
    )
}

fn no_backticks_exec(s: &str) -> (r: Vec<char>)
    ensures
        r@ == no_backticks(s@),
{
    let v = chars_of(s);
    let mut out: Vec<char> = Vec::new();
    let mut i: usize = 0;
    while i < v.len()
        invariant
            i <= v@.len(),
            v@ == s@,
            out@ == no_backticks(v@.take(i as int)),
        decreases v.len() - i,
    {
        let c = v[i];
        out.push(
            if c == '`' {
                '\''
            } else {
                c
            },
        );
        i += 1;
        assert(out@ =~= no_backticks(v@.take(i as int)));
    }
    assert(v@.take(v@.len() as int) =~= v@);
    out
}

pub open spec fn link_for_ui_spec(t: Track) -> Seq<char> {
    match t.ui_link {
        Some(l) => l@,
        None => uri_safe_spec(t.uri@),
    }
}

/// The body of the Now Playing card.
pub open spec fn now_playing_spec(t: Track, queue_len: nat) -> Seq<char> {
    "## "@ + platform_logo_spec(t) + " Now Playing\n**["@ + md_safe(t.title@) + "]("@
        + link_for_ui_spec(t) + ")**\n"@ + "```ansi\n\u{1b}[34mArtist   \u{1b}[0m: \u{1b}[32m"@
        + no_backticks(t.author@) + "\u{1b}[0m\n\u{1b}[34mDuration \u{1b}[0m: \u{1b}[32m"@
        + duration_display_spec(t.duration_secs, t.is_live)
        + "\u{1b}[0m\n\u{1b}[34mSource   \u{1b}[0m: \u{1b}[32m"@ + t.source.name_spec()
        + "\u{1b}[0m\n```"@ + "\n\u{2705} **Requested by:** "@ + t.requester@
        + "\n\u{2705} **Queue:** "@ + decimal(queue_len) + " track(s) remaining"@
}

/// The Now Playing card opens with the source logo and the linked title,
/// names the requester, and closes with how many tracks are waiting.
pub proof fn lemma_now_playing_card(t: Track, queue_len: nat)
    ensures
        crate::text::starts_with(
            now_playing_spec(t, queue_len),
            "## "@ + platform_logo_spec(t) + " Now Playing\n**["@ + md_safe(t.title@) + "]("@
                + link_for_ui_spec(t) + ")**\n"@,
        ),
        contains_seq(now_playing_spec(t, queue_len), "\n\u{2705} **Requested by:** "@ + t.requester@),
        crate::text::ends_with(
            now_playing_spec(t, queue_len),
            "\n\u{2705} **Queue:** "@ + decimal(queue_len) + " track(s) remaining"@,
        ),
{
    let head = "## "@ + platform_logo_spec(t) + " Now Playing\n**["@ + md_safe(t.title@) + "]("@
        + link_for_ui_spec(t) + ")**\n"@;
    let mid = "```ansi\n\u{1b}[34mArtist   \u{1b}[0m: \u{1b}[32m"@ + no_backticks(t.author@)
        + "\u{1b}[0m\n\u{1b}[34mDuration \u{1b}[0m: \u{1b}[32m"@ + duration_display_spec(
        t.duration_secs,
        t.is_live,
    ) + "\u{1b}[0m\n\u{1b}[34mSource   \u{1b}[0m: \u{1b}[32m"@ + t.source.name_spec()
        + "\u{1b}[0m\n```"@;
    let req = "\n\u{2705} **Requested by:** "@ + t.requester@;
    let tail = "\n\u{2705} **Queue:** "@ + decimal(queue_len) + " track(s) remaining"@;
    let s = now_playing_spec(t, queue_len);
    assert(s =~= head + mid + req + tail);
    assert(s.take(head.len() as int) =~= head);
    assert(s =~= (head + mid) + req + tail);
    crate::text::lemma_contains_middle(head + mid, req, tail);
    assert(s.skip(s.len() - tail.len()) =~= tail);
}

/// The text of the Now Playing card for `t` with `queue_len` tracks
/// waiting.
pub fn now_playing_text(t: &Track, queue_len: usize) -> (s: String)
    ensures
        s@ == now_playing_spec(*t, queue_len as nat),
{
    let mut out = chars_of("## ");
    push_str(&mut out, platform_logo(t));
    push_str(&mut out, " Now Playing\n**[");
    crate::text::push_all(&mut out, &md_safe_exec(t.title.as_str()));
    push_str(&mut out, "](");
    push_str(&mut out, t.link_for_ui().as_str());
    push_str(&mut out, ")**\n");
    push_str(&mut out, "```ansi\n\u{1b}[34mArtist   \u{1b}[0m: \u{1b}[32m");
    crate::text::push_all(&mut out, &no_backticks_exec(t.author.as_str()));
    push_str(&mut out, "\u{1b}[0m\n\u{1b}[34mDuration \u{1b}[0m: \u{1b}[32m");
    push_str(&mut out, t.duration_display().as_str());
    push_str(&mut out, "\u{1b}[0m\n\u{1b}[34mSource   \u{1b}[0m: \u{1b}[32m");
    push_str(&mut out, t.source.name());
    push_str(&mut out, "\u{1b}[0m\n```");
    push_str(&mut out, "\n\u{2705} **Requested by:** ");
    push_str(&mut out, t.requester.as_str());
    push_str(&mut out, "\n\u{2705} **Queue:** ");
    push_decimal(&mut out, queue_len as u64);
    push_str(&mut out, " track(s) remaining");
    string_from(&out)
}

/// The player buttons under the Now Playing card, in order.
pub open spec fn player_action_spec(i: int) -> Seq<char> {
    if i == 0 {
        "prev"@
    } else if i == 1 {
        "pp"@
    } else if i == 2 {
        "skip"@
    } else if i == 3 {
        "loop"@
    } else {
        "stop"@
    }
}

/// The id of a component of guild `guild_id`: `koaai:ACTION:GUILD`.
pub fn component_id(action: &str, guild_id: u64) -> (s: String)
    ensures
        s@ == "koaai:"@ + action@ + ":"@ + decimal(guild_id as nat),
{
    let mut out = chars_of("koaai:");
    push_str(&mut out, action);
    push_str(&mut out, ":");
    push_decimal(&mut out, guild_id);
    string_from(&out)
}

/// The id of a queue page button: `koaai:ACTION:GUILD:PAGE`.
pub fn queue_button_id(action: &str, guild_id: u64, page: usize) -> (s: String)
    ensures
        s@ == "koaai:"@ + action@ + ":"@ + decimal(guild_id as nat) + ":"@ + decimal(page as nat),
{
    let mut out = chars_of("koaai:");
    push_str(&mut out, action);
    push_str(&mut out, ":");
    push_decimal(&mut out, guild_id);
    push_str(&mut out, ":");
    push_decimal(&mut out, page as u64);
    string_from(&out)
}

// ── the queue pages ─────────────────────────────────────────────────────

/// The total duration of the tracks that have one, in seconds.
pub open spec fn total_secs(q: Seq<Track>) -> int
    decreases q.len(),
{
    if q.len() == 0 {
        0
    } else {
        total_secs(q.drop_last()) + match q.last().duration_secs {
            Some(d) => d as int,
            None => 0,
        }
    }
}

/// The line of the track at 1-based position `k` of the queue.
pub open spec fn queue_entry(t: Track, k: nat) -> Seq<char> {
    "**"@ + decimal(k) + ". ["@ + md_safe(t.title@) + "]("@ + link_for_ui_spec(t)
        + ")**\n\u{2514} Added by **"@ + t.requester@ + "** \u{2022} **"@
        + duration_display_spec(t.duration_secs, t.is_live) + "**\n"@
}

/// The lines of queue positions `start..end` (0-based), separated by
/// blank lines.
pub open spec fn queue_entries(q: Seq<Track>, start: int, end: int) -> Seq<char>
    decreases end - start,
{
    if end <= start {
        Seq::empty()
    } else if end == start + 1 {
        queue_entry(q[start], (start + 1) as nat)
    } else {
        queue_entries(q, start, end - 1) + "\n"@ + queue_entry(q[end - 1], end as nat)
    }
}

/// The last page of a queue of `len` tracks shown `per_page` at a time.
pub open spec fn max_queue_page(len: nat, per_page: nat) -> nat {
    let pp = if per_page == 0 {
        1
    } else {
        per_page
    };
    (if len == 0 {
        0
    } else {
        (len - 1) as nat
    }) / pp
}

/// The text of queue page `page` (0-based), `per_page` tracks a page.
pub open spec fn queue_text_spec(st: GuildState, page: nat, per_page: nat) -> Seq<char> {
    let pp = if per_page == 0 {
        1
    } else {
        per_page
    };
    let q = st.queue@;
    let start: int = (page * pp) as int;
    let end: int = if start + pp <= q.len() {
        start + pp
    } else {
        q.len() as int
    };
    "# \u{1f4cb} Music Queue\nYour current music collection\n\n"@ + (match st.current {
        Some(t) => "## Currently Playing\n**["@ + md_safe(t.title@) + "]("@ + link_for_ui_spec(t)
            + ")**\nRequested by **"@ + t.requester@ + "** \u{2022} **"@ + duration_display_spec(
            t.duration_secs,
            t.is_live,
        ) + "**\n\n"@,
        None => Seq::empty(),
    }) + (if start >= q.len() {
        "**Up Next**\nQueue is empty.\n"@
    } else {
        "## Up Next\n\n"@ + queue_entries(q, start, end)
    }) + "\n-# Page "@ + decimal(page + 1) + "/"@ + decimal(max_queue_page(q.len(), per_page) + 1)
        + "  \u{2022}  "@ + decimal(q.len()) + " tracks  \u{2022}  "@ + fmt_sec_spec(
        total_secs(q) as nat,
    ) + " total"@
}

/// Every queued track from position `start` (0-based) up to `end` is
/// listed with its 1-based position, title, link, requester and length.
pub proof fn lemma_queue_entries_list_tracks(q: Seq<Track>, start: int, end: int, i: int)
    requires
        start <= i < end,
    ensures
        contains_seq(
            queue_entries(q, start, end),
            "**"@ + decimal((i + 1) as nat) + ". ["@ + md_safe(q[i].title@) + "]("@ + link_for_ui_spec(
                q[i],
            ) + ")**\n\u{2514} Added by **"@ + q[i].requester@ + "** \u{2022} **"@
                + duration_display_spec(q[i].duration_secs, q[i].is_live) + "**\n"@,
        ),
    decreases end - start,
{
    let line = "**"@ + decimal((i + 1) as nat) + ". ["@ + md_safe(q[i].title@) + "]("@
        + link_for_ui_spec(q[i]) + ")**\n\u{2514} Added by **"@ + q[i].requester@
        + "** \u{2022} **"@ + duration_display_spec(q[i].duration_secs, q[i].is_live) + "**\n"@;
    let e = Seq::<char>::empty();
    if end == start + 1 {
        assert(queue_entries(q, start, end) == line);
        crate::text::lemma_contains_middle(e, line, e);
        assert(e + line + e =~= line);
    } else if i == end - 1 {
        let pre = queue_entries(q, start, end - 1) + "\n"@;
        assert(queue_entries(q, start, end) =~= pre + line + e);
        crate::text::lemma_contains_middle(pre, line, e);
    } else {
        lemma_queue_entries_list_tracks(q, start, end - 1, i);
        let rest = "\n"@ + queue_entry(q[end - 1], end as nat);
        assert(queue_entries(q, start, end) =~= e + queue_entries(q, start, end - 1) + rest);
        crate::text::lemma_contains_within(e, queue_entries(q, start, end - 1), rest, line);
    }
}

/// A queue page lists every track of the page: page `page` shows queue
/// positions `page * per_page` up to `per_page` further (fewer on the last
/// page), each on its own line.
#[verifier::spinoff_prover]
#[verifier::rlimit(60)]
pub proof fn lemma_queue_page_lists(st: GuildState, page: nat, per_page: nat, i: int)
    requires
        per_page > 0,
        page * per_page <= i < st.queue@.len(),
        i < (page + 1) * per_page,
    ensures
        contains_seq(
            queue_text_spec(st, page, per_page),
            "**"@ + decimal((i + 1) as nat) + ". ["@ + md_safe(st.queue@[i].title@) + "]("@
                + link_for_ui_spec(st.queue@[i]) + ")**\n\u{2514} Added by **"@
                + st.queue@[i].requester@ + "** \u{2022} **"@ + duration_display_spec(
                st.queue@[i].duration_secs,
                st.queue@[i].is_live,
            ) + "**\n"@,
        ),
{
    let q = st.queue@;
    let start: int = (page * per_page) as int;
    let end: int = if start + per_page <= q.len() {
        start + per_page
    } else {
        q.len() as int
    };
    assert((page + 1) * per_page == page * per_page + per_page) by (nonlinear_arith);
    lemma_queue_entries_list_tracks(q, start, end, i);
    let s = queue_text_spec(st, page, per_page);
    let h = "# \u{1f4cb} Music Queue\nYour current music collection\n\n"@ + (match st.current {
        Some(t) => "## Currently Playing\n**["@ + md_safe(t.title@) + "]("@ + link_for_ui_spec(t)
            + ")**\nRequested by **"@ + t.requester@ + "** \u{2022} **"@ + duration_display_spec(
            t.duration_secs,
            t.is_live,
        ) + "**\n\n"@,
        None => Seq::empty(),
    }) + "## Up Next\n\n"@;
    let tail = "\n-# Page "@ + decimal(page + 1) + "/"@ + decimal(max_queue_page(q.len(), per_page) + 1)
        + "  \u{2022}  "@ + decimal(q.len()) + " tracks  \u{2022}  "@ + fmt_sec_spec(
        total_secs(q) as nat,
    ) + " total"@;
    assert(s =~= h + queue_entries(q, start, end) + tail);
    crate::text::lemma_contains_within(h, queue_entries(q, start, end), tail,
        "**"@ + decimal((i + 1) as nat) + ". ["@ + md_safe(q[i].title@) + "]("@ + link_for_ui_spec(
            q[i],
        ) + ")**\n\u{2514} Added by **"@ + q[i].requester@ + "** \u{2022} **"@
            + duration_display_spec(q[i].duration_secs, q[i].is_live) + "**\n"@);
}

/// The queue page opens with its title and, while a track plays, the
/// playing track: its title, link, requester and length.
pub proof fn lemma_queue_shows_playing(st: GuildState, page: nat, per_page: nat)
    ensures
        st.current matches Some(t) ==> crate::text::starts_with(
            queue_text_spec(st, page, per_page),
            "# \u{1f4cb} Music Queue\nYour current music collection\n\n## Currently Playing\n**["@
                + md_safe(t.title@) + "]("@ + link_for_ui_spec(t) + ")**\nRequested by **"@
                + t.requester@ + "** \u{2022} **"@ + duration_display_spec(t.duration_secs, t.is_live)
                + "**\n\n"@,
        ),
        st.current is None ==> crate::text::starts_with(
            queue_text_spec(st, page, per_page),
            "# \u{1f4cb} Music Queue\nYour current music collection\n\n"@,
        ),
{
    let s = queue_text_spec(st, page, per_page);
    let h = "# \u{1f4cb} Music Queue\nYour current music collection\n\n"@;
    match st.current {
        Some(t) => {
            let block = "## Currently Playing\n**["@ + md_safe(t.title@) + "]("@ + link_for_ui_spec(t)
                + ")**\nRequested by **"@ + t.requester@ + "** \u{2022} **"@ + duration_display_spec(
                t.duration_secs,
                t.is_live,
            ) + "**\n\n"@;
            let p = "# \u{1f4cb} Music Queue\nYour current music collection\n\n## Currently Playing\n**["@
                + md_safe(t.title@) + "]("@ + link_for_ui_spec(t) + ")**\nRequested by **"@
                + t.requester@ + "** \u{2022} **"@ + duration_display_spec(t.duration_secs, t.is_live)
                + "**\n\n"@;
            reveal_strlit("# \u{1f4cb} Music Queue\nYour current music collection\n\n## Currently Playing\n**[");
            reveal_strlit("# \u{1f4cb} Music Queue\nYour current music collection\n\n");
            reveal_strlit("## Currently Playing\n**[");
            assert(p =~= h + block);
            assert(s.take((h + block).len() as int) =~= h + block);
        },
        None => {
            assert(s.take(h.len() as int) =~= h);
        },
    }
}

fn push_track_line(out: &mut Vec<char>, t: &Track, k: usize)
    ensures
        final(out)@ == old(out)@ + queue_entry(*t, k as nat),
{
    push_str(out, "**");
    push_decimal(out, k as u64);
    push_str(out, ". [");
    crate::text::push_all(out, &md_safe_exec(t.title.as_str()));
    push_str(out, "](");
    push_str(out, t.link_for_ui().as_str());
    push_str(out, ")**\n\u{2514} Added by **");
    push_str(out, t.requester.as_str());
    push_str(out, "** \u{2022} **");
    push_str(out, t.duration_display().as_str());
    push_str(out, "**\n");
}

fn queue_total(st: &GuildState) -> (r: u64)
    requires
        total_secs(st.queue@) <= u64::MAX,
    ensures
        r == total_secs(st.queue@),
{
    let mut total: u64 = 0;
    let mut i: usize = 0;
    let ghost q = st.queue@;
    assert(q.take(0) =~= Seq::<Track>::empty());
    while i < st.queue.len()
        invariant
            q == st.queue@,
            i <= q.len(),
            total == total_secs(q.take(i as int)),
            total_secs(q) <= u64::MAX,
        decreases q.len() - i,
    {
        assert(q.take(i + 1).drop_last() =~= q.take(i as int));
        assert(q.take(i + 1).last() == q[i as int]);
        proof {
            lemma_total_secs_prefix(q, i + 1);
        }
        match st.queue[i].duration_secs {
            Some(d) => {
                total = total + d;
            },
            None => {},
        }
        i += 1;
    }
    assert(q.take(q.len() as int) =~= q);
    total
}

proof fn lemma_total_secs_prefix(q: Seq<Track>, k: int)
    requires
        0 <= k <= q.len(),
    ensures
        0 <= total_secs(q.take(k)) <= total_secs(q),
    decreases q.len(),
{
    if q.len() > 0 {
        if k == q.len() {
            assert(q.take(k) =~= q);
            lemma_total_secs_prefix(q.drop_last(), k - 1);
            assert(q.drop_last().take(k - 1) =~= q.drop_last());
        } else {
            lemma_total_secs_prefix(q.drop_last(), k);
            assert(q.drop_last().take(k) =~= q.take(k));
        }
    }
}

fn push_current_block(out: &mut Vec<char>, current: &Option<Track>)
    ensures
        final(out)@ == old(out)@ + (match *current {
            Some(t) => "## Currently Playing\n**["@ + md_safe(t.title@) + "]("@ + link_for_ui_spec(t)
                + ")**\nRequested by **"@ + t.requester@ + "** \u{2022} **"@
                + duration_display_spec(t.duration_secs, t.is_live) + "**\n\n"@,
            None => Seq::empty(),
        }),
{
    let ghost m0 = out@;
    match current {
        Some(t) => {
            push_str(out, "## Currently Playing\n**[");
            crate::text::push_all(out, &md_safe_exec(t.title.as_str()));
            push_str(out, "](");
            push_str(out, t.link_for_ui().as_str());
            push_str(out, ")**\nRequested by **");
            push_str(out, t.requester.as_str());
            push_str(out, "** \u{2022} **");
            push_str(out, t.duration_display().as_str());
            push_str(out, "**\n\n");
        },
        None => {
            assert(out@ =~= m0 + Seq::<char>::empty());
        },
    }
}

fn push_up_next(out: &mut Vec<char>, st: &GuildState, start: usize, end: usize)
    requires
        start <= end <= st.queue@.len(),
        start < st.queue@.len() ==> start < end,
    ensures
        final(out)@ == old(out)@ + (if start >= st.queue@.len() {
            "**Up Next**\nQueue is empty.\n"@
        } else {
            "## Up Next\n\n"@ + queue_entries(st.queue@, start as int, end as int)
        }),
{
    let ghost q = st.queue@;
    if start >= st.queue.len() {
        push_str(out, "**Up Next**\nQueue is empty.\n");
    } else {
        let ghost m0 = out@;
        push_str(out, "## Up Next\n\n");
        let ghost head = out@;
        push_track_line(out, &st.queue[start], start + 1);
        let mut i: usize = start + 1;
        while i < end
            invariant
                q == st.queue@,
                start < i <= end <= q.len(),
                out@ == head + queue_entries(q, start as int, i as int),
            decreases end - i,
        {
            push_str(out, "\n");
            push_track_line(out, &st.queue[i], i + 1);
            i += 1;
            assert(out@ =~= head + queue_entries(q, start as int, i as int));
        }
        assert(out@ =~= m0 + ("## Up Next\n\n"@ + queue_entries(q, start as int, end as int)));
    }
}

/// The text of a queue page: the current track, the tracks of the page,
/// and a footer with the page, the queue length and its total duration.
#[verifier::rlimit(30)]
pub fn queue_text(st: &GuildState, page: usize, per_page: usize) -> (s: String)
    requires
        (page + 1) * (if per_page == 0 { 1 } else { per_page }) <= usize::MAX,
        total_secs(st.queue@) <= u64::MAX,
    ensures
        s@ == queue_text_spec(*st, page as nat, per_page as nat),
{
    let pp: usize = if per_page == 0 {
        1
    } else {
        per_page
    };
    assert(page * pp + pp == (page + 1) * pp && page + 1 <= (page + 1) * pp) by (nonlinear_arith)
        requires
            pp >= 1,
    ;
    let len = st.queue.len();
    let max_page: usize = if len == 0 {
        0
    } else {
        (len - 1) / pp
    };
    let start = page * pp;
    let end = if start + pp <= len {
        start + pp
    } else {
        len
    };
    let mut out = chars_of("# \u{1f4cb} Music Queue\nYour current music collection\n\n");
    push_current_block(&mut out, &st.current);
    push_up_next(&mut out, st, if start <= len { start } else { len }, end);
    push_str(&mut out, "\n-# Page ");
    push_decimal(&mut out, (page + 1) as u64);
    push_str(&mut out, "/");
    push_decimal(&mut out, (max_page + 1) as u64);
    push_str(&mut out, "  \u{2022}  ");
    push_decimal(&mut out, len as u64);
    push_str(&mut out, " tracks  \u{2022}  ");
    let total = queue_total(st);
    push_str(&mut out, fmt_sec(total).as_str());
    push_str(&mut out, " total");
    string_from(&out)
}

// ── help pages ──────────────────────────────────────────────────────────

/// How many help categories there are.
pub const HELP_PAGE_COUNT: usize = 5;

/// (name, description) of each help category.
pub open spec fn help_page_spec(i: int) -> (Seq<char>, Seq<char>) {
    if i == 0 {
        ("Music"@, "Playback commands"@)
    } else if i == 1 {
        ("Playlist"@, "Queue management"@)
    } else if i == 2 {
        ("Audio"@, "Volume and filters"@)
    } else if i == 3 {
        ("Settings"@, "Bot configuration"@)
    } else {
        ("Info"@, "Bot statistics"@)
    }
}

pub fn help_page(i: usize) -> (p: (&'static str, &'static str))
    ensures
        (p.0@, p.1@) == help_page_spec(i as int),
{
    if i == 0 {
        ("Music", "Playback commands")
    } else if i == 1 {
        ("Playlist", "Queue management")
    } else if i == 2 {
        ("Audio", "Volume and filters")
    } else if i == 3 {
        ("Settings", "Bot configuration")
    } else {
        ("Info", "Bot statistics")
    }
}

pub open spec fn help_command_count_spec(i: int) -> nat {
    if i == 0 {
        9
    } else if i == 1 {
        6
    } else if i == 2 {
        1
    } else {
        3
    }
}

/// How many commands help category `i` lists.
pub fn help_command_count(i: usize) -> (n: usize)
    ensures
        n == help_command_count_spec(i as int),
{
    if i == 0 {
        9
    } else if i == 1 {
        6
    } else if i == 2 {
        1
    } else {
        3
    }
}

/// Command `j` of help category `i`.
pub open spec fn help_command_spec(i: int, j: int) -> Seq<char> {
    if i == 0 {
        if j == 0 {
            "play"@
        } else if j == 1 {
            "pause"@
        } else if j == 2 {
            "resume"@
        } else if j == 3 {
            "skip"@
        } else if j == 4 {
            "stop"@
        } else if j == 5 {
            "nowplaying"@
        } else if j == 6 {
            "seek"@
        } else if j == 7 {
            "forward"@
        } else {
            "rewind"@
        }
    } else if i == 1 {
        if j == 0 {
            "queue"@
        } else if j == 1 {
            "shuffle"@
        } else if j == 2 {
            "clear"@
        } else if j == 3 {
            "remove"@
        } else if j == 4 {
            "move"@
        } else {
            "loop"@
        }
    } else if i == 2 {
        "volume"@
    } else if i == 3 {
        if j == 0 {
            "setprefix"@
        } else if j == 1 {
            "join"@
        } else {
            "leave"@
        }
    } else {
        if j == 0 {
            "ping"@
        } else if j == 1 {
            "uptime"@
        } else {
            "help"@
        }
    }
}

pub fn help_command(i: usize, j: usize) -> (c: &'static str)
    ensures
        c@ == help_command_spec(i as int, j as int),
{
    if i == 0 {
        if j == 0 {
            "play"
        } else if j == 1 {
            "pause"
        } else if j == 2 {
            "resume"
        } else if j == 3 {
            "skip"
        } else if j == 4 {
            "stop"
        } else if j == 5 {
            "nowplaying"
        } else if j == 6 {
            "seek"
        } else if j == 7 {
            "forward"
        } else {
            "rewind"
        }
    } else if i == 1 {
        if j == 0 {
            "queue"
        } else if j == 1 {
            "shuffle"
        } else if j == 2 {
            "clear"
        } else if j == 3 {
            "remove"
        } else if j == 4 {
            "move"
        } else {
            "loop"
        }
    } else if i == 2 {
        "volume"
    } else if i == 3 {
        if j == 0 {
            "setprefix"
        } else if j == 1 {
            "join"
        } else {
            "leave"
        }
    } else {
        if j == 0 {
            "ping"
        } else if j == 1 {
            "uptime"
        } else {
            "help"
        }
    }
}

pub open spec fn cat_emoji_spec(name: Seq<char>) -> Seq<char> {
    if name == "Music"@ {
        config::CAT_MUSIC@
    } else if name == "Playlist"@ {
        config::CAT_PLAYLIST@
    } else if name == "Audio"@ {
        config::CAT_AUDIO@
    } else if name == "Settings"@ {
        config::CAT_SETTINGS@
    } else if name == "Info"@ {
        config::CAT_INFO@
    } else {
        "\u{1f4c1}"@
    }
}

/// The emoji of a help category; a folder for unknown names.
pub fn cat_emoji(name: &str) -> (e: &'static str)
    ensures
        e@ == cat_emoji_spec(name@),
{
    let v = chars_of(name);
    if chars_eq_str(&v, "Music") {
        config::CAT_MUSIC
    } else if chars_eq_str(&v, "Playlist") {
        config::CAT_PLAYLIST
    } else if chars_eq_str(&v, "Audio") {
        config::CAT_AUDIO
    } else if chars_eq_str(&v, "Settings") {
        config::CAT_SETTINGS
    } else if chars_eq_str(&v, "Info") {
        config::CAT_INFO
    } else {
        "\u{1f4c1}"
    }
}

/// The category lines of the help home page, for the first `n` categories.
pub open spec fn help_category_lines(n: int) -> Seq<char>
    decreases n,
{
    if n <= 0 {
        Seq::empty()
    } else {
        help_category_lines(n - 1) + (if n > 1 {
            "\n"@
        } else {
            Seq::empty()
        }) + cat_emoji_spec(help_page_spec(n - 1).0) + "  **"@ + help_page_spec(n - 1).0
            + "** \u{2014} "@ + help_page_spec(n - 1).1
    }
}

/// What `str::to_uppercase` returns for `s` (full Unicode case mapping).
pub uninterp spec fn uppercase(s: Seq<char>) -> Seq<char>;

/// Calls `str::to_uppercase`.
#[verifier::external_body]
fn to_uppercase(s: &str) -> (r: String)
    ensures
        r@ == uppercase(s@),
{
    s.to_uppercase()
}

pub open spec fn help_home_spec(prefix: Seq<char>, total_cmds: nat, bot_name: Seq<char>) -> Seq<
    char,
> {
    "# \u{1f375} "@ + uppercase(bot_name)
        + "\nYour Ultimate Music Companion\n\n\u{2705} **Server Prefix:** `"@ + prefix
        + "`\n\u{2705} **Total Commands:** `"@ + decimal(total_cmds)
        + "`\n\n## Available Categories\n"@ + help_category_lines(HELP_PAGE_COUNT as int)
        + "\n\n-# *Use the select menu below to browse a category.*"@
}

/// The help home page: the prefix, the command count and the categories.
pub fn help_home_body(prefix: &str, total_cmds: usize, bot_name: &str) -> (s: String)
    ensures
        s@ == help_home_spec(prefix@, total_cmds as nat, bot_name@),
{
    let mut out = chars_of("# \u{1f375} ");
    push_str(&mut out, to_uppercase(bot_name).as_str());
    push_str(&mut out, "\nYour Ultimate Music Companion\n\n\u{2705} **Server Prefix:** `");
    push_str(&mut out, prefix);
    push_str(&mut out, "`\n\u{2705} **Total Commands:** `");
    push_decimal(&mut out, total_cmds as u64);
    push_str(&mut out, "`\n\n## Available Categories\n");
    let ghost head = out@;
    let mut i: usize = 0;
    assert(head + help_category_lines(0) =~= head);
    while i < HELP_PAGE_COUNT
        invariant
            i <= HELP_PAGE_COUNT,
            out@ == head + help_category_lines(i as int),
        decreases HELP_PAGE_COUNT - i,
    {
        let ghost before = out@;
        if i > 0 {
            push_str(&mut out, "\n");
        } else {
            assert(out@ =~= before + Seq::<char>::empty());
        }
        let p = help_page(i);
        push_str(&mut out, cat_emoji(p.0));
        push_str(&mut out, "  **");
        push_str(&mut out, p.0);
        push_str(&mut out, "** \u{2014} ");
        push_str(&mut out, p.1);
        i += 1;
        assert(out@ =~= head + help_category_lines(i as int));
    }
    push_str(&mut out, "\n\n-# *Use the select menu below to browse a category.*");
    string_from(&out)
}

/// "`PREFIXcmd`" for the first `n` commands of category `i`, joined by
/// ", ".
pub open spec fn help_command_list(prefix: Seq<char>, i: int, n: int) -> Seq<char>
    decreases n,
{
    if n <= 0 {
        Seq::empty()
    } else {
        help_command_list(prefix, i, n - 1) + (if n > 1 {
            ", "@
        } else {
            Seq::empty()
        }) + "`"@ + prefix + help_command_spec(i, n - 1) + "`"@
    }
}

/// The index of the help category named `name`.
pub open spec fn help_index(name: Seq<char>) -> Option<int> {
    if name == help_page_spec(0).0 {
        Some(0)
    } else if name == help_page_spec(1).0 {
        Some(1)
    } else if name == help_page_spec(2).0 {
        Some(2)
    } else if name == help_page_spec(3).0 {
        Some(3)
    } else if name == help_page_spec(4).0 {
        Some(4)
    } else {
        None
    }
}

pub open spec fn help_category_spec(prefix: Seq<char>, category: Seq<char>) -> Option<Seq<char>> {
    match help_index(category) {
        Some(i) => Some(
            cat_emoji_spec(help_page_spec(i).0) + "  # "@ + help_page_spec(i).0 + "\n"@
                + help_page_spec(i).1 + "\n\n## Available Commands ("@ + decimal(
                help_command_count_spec(i),
            ) + ")\n"@ + help_command_list(prefix, i, help_command_count_spec(i) as int)
                + "\n\n-# Found a bug? Use `"@ + prefix
                + "report` \u{2014} it lands straight in the developer's DMs."@,
        ),
        None => None,
    }
}

/// The help page of one category; `None` for an unknown category.
pub fn help_category_body(prefix: &str, category: &str) -> (r: Option<String>)
    ensures
        r matches Some(s) ==> help_category_spec(prefix@, category@) == Some(s@),
        r is None ==> help_category_spec(prefix@, category@) is None,
{
    let v = chars_of(category);
    let mut i: usize = 0;
    while i < HELP_PAGE_COUNT
        invariant
            i <= HELP_PAGE_COUNT,
            v@ == category@,
            forall|j: int| 0 <= j < i ==> category@ != #[trigger] help_page_spec(j).0,
        decreases HELP_PAGE_COUNT - i,
    {
        let p = help_page(i);
        if chars_eq_str(&v, p.0) {
            let n = help_command_count(i);
            let mut out = chars_of(cat_emoji(p.0));
            push_str(&mut out, "  # ");
            push_str(&mut out, p.0);
            push_str(&mut out, "\n");
            push_str(&mut out, p.1);
            push_str(&mut out, "\n\n## Available Commands (");
            push_decimal(&mut out, n as u64);
            push_str(&mut out, ")\n");
            let ghost head = out@;
            let mut j: usize = 0;
            assert(head + help_command_list(prefix@, i as int, 0) =~= head);
            while j < n
                invariant
                    j <= n,
                    n == help_command_count_spec(i as int),
                    out@ == head + help_command_list(prefix@, i as int, j as int),
                decreases n - j,
            {
                let ghost before = out@;
                if j > 0 {
                    push_str(&mut out, ", ");
                } else {
                    assert(out@ =~= before + Seq::<char>::empty());
                }
                push_str(&mut out, "`");
                push_str(&mut out, prefix);
                push_str(&mut out, help_command(i, j));
                push_str(&mut out, "`");
                j += 1;
                assert(out@ =~= head + help_command_list(prefix@, i as int, j as int));
            }
            push_str(&mut out, "\n\n-# Found a bug? Use `");
            push_str(&mut out, prefix);
            push_str(&mut out, "report` \u{2014} it lands straight in the developer's DMs.");
            return Some(string_from(&out));
        }
        i += 1;
    }
    None
}

/// The body of the help message: the asked category's page, else the home
/// page.
pub fn help_body(prefix: &str, category: Option<&str>, bot_name: &str, total_cmds: usize) -> (s: String)
    ensures
        s@ == (match category {
            Some(c) => match help_category_spec(prefix@, c@) {
                Some(b) => b,
                None => help_home_spec(prefix@, total_cmds as nat, bot_name@),
            },
            None => help_home_spec(prefix@, total_cmds as nat, bot_name@),
        }),
{
    match category {
        Some(c) => match help_category_body(prefix, c) {
            Some(b) => b,
            None => help_home_body(prefix, total_cmds, bot_name),
        },
        None => help_home_body(prefix, total_cmds, bot_name),
    }
}

// ── player component ids ────────────────────────────────────────────────

/// A player component id, read: the action, the guild and (for queue page
/// buttons) the page.
#[derive(Clone, Debug)]
pub struct ComponentId {
    pub action: String,
    pub guild_id: u64,
    pub page: i64,
}

/// `koaai:ACTION:GUILD[:PAGE...]`: the guild must parse; a page that is
/// missing or does not parse is 0.
pub open spec fn parse_component_spec(id: Seq<char>) -> Option<(Seq<char>, u64, i64)> {
    if !crate::text::starts_with(id, "koaai:"@) {
        None
    } else {
        let parts = split_class(id.skip(6), CharClass::Colon);
        if parts.len() < 2 {
            None
        } else {
            match crate::text::parse_u64_spec(parts[1]) {
                None => None,
                Some(g) => Some(
                    (
                        parts[0],
                        g,
                        if parts.len() > 2 {
                            match crate::text::parse_i64_spec(parts[2]) {
                                Some(p) => p,
                                None => 0,
                            }
                        } else {
                            0
                        },
                    ),
                ),
            }
        }
    }
}

/// Reads a player component id.
pub fn parse_component_id(id: &str) -> (r: Option<ComponentId>)
    ensures
        r matches Some(c) ==> parse_component_spec(id@) == Some((c.action@, c.guild_id, c.page)),
        r is None ==> parse_component_spec(id@) is None,
{
    proof {
        reveal_strlit("koaai:");
    }
    let v = chars_of(id);
    if !crate::text::starts_with_exec(&v, "koaai:") {
        return None;
    }
    let rest = crate::text::suffix_from(&v, 6);
    let parts = split_exec(&rest, CharClass::Colon);
    let ghost pv = views(parts@);
    if parts.len() < 2 {
        return None;
    }
    assert(pv[0] == parts@[0]@ && pv[1] == parts@[1]@);
    let g = match crate::text::parse_u64(&parts[1]) {
        Some(g) => g,
        None => return None,
    };
    let page = if parts.len() > 2 {
        assert(pv[2] == parts@[2]@);
        match crate::text::parse_i64(&parts[2]) {
            Some(p) => p,
            None => 0,
        }
    } else {
        0
    };
    Some(ComponentId { action: string_from(&parts[0]), guild_id: g, page })
}

proof fn lemma_parse_decimal(n: u64)
    ensures
        crate::text::parse_u64_spec(decimal(n as nat)) == Some(n),
        forall|i: int|
            0 <= i < decimal(n as nat).len() ==> !crate::text::in_class(
                CharClass::Colon,
                #[trigger] decimal(n as nat)[i],
            ),
{
    crate::text::lemma_decimal_digits(n as nat);
    assert(crate::text::is_digit(decimal(n as nat)[0]));
}

/// A queue page button reads back as its action, guild and page.
pub proof fn lemma_queue_button_roundtrip(action: Seq<char>, guild_id: u64, page: u64)
    requires
        forall|i: int| 0 <= i < action.len() ==> #[trigger] action[i] != ':',
        page <= i64::MAX,
    ensures
        parse_component_spec(
            "koaai:"@ + action + ":"@ + decimal(guild_id as nat) + ":"@ + decimal(page as nat),
        ) == Some((action, guild_id, page as i64)),
{
    reveal_strlit("koaai:");
    reveal_strlit(":");
    let g = decimal(guild_id as nat);
    let p = decimal(page as nat);
    lemma_parse_decimal(guild_id);
    lemma_parse_decimal(page);
    crate::text::lemma_parse_signed_decimal(page as i64);
    crate::text::lemma_split_whole(p, CharClass::Colon);
    crate::text::lemma_split_after(g, ':', p, CharClass::Colon);
    crate::text::lemma_split_after(action, ':', g.push(':') + p, CharClass::Colon);
    let id = "koaai:"@ + action + ":"@ + g + ":"@ + p;
    assert(id.skip(6) =~= action.push(':') + (g.push(':') + p));
    assert(crate::text::starts_with(id, "koaai:"@)) by {
        assert(id.take(6) =~= "koaai:"@);
    }
    let parts = split_class(id.skip(6), CharClass::Colon);
    assert(parts =~= seq![action, g, p]);
}

/// A player button reads back as its action and guild.
pub proof fn lemma_component_id_roundtrip(action: Seq<char>, guild_id: u64)
    requires
        forall|i: int| 0 <= i < action.len() ==> #[trigger] action[i] != ':',
    ensures
        parse_component_spec("koaai:"@ + action + ":"@ + decimal(guild_id as nat)) == Some(
            (action, guild_id, 0i64),
        ),
{
    reveal_strlit("koaai:");
    reveal_strlit(":");
    let g = decimal(guild_id as nat);
    lemma_parse_decimal(guild_id);
    crate::text::lemma_split_whole(g, CharClass::Colon);
    crate::text::lemma_split_after(action, ':', g, CharClass::Colon);
    let id = "koaai:"@ + action + ":"@ + g;
    assert(id.skip(6) =~= action.push(':') + g);
    assert(crate::text::starts_with(id, "koaai:"@)) by {
        assert(id.take(6) =~= "koaai:"@);
    }
    let parts = split_class(id.skip(6), CharClass::Colon);
    assert(parts =~= seq![action, g]);
}

/// The page a queue page button leads to: one back (not below zero) or one
/// forward (not past the last page of `queue_len` tracks).
pub fn queue_nav_page(back: bool, page: i64, queue_len: usize, per_page: usize) -> (r: usize)
    requires
        per_page > 0,
        queue_len <= i64::MAX,
    ensures
        r == ({
            let max_page = max_queue_page(queue_len as nat, per_page as nat);
            let p: int = if back {
                if page - 1 < i64::MIN {
                    i64::MIN as int
                } else {
                    page - 1
                }
            } else if page + 1 < max_page {
                page + 1
            } else {
                max_page as int
            };
            (if p < 0 {
                0
            } else {
                p
            }) as usize
        }),
{
    let max_page: usize = if queue_len == 0 {
        0
    } else {
        (queue_len - 1) / per_page
    };
    let new_page: i64 = if back {
        if page == i64::MIN {
            i64::MIN
        } else {
            page - 1
        }
    } else {
        let mp = max_page as i64;
        if page < mp - 1 {
            page + 1
        } else {
            mp
        }
    };
    if new_page < 0 {
        0
    } else {
        #[verifier::truncate]
        (new_page as usize)
    }
}

/// The guild of a help menu id (`koaai:helpcat:GUILD`).
pub fn help_menu_guild(id: &str) -> (r: Option<u64>)
    ensures
        r == (if crate::text::starts_with(id@, "koaai:helpcat:"@) {
            crate::text::parse_u64_spec(id@.skip(14))
        } else {
            None
        }),
{
    proof {
        reveal_strlit("koaai:helpcat:");
    }
    let v = chars_of(id);
    if crate::text::starts_with_exec(&v, "koaai:helpcat:") {
        crate::text::parse_u64(&crate::text::suffix_from(&v, 14))
    } else {
        None
    }
}

/// What a player component asks for.
#[derive(Clone, Copy, Debug, PartialEq, Eq, Structural)]
pub enum PlayerAction {
    HelpMenu,
    CloseQueue,
    QueuePrev,
    QueueNext,
    Previous,
    PlayPause,
    Skip,
    Loop,
    Stop,
    Unknown,
}

pub open spec fn player_action_of(a: Seq<char>) -> PlayerAction {
    if a == "helpcat"@ {
        PlayerAction::HelpMenu
    } else if a == "qclose"@ {
        PlayerAction::CloseQueue
    } else if a == "qprev"@ {
        PlayerAction::QueuePrev
    } else if a == "qnext"@ {
        PlayerAction::QueueNext
    } else if a == "prev"@ {
        PlayerAction::Previous
    } else if a == "pp"@ {
        PlayerAction::PlayPause
    } else if a == "skip"@ {
        PlayerAction::Skip
    } else if a == "loop"@ {
        PlayerAction::Loop
    } else if a == "stop"@ {
        PlayerAction::Stop
    } else {
        PlayerAction::Unknown
    }
}

/// The action a component id names.
pub fn player_action(action: &str) -> (a: PlayerAction)
    ensures
        a == player_action_of(action@),
{
    let v = chars_of(action);
    if chars_eq_str(&v, "helpcat") {
        PlayerAction::HelpMenu
    } else if chars_eq_str(&v, "qclose") {
        PlayerAction::CloseQueue
    } else if chars_eq_str(&v, "qprev") {
        PlayerAction::QueuePrev
    } else if chars_eq_str(&v, "qnext") {
        PlayerAction::QueueNext
    } else if chars_eq_str(&v, "prev") {
        PlayerAction::Previous
    } else if chars_eq_str(&v, "pp") {
        PlayerAction::PlayPause
    } else if chars_eq_str(&v, "skip") {
        PlayerAction::Skip
    } else if chars_eq_str(&v, "loop") {
        PlayerAction::Loop
    } else if chars_eq_str(&v, "stop") {
        PlayerAction::Stop
    } else {
        PlayerAction::Unknown
    }
}

/// The player buttons (other than the queue and help ones) work only for
/// someone in the bot's voice channel.
pub fn in_bot_channel(bot_vc: Option<u64>, user_vc: Option<u64>) -> (b: bool)
    ensures
        b == (bot_vc is Some && user_vc == bot_vc),
{
    match bot_vc {
        Some(b) => user_vc == Some(b),
        None => false,
    }
}

} // verus!
