//! Bug reports and feedback: the report record, the dashboard filters and
//! paging, report categories, ids, and the texts and button ids of the
//! report flow. Storage and Discord calls happen outside the library.

use vstd::prelude::*;

use crate::config;
use crate::state::opt_view;
use crate::text::{
    chars_eq_str, chars_of, decimal, lemma_split_after, lemma_split_whole, push_decimal,
    push_signed, push_str, signed_decimal, split_class, string_from, u64_to_string, CharClass,
};

verus! {

// ── filters ─────────────────────────────────────────────────────────────

/// Which reports the dashboard lists.
#[derive(Clone, Copy, Debug, PartialEq, Eq, Structural)]
pub enum ReportFilter {
    All,
    Open,
    Resolved,
}

impl ReportFilter {
    pub open spec fn next_spec(self) -> ReportFilter {
        match self {
            ReportFilter::All => ReportFilter::Open,
            ReportFilter::Open => ReportFilter::Resolved,
            ReportFilter::Resolved => ReportFilter::All,
        }
    }

    /// The filter the filter button switches to: all → open → resolved → all.
    pub fn next(self) -> (f: Self)
        ensures
            f == self.next_spec(),
    {
        match self {
            ReportFilter::All => ReportFilter::Open,
            ReportFilter::Open => ReportFilter::Resolved,
            ReportFilter::Resolved => ReportFilter::All,
        }
    }

    pub open spec fn key_spec(self) -> Seq<char> {
        match self {
            ReportFilter::All => "all"@,
            ReportFilter::Open => "open"@,
            ReportFilter::Resolved => "resolved"@,
        }
    }

    /// The name of the filter in button ids.
    pub fn key(self) -> (s: &'static str)
        ensures
            s@ == self.key_spec(),
    {
        match self {
            ReportFilter::All => "all",
            ReportFilter::Open => "open",
            ReportFilter::Resolved => "resolved",
        }
    }

    pub open spec fn parse_spec(s: Seq<char>) -> ReportFilter {
        if s == "open"@ {
            ReportFilter::Open
        } else if s == "resolved"@ {
            ReportFilter::Resolved
        } else {
            ReportFilter::All
        }
    }

    /// Reads a filter name; anything unknown lists all reports.
    pub fn parse(s: &str) -> (f: Self)
        ensures
            f == Self::parse_spec(s@),
    {
        let v = chars_of(s);
        if chars_eq_str(&v, "open") {
            ReportFilter::Open
        } else if chars_eq_str(&v, "resolved") {
            ReportFilter::Resolved
        } else {
            ReportFilter::All
        }
    }

    pub open spec fn label_spec(self) -> Seq<char> {
        match self {
            ReportFilter::All => "\u{1f4cb} All"@,
            ReportFilter::Open => "\u{1f534} Open"@,
            ReportFilter::Resolved => "\u{2705} Resolved"@,
        }
    }

    /// How the dashboard names the filter it shows.
    pub fn label(self) -> (s: &'static str)
        ensures
            s@ == self.label_spec(),
    {
        match self {
            ReportFilter::All => "\u{1f4cb} All",
            ReportFilter::Open => "\u{1f534} Open",
            ReportFilter::Resolved => "\u{2705} Resolved",
        }
    }

    pub open spec fn button_label_spec(self) -> Seq<char> {
        match self {
            ReportFilter::All => "\u{1f534} Open Only"@,
            ReportFilter::Open => "\u{2705} Resolved Only"@,
            ReportFilter::Resolved => "\u{1f4cb} Show All"@,
        }
    }

    /// The caption of the button that switches to the next filter.
    pub fn button_label(self) -> (s: &'static str)
        ensures
            s@ == self.button_label_spec(),
    {
        match self {
            ReportFilter::All => "\u{1f534} Open Only",
            ReportFilter::Open => "\u{2705} Resolved Only",
            ReportFilter::Resolved => "\u{1f4cb} Show All",
        }
    }

    /// Whether a report with this resolution state is listed.
    pub open spec fn admits(self, resolved: bool) -> bool {
        match self {
            ReportFilter::All => true,
            ReportFilter::Open => !resolved,
            ReportFilter::Resolved => resolved,
        }
    }
}

/// A filter's key reads back as the same filter.
pub proof fn lemma_filter_key_roundtrip(f: ReportFilter)
    ensures
        ReportFilter::parse_spec(f.key_spec()) == f,
{
    reveal_strlit("all");
    reveal_strlit("open");
    reveal_strlit("resolved");
    assert("all"@.len() == 3);
    assert("open"@.len() == 4);
    assert("resolved"@.len() == 8);
    match f {
        ReportFilter::All => {
            assert("all"@ != "open"@);
            assert("all"@ != "resolved"@);
        },
        ReportFilter::Open => {},
        ReportFilter::Resolved => {
            assert("resolved"@ != "open"@);
        },
    }
}

/// Pressing the filter button three times comes back to the same filter,
/// after passing through the two others.
pub proof fn lemma_filter_cycle(f: ReportFilter)
    ensures
        f.next_spec().next_spec().next_spec() == f,
        f.next_spec() != f,
        f.next_spec().next_spec() != f,
{
}

// ── the report record ───────────────────────────────────────────────────

/// One stored report.
#[derive(Clone, Debug)]
pub struct ReportRow {
    pub report_id: String,
    pub user_id: String,
    pub username: String,
    pub guild_id: Option<String>,
    pub guild_name: Option<String>,
    pub channel_id: Option<String>,
    pub channel_name: Option<String>,
    pub category: String,
    pub description: String,
    pub steps: Option<String>,
    pub extra: Option<String>,
    pub resolved: bool,
    pub resolved_at: Option<String>,
    pub created_at: String,
}

/// How an optional text column is stored: the text, or empty.
pub fn stored_text(o: &Option<String>) -> (s: String)
    ensures
        s@ == (match *o {
            Some(t) => t@,
            None => Seq::<char>::empty(),
        }),
{
    match o {
        Some(t) => t.clone(),
        None => String::new(),
    }
}

/// An optional text with an empty text counted as none (how a stored
/// column is read back, and how an optional form field is taken).
pub fn non_empty_text(o: Option<String>) -> (r: Option<String>)
    ensures
        opt_view(r) == (match o {
            Some(t) => if t@.len() == 0 {
                None
            } else {
                Some(t@)
            },
            None => None,
        }),
{
    match o {
        Some(t) => {
            if chars_of(t.as_str()).len() == 0 {
                None
            } else {
                Some(t)
            }
        },
        None => None,
    }
}

/// Storing an optional text and reading it back keeps it, unless it was an
/// empty text (which reads back as none).
pub proof fn lemma_optional_text_roundtrip(o: Option<Seq<char>>)
    ensures
        ({
            let stored = match o {
                Some(t) => t,
                None => Seq::<char>::empty(),
            };
            let loaded = if stored.len() == 0 {
                None
            } else {
                Some(stored)
            };
            &&& (o matches Some(t) && t.len() > 0) ==> loaded == o
            &&& o is None ==> loaded is None
        }),
{
}

// ── categories ──────────────────────────────────────────────────────────

/// How many report categories there are.
pub const CATEGORY_COUNT: usize = 5;

/// (value, emoji, name, description) of each category.
pub open spec fn category_spec(i: int) -> (Seq<char>, Seq<char>, Seq<char>, Seq<char>) {
    if i == 0 {
        ("bug"@, "\u{1f41b}"@, "Bug Report"@, "Something isn't working right"@)
    } else if i == 1 {
        ("feature"@, "\u{1f4a1}"@, "Feature Request"@, "An idea you'd love to see added"@)
    } else if i == 2 {
        ("crash"@, "\u{1f4a5}"@, "Bot Crash"@, "Bot crashed or stopped responding"@)
    } else if i == 3 {
        ("audio"@, "\u{1f3b5}"@, "Audio Issue"@, "Playback glitches or silence"@)
    } else {
        ("other"@, "\u{1f4dd}"@, "Other"@, "Anything else on your mind"@)
    }
}

/// The report categories, in menu order.
pub fn category(i: usize) -> (c: (&'static str, &'static str, &'static str, &'static str))
    ensures
        (c.0@, c.1@, c.2@, c.3@) == category_spec(i as int),
{
    if i == 0 {
        ("bug", "\u{1f41b}", "Bug Report", "Something isn't working right")
    } else if i == 1 {
        ("feature", "\u{1f4a1}", "Feature Request", "An idea you'd love to see added")
    } else if i == 2 {
        ("crash", "\u{1f4a5}", "Bot Crash", "Bot crashed or stopped responding")
    } else if i == 3 {
        ("audio", "\u{1f3b5}", "Audio Issue", "Playback glitches or silence")
    } else {
        ("other", "\u{1f4dd}", "Other", "Anything else on your mind")
    }
}

/// The index of the category whose value is `value`.
pub open spec fn category_of(value: Seq<char>) -> Option<int> {
    if value == category_spec(0).0 {
        Some(0)
    } else if value == category_spec(1).0 {
        Some(1)
    } else if value == category_spec(2).0 {
        Some(2)
    } else if value == category_spec(3).0 {
        Some(3)
    } else if value == category_spec(4).0 {
        Some(4)
    } else {
        None
    }
}

fn category_index(value: &str) -> (r: Option<usize>)
    ensures
        r matches Some(i) ==> category_of(value@) == Some(i as int),
        r is None ==> category_of(value@) is None,
{
    let v = chars_of(value);
    let mut i: usize = 0;
    while i < CATEGORY_COUNT
        invariant
            i <= CATEGORY_COUNT,
            v@ == value@,
            forall|j: int| 0 <= j < i ==> value@ != #[trigger] category_spec(j).0,
        decreases CATEGORY_COUNT - i,
    {
        let c = category(i);
        if chars_eq_str(&v, c.0) {
            return Some(i);
        }
        i += 1;
    }
    assert(value@ != category_spec(0).0);
    assert(value@ != category_spec(1).0);
    assert(value@ != category_spec(2).0);
    assert(value@ != category_spec(3).0);
    assert(value@ != category_spec(4).0);
    None
}

pub open spec fn cat_label_spec(value: Seq<char>) -> Seq<char> {
    match category_of(value) {
        Some(i) => category_spec(i).1 + " "@ + category_spec(i).2,
        None => "\u{1f4cb} "@ + value,
    }
}

/// "emoji name" of a category; unknown values keep their text.
pub fn cat_label(value: &str) -> (s: String)
    ensures
        s@ == cat_label_spec(value@),
{
    match category_index(value) {
        Some(i) => {
            let c = category(i);
            let mut out = chars_of(c.1);
            push_str(&mut out, " ");
            push_str(&mut out, c.2);
            string_from(&out)
        },
        None => crate::text::concat_str("\u{1f4cb} ", value),
    }
}

pub open spec fn cat_emoji_spec(value: Seq<char>) -> Seq<char> {
    match category_of(value) {
        Some(i) => category_spec(i).1,
        None => "\u{1f4cb}"@,
    }
}

/// The emoji of a category; a clipboard for unknown values.
pub fn cat_emoji(value: &str) -> (s: &'static str)
    ensures
        s@ == cat_emoji_spec(value@),
{
    match category_index(value) {
        Some(i) => category(i).1,
        None => "\u{1f4cb}",
    }
}

// ── owner, ids and timestamps ───────────────────────────────────────────

/// Whether `user_id` is the bot owner named by `owner_id`.
pub fn is_owner(owner_id: &str, user_id: u64) -> (b: bool)
    ensures
        b == (owner_id@ == decimal(user_id as nat)),
{
    let u = u64_to_string(user_id);
    chars_eq_str(&chars_of(u.as_str()), owner_id)
}

pub open spec fn digit36(d: nat) -> char {
    if d < 10 {
        (('0' as u32) + d) as char
    } else {
        (('A' as u32) + (d - 10)) as char
    }
}

/// `n` in base 36 with digits `0-9A-Z`, without leading zeros.
pub open spec fn base36_spec(n: nat) -> Seq<char>
    decreases n,
{
    if n < 36 {
        seq![digit36(n)]
    } else {
        base36_spec(n / 36).push(digit36(n % 36))
    }
}

fn push_base36(out: &mut Vec<char>, n: u64)
    ensures
        final(out)@ == old(out)@ + base36_spec(n as nat),
    decreases n,
{
    let d = n % 36;
    let c = if d < 10 {
        crate::text::char_from_u32_ascii(('0' as u32) + d as u32)
    } else {
        crate::text::char_from_u32_ascii(('A' as u32) + (d - 10) as u32)
    };
    if n < 36 {
        out.push(c);
        assert(final(out)@ =~= old(out)@ + base36_spec(n as nat));
    } else {
        push_base36(out, n / 36);
        out.push(c);
        assert(final(out)@ =~= old(out)@ + base36_spec(n as nat));
    }
}

/// `n` written in base 36.
pub fn base36(n: u64) -> (s: String)
    ensures
        s@ == base36_spec(n as nat),
{
    let mut out: Vec<char> = Vec::new();
    push_base36(&mut out, n);
    assert(out@ =~= base36_spec(n as nat));
    string_from(&out)
}

/// The id of a report filed at `millis` (Unix milliseconds).
pub fn report_id_for(millis: u64) -> (s: String)
    ensures
        s@ == "RPT-"@ + base36_spec(millis as nat),
{
    let b = base36(millis);
    crate::text::concat_str("RPT-", b.as_str())
}

/// The Unix time (seconds) of an RFC 3339 timestamp, as
/// `chrono::DateTime::parse_from_rfc3339(..).timestamp()` computes it;
/// `None` when chrono rejects the text.
pub uninterp spec fn rfc3339_seconds(iso: Seq<char>) -> Option<i64>;

/// Calls `chrono::DateTime::parse_from_rfc3339` and `timestamp()`. The
/// contract claims only that the result is a function of the text.
#[verifier::external_body]
fn parse_rfc3339(iso: &str) -> (r: Option<i64>)
    ensures
        r == rfc3339_seconds(iso@),
{
    chrono::DateTime::parse_from_rfc3339(iso).ok().map(|d| d.timestamp())
}

pub open spec fn discord_ts_spec(iso: Seq<char>, style: char) -> Seq<char> {
    match rfc3339_seconds(iso) {
        Some(t) => "<t:"@ + signed_decimal(t as int) + seq![':', style, '>'],
        None => "-"@,
    }
}

/// A Discord timestamp tag (`<t:SECONDS:STYLE>`) for an RFC 3339 time, or
/// "-" when it does not parse.
pub fn discord_ts(iso: &str, style: char) -> (s: String)
    ensures
        s@ == discord_ts_spec(iso@, style),
{
    match parse_rfc3339(iso) {
        Some(t) => {
            let mut out = chars_of("<t:");
            push_signed(&mut out, t);
            out.push(':');
            out.push(style);
            out.push('>');
            assert(out@ =~= "<t:"@ + signed_decimal(t as int) + seq![':', style, '>']);
            string_from(&out)
        },
        None => "-".to_owned(),
    }
}

// ── dashboard paging ────────────────────────────────────────────────────

/// Reports shown per dashboard page.
pub const REPORTS_PER_PAGE: usize = 4;

/// Pages needed for `total` reports (at least one, shown empty).
pub open spec fn page_count(total: nat) -> int {
    if total == 0 {
        1
    } else {
        ((total + 3) / 4) as int
    }
}

/// The requested page, clamped to the pages that exist.
pub open spec fn clamp_page(total: nat, page: int) -> int {
    if page < 0 {
        0
    } else if page > page_count(total) - 1 {
        page_count(total) - 1
    } else {
        page
    }
}

pub open spec fn page_start(total: nat, page: int) -> int {
    clamp_page(total, page) * 4
}

pub open spec fn page_end(total: nat, page: int) -> int {
    if page_start(total, page) + 4 <= total {
        page_start(total, page) + 4
    } else {
        total as int
    }
}

/// One page of the dashboard: the page shown, how many there are, and
/// the range of report indices it lists.
#[derive(Clone, Copy, Debug)]
pub struct DashPage {
    pub page: i64,
    pub total_pages: i64,
    pub start: usize,
    pub end: usize,
}

/// Picks the page to show of `total` reports when `page` is asked for.
pub fn dashboard_page(total: usize, page: i64) -> (p: DashPage)
    ensures
        p.total_pages == page_count(total as nat),
        p.page == clamp_page(total as nat, page as int),
        p.start == page_start(total as nat, page as int),
        p.end == page_end(total as nat, page as int),
{
    let tp: usize = if total == 0 {
        1
    } else if total % 4 == 0 {
        total / 4
    } else {
        total / 4 + 1
    };
    assert(tp == page_count(total as nat));
    let tpi = tp as i64;
    let safe: i64 = if page < 0 {
        0
    } else if page > tpi - 1 {
        tpi - 1
    } else {
        page
    };
    let start = (safe as usize) * 4;
    assert(start <= total);
    let end = if total - start >= 4 {
        start + 4
    } else {
        total
    };
    DashPage { page: safe, total_pages: tpi, start, end }
}

/// Everything the dashboard shows around its cards, for `total` listed
/// reports with page `page` asked for.
pub struct DashView {
    pub page: DashPage,
    pub header: String,
    pub prev: NavButton,
    pub filter: NavButton,
    pub next: NavButton,
}

/// The dashboard's page, header and navigation row: `dashboard_page`, then
/// `dashboard_header` and `dashboard_nav` on the page it picked.
pub fn dashboard_view(
    total: usize,
    page: i64,
    total_n: u64,
    open_n: u64,
    resolved_n: u64,
    filter: ReportFilter,
) -> (v: DashView)
    ensures
        v.page.total_pages == page_count(total as nat),
        v.page.page == clamp_page(total as nat, page as int),
        v.page.start == page_start(total as nat, page as int),
        v.page.end == page_end(total as nat, page as int),
        v.header@ == dashboard_header_spec(
            total_n,
            open_n,
            resolved_n,
            filter,
            v.page.page,
            v.page.total_pages,
        ),
        v.prev.id@ == nav_button_id_spec(v.page.page - 1, filter),
        v.prev.enabled == (v.page.page != 0),
        v.filter.id@ == filter_button_id_spec(filter),
        v.filter.label@ == filter.button_label_spec(),
        v.next.id@ == nav_button_id_spec(v.page.page + 1, filter),
        v.next.enabled == (v.page.page < v.page.total_pages - 1),
{
    let p = dashboard_page(total, page);
    assert(p.page <= page_count(total as nat) - 1);
    assert(page_count(total as nat) < i64::MAX) by {
        assert(total <= usize::MAX);
    }
    let header = dashboard_header(total_n, open_n, resolved_n, filter, p.page, p.total_pages);
    let (prev, fb, next) = dashboard_nav(p.page, p.total_pages, filter);
    DashView { page: p, header, prev, filter: fb, next }
}

/// Every report appears on the page its index falls in: the pages of the
/// dashboard cover all reports.
pub proof fn lemma_page_of_report(total: nat, i: nat)
    requires
        i < total,
    ensures
        page_start(total, (i / 4) as int) <= i < page_end(total, (i / 4) as int),
{
}

/// A page lists at most four reports, and none outside the list.
pub proof fn lemma_page_bounds(total: nat, page: int)
    ensures
        0 <= clamp_page(total, page) < page_count(total),
        0 <= page_start(total, page) <= page_end(total, page) <= total,
        page_end(total, page) - page_start(total, page) <= 4,
        total > 0 ==> page_start(total, page) < page_end(total, page),
{
}

// ── dashboard texts and buttons ─────────────────────────────────────────

pub open spec fn dashboard_header_spec(
    total_n: u64,
    open_n: u64,
    resolved_n: u64,
    filter: ReportFilter,
    page: i64,
    total_pages: i64,
) -> Seq<char> {
    config::WRENCH@ + "  Report Dashboard\n\u{1f4cb} **Total:** `"@ + decimal(total_n as nat)
        + "`  \u{2022}  \u{1f534} **Open:** `"@ + decimal(open_n as nat)
        + "`  \u{2022}  \u{2705} **Resolved:** `"@ + decimal(resolved_n as nat)
        + "`\n*Showing: "@ + filter.label_spec() + "  \u{2022}  Page "@ + signed_decimal(
        page + 1,
    ) + " / "@ + signed_decimal(total_pages as int)
        + " \u{2014} buttons below cycle filters & pages.*"@
}

/// The heading of the dashboard: counts, the filter and the page.
pub fn dashboard_header(
    total_n: u64,
    open_n: u64,
    resolved_n: u64,
    filter: ReportFilter,
    page: i64,
    total_pages: i64,
) -> (s: String)
    requires
        page < i64::MAX,
    ensures
        s@ == dashboard_header_spec(total_n, open_n, resolved_n, filter, page, total_pages),
{
    let mut out = chars_of(config::WRENCH);
    push_str(&mut out, "  Report Dashboard\n\u{1f4cb} **Total:** `");
    push_decimal(&mut out, total_n);
    push_str(&mut out, "`  \u{2022}  \u{1f534} **Open:** `");
    push_decimal(&mut out, open_n);
    push_str(&mut out, "`  \u{2022}  \u{2705} **Resolved:** `");
    push_decimal(&mut out, resolved_n);
    push_str(&mut out, "`\n*Showing: ");
    push_str(&mut out, filter.label());
    push_str(&mut out, "  \u{2022}  Page ");
    push_signed(&mut out, page + 1);
    push_str(&mut out, " / ");
    push_signed(&mut out, total_pages);
    push_str(&mut out, " \u{2014} buttons below cycle filters & pages.*");
    string_from(&out)
}

/// `s` with every line break followed by a quote marker (`> `).
pub open spec fn quote_lines(s: Seq<char>) -> Seq<char>
    decreases s.len(),
{
    if s.len() == 0 {
        Seq::empty()
    } else {
        quote_lines(s.drop_last()) + if s.last() == '\n' {
            "\n> "@
        } else {
            seq![s.last()]
        }
    }
}

/// How many characters of a description the dashboard previews.
pub const PREVIEW_CHARS: usize = 110;

/// The first 110 characters of a description (with an ellipsis when it is
/// longer), its lines quoted.
pub open spec fn preview_spec(d: Seq<char>) -> Seq<char> {
    quote_lines(
        if d.len() > PREVIEW_CHARS {
            d.take(PREVIEW_CHARS as int) + "\u{2026}"@
        } else {
            d
        },
    )
}

fn push_quoted(out: &mut Vec<char>, s: &Vec<char>)
    ensures
        final(out)@ == old(out)@ + quote_lines(s@),
{
    let ghost start = out@;
    let mut i: usize = 0;
    assert(s@.take(0) =~= Seq::<char>::empty());
    assert(start + Seq::<char>::empty() =~= start);
    while i < s.len()
        invariant
            i <= s@.len(),
            out@ == start + quote_lines(s@.take(i as int)),
        decreases s.len() - i,
    {
        assert(s@.take(i + 1).drop_last() =~= s@.take(i as int));
        assert(s@.take(i + 1).last() == s@[i as int]);
        let ghost before = out@;
        if s[i] == '\n' {
            push_str(out, "\n> ");
        } else {
            out.push(s[i]);
            assert(out@ =~= before + seq![s@[i as int]]);
        }
        i += 1;
        assert(out@ =~= start + quote_lines(s@.take(i as int)));
    }
    assert(s@.take(s@.len() as int) =~= s@);
}

pub open spec fn status_spec(resolved: bool) -> Seq<char> {
    if resolved {
        "\u{2705} Resolved"@
    } else {
        "\u{1f534} Open"@
    }
}

pub open spec fn or_unknown(o: Option<String>) -> Seq<char> {
    match o {
        Some(t) => t@,
        None => "Unknown"@,
    }
}

/// The dashboard card of one report.
pub open spec fn report_card_spec(r: ReportRow) -> Seq<char> {
    "### "@ + cat_emoji_spec(r.category@) + " "@ + cat_label_spec(r.category@) + "  \u{b7}  "@
        + status_spec(r.resolved) + "\n**`"@ + r.report_id@ + "`**  \u{2022}  **"@ + r.username@
        + "** (<@"@ + r.user_id@ + ">)\n**Server:** "@ + or_unknown(r.guild_name)
        + "  \u{2022}  **#**"@ + or_unknown(r.channel_name) + "  \u{2022}  "@ + discord_ts_spec(
        r.created_at@,
        'R',
    ) + "\n\n> "@ + preview_spec(r.description@) + (if r.steps is Some {
        "\n\n*Includes steps to reproduce*"@
    } else {
        Seq::empty()
    }) + (match r.resolved_at {
        Some(ra) => if r.resolved {
            "\n\n\u{2705} *Resolved "@ + discord_ts_spec(ra@, 'R') + "*"@
        } else {
            Seq::empty()
        },
        None => Seq::empty(),
    })
}

/// A dashboard card shows whether the report is open or resolved next to
/// its id, and flags reports that came with steps to reproduce.
#[verifier::spinoff_prover]
#[verifier::rlimit(60)]
pub proof fn lemma_card_shows_status(r: ReportRow)
    ensures
        crate::text::contains_seq(
            report_card_spec(r),
            "  \u{b7}  "@ + (if r.resolved {
                "\u{2705} Resolved"@
            } else {
                "\u{1f534} Open"@
            }) + "\n**`"@ + r.report_id@ + "`**"@,
        ),
        r.steps is Some ==> crate::text::contains_seq(
            report_card_spec(r),
            "\n\n*Includes steps to reproduce*"@,
        ),
{
    let a = "### "@ + cat_emoji_spec(r.category@) + " "@ + cat_label_spec(r.category@);
    let st = "  \u{b7}  "@ + status_spec(r.resolved) + "\n**`"@ + r.report_id@ + "`**"@;
    let mid = "  \u{2022}  **"@ + r.username@ + "** (<@"@ + r.user_id@ + ">)\n**Server:** "@
        + or_unknown(r.guild_name) + "  \u{2022}  **#**"@ + or_unknown(r.channel_name)
        + "  \u{2022}  "@ + discord_ts_spec(r.created_at@, 'R') + "\n\n> "@ + preview_spec(
        r.description@,
    );
    let steps = if r.steps is Some {
        "\n\n*Includes steps to reproduce*"@
    } else {
        Seq::empty()
    };
    let res = match r.resolved_at {
        Some(ra) => if r.resolved {
            "\n\n\u{2705} *Resolved "@ + discord_ts_spec(ra@, 'R') + "*"@
        } else {
            Seq::empty()
        },
        None => Seq::empty(),
    };
    reveal_strlit("  \u{b7}  ");
    reveal_strlit("\n**`");
    reveal_strlit("`**");
    reveal_strlit("`**  \u{2022}  **");
    reveal_strlit("  \u{2022}  **");
    assert(report_card_spec(r) =~= a + st + (mid + steps + res));
    crate::text::lemma_contains_middle(a, st, mid + steps + res);
    assert(report_card_spec(r) =~= (a + st + mid) + steps + res);
    crate::text::lemma_contains_middle(a + st + mid, steps, res);
}

/// The reporter's notice names the report and repeats the description.
pub proof fn lemma_resolved_dm_names_report(r: ReportRow)
    ensures
        crate::text::contains_seq(resolved_dm_spec(r), "**ID:** `"@ + r.report_id@ + "`"@),
        crate::text::contains_seq(
            resolved_dm_spec(r),
            "### \u{1f4dd} Your Description\n"@ + r.description@,
        ),
{
    let a = "## \u{2705} Your Report Has Been Resolved!\n\n### \u{1f4cb} Report Details\n"@;
    let id = "**ID:** `"@ + r.report_id@ + "`"@;
    let b = "\n**Category:** "@ + cat_label_spec(r.category@) + "\n**Submitted:** "@
        + discord_ts_spec(r.created_at@, 'F') + "\n\n"@;
    let d = "### \u{1f4dd} Your Description\n"@ + r.description@;
    let e = "\n\nThe developer has reviewed and resolved your report. Thank you for helping improve the bot! \u{1f44b}"@;
    reveal_strlit("## \u{2705} Your Report Has Been Resolved!\n\n### \u{1f4cb} Report Details\n**ID:** `");
    reveal_strlit("## \u{2705} Your Report Has Been Resolved!\n\n### \u{1f4cb} Report Details\n");
    reveal_strlit("**ID:** `");
    reveal_strlit("`\n**Category:** ");
    reveal_strlit("`");
    reveal_strlit("\n**Category:** ");
    reveal_strlit("\n\n### \u{1f4dd} Your Description\n");
    reveal_strlit("\n\n");
    reveal_strlit("### \u{1f4dd} Your Description\n");
    assert(resolved_dm_spec(r) =~= a + id + (b + d + e));
    crate::text::lemma_contains_middle(a, id, b + d + e);
    assert(resolved_dm_spec(r) =~= (a + id + b) + d + e);
    crate::text::lemma_contains_middle(a + id + b, d, e);
}

fn push_or_unknown(out: &mut Vec<char>, o: &Option<String>)
    ensures
        final(out)@ == old(out)@ + or_unknown(*o),
{
    match o {
        Some(t) => push_str(out, t.as_str()),
        None => push_str(out, "Unknown"),
    }
}

/// The text of a report's dashboard card.
pub fn report_card(r: &ReportRow) -> (s: String)
    ensures
        s@ == report_card_spec(*r),
{
    let mut out = chars_of("### ");
    push_str(&mut out, cat_emoji(r.category.as_str()));
    push_str(&mut out, " ");
    push_str(&mut out, cat_label(r.category.as_str()).as_str());
    push_str(&mut out, "  \u{b7}  ");
    push_str(&mut out, if r.resolved { "\u{2705} Resolved" } else { "\u{1f534} Open" });
    push_str(&mut out, "\n**`");
    push_str(&mut out, r.report_id.as_str());
    push_str(&mut out, "`**  \u{2022}  **");
    push_str(&mut out, r.username.as_str());
    push_str(&mut out, "** (<@");
    push_str(&mut out, r.user_id.as_str());
    push_str(&mut out, ">)\n**Server:** ");
    push_or_unknown(&mut out, &r.guild_name);
    push_str(&mut out, "  \u{2022}  **#**");
    push_or_unknown(&mut out, &r.channel_name);
    push_str(&mut out, "  \u{2022}  ");
    push_str(&mut out, discord_ts(r.created_at.as_str(), 'R').as_str());
    push_str(&mut out, "\n\n> ");
    let d = chars_of(r.description.as_str());
    let shown = if d.len() > PREVIEW_CHARS {
        let mut t = crate::text::slice_of(&d, 0, PREVIEW_CHARS);
        push_str(&mut t, "\u{2026}");
        t
    } else {
        d
    };
    push_quoted(&mut out, &shown);
    let ghost mid = out@;
    if r.steps.is_some() {
        push_str(&mut out, "\n\n*Includes steps to reproduce*");
    } else {
        assert(out@ =~= mid + Seq::<char>::empty());
    }
    let ghost mid2 = out@;
    match &r.resolved_at {
        Some(ra) => {
            if r.resolved {
                push_str(&mut out, "\n\n\u{2705} *Resolved ");
                push_str(&mut out, discord_ts(ra.as_str(), 'R').as_str());
                push_str(&mut out, "*");
            } else {
                assert(out@ =~= mid2 + Seq::<char>::empty());
            }
        },
        None => {
            assert(out@ =~= mid2 + Seq::<char>::empty());
        },
    }
    string_from(&out)
}

pub open spec fn nav_button_id_spec(page: int, filter: ReportFilter) -> Seq<char> {
    "koaai:reports_nav:"@ + signed_decimal(page) + ":"@ + filter.key_spec()
}

/// The id of a page button: the page it opens and the current filter.
pub fn nav_button_id(page: i64, filter: ReportFilter) -> (s: String)
    ensures
        s@ == nav_button_id_spec(page as int, filter),
{
    let mut out = chars_of("koaai:reports_nav:");
    push_signed(&mut out, page);
    push_str(&mut out, ":");
    push_str(&mut out, filter.key());
    string_from(&out)
}

pub open spec fn filter_button_id_spec(filter: ReportFilter) -> Seq<char> {
    "koaai:reports_filter:"@ + filter.next_spec().key_spec() + ":0"@
}

/// The id of the filter button: the next filter, from its first page.
pub fn filter_button_id(filter: ReportFilter) -> (s: String)
    ensures
        s@ == filter_button_id_spec(filter),
{
    let mut out = chars_of("koaai:reports_filter:");
    push_str(&mut out, filter.next().key());
    push_str(&mut out, ":0");
    string_from(&out)
}

/// The id of the button that resolves a report.
pub fn resolve_button_id(report_id: &str) -> (s: String)
    ensures
        s@ == "koaai:report_resolve:"@ + report_id@,
{
    crate::text::concat_str("koaai:report_resolve:", report_id)
}

/// A button of the dashboard: its id, its label and whether it can be
/// pressed.
pub struct NavButton {
    pub id: String,
    pub label: &'static str,
    pub enabled: bool,
}

/// The navigation row of dashboard page `page` (0-based) of `total_pages`:
/// previous page (off on the first page), next filter, next page (off on
/// the last page).
pub fn dashboard_nav(page: i64, total_pages: i64, filter: ReportFilter) -> (r: (
    NavButton,
    NavButton,
    NavButton,
))
    requires
        0 <= page < i64::MAX,
    ensures
        r.0.id@ == nav_button_id_spec(page - 1, filter),
        r.0.label@ == "\u{2190} Prev"@,
        r.0.enabled == (page != 0),
        r.1.id@ == filter_button_id_spec(filter),
        r.1.label@ == filter.button_label_spec(),
        r.1.enabled,
        r.2.id@ == nav_button_id_spec(page + 1, filter),
        r.2.label@ == "Next \u{2192}"@,
        r.2.enabled == (page < total_pages - 1),
{
    (
        NavButton { id: nav_button_id(page - 1, filter), label: "\u{2190} Prev", enabled: page != 0 },
        NavButton { id: filter_button_id(filter), label: filter.button_label(), enabled: true },
        NavButton {
            id: nav_button_id(page + 1, filter),
            label: "Next \u{2192}",
            enabled: page + 1 < total_pages,
        },
    )
}

/// The resolve button a report card carries: only open reports have one.
pub fn resolve_button(r: &ReportRow) -> (b: Option<String>)
    ensures
        r.resolved ==> b is None,
        !r.resolved ==> (b matches Some(id) && id@ == "koaai:report_resolve:"@ + r.report_id@),
{
    if r.resolved {
        None
    } else {
        Some(resolve_button_id(r.report_id.as_str()))
    }
}

/// The page and filter that a page or filter button asks for: the id
/// split on `:` must be `koaai:reports_nav:PAGE:FILTER` or
/// `koaai:reports_filter:FILTER:PAGE`; a page that does not parse is 0.
pub open spec fn parse_nav_id_spec(id: Seq<char>) -> Option<(i64, ReportFilter)> {
    let parts = crate::text::split_class(id, crate::text::CharClass::Colon);
    if parts.len() == 4 && parts[0] == "koaai"@ && parts[1] == "reports_nav"@ {
        Some(
            (
                match crate::text::parse_i64_spec(parts[2]) {
                    Some(p) => p,
                    None => 0,
                },
                ReportFilter::parse_spec(parts[3]),
            ),
        )
    } else if parts.len() == 4 && parts[0] == "koaai"@ && parts[1] == "reports_filter"@ {
        Some(
            (
                match crate::text::parse_i64_spec(parts[3]) {
                    Some(p) => p,
                    None => 0,
                },
                ReportFilter::parse_spec(parts[2]),
            ),
        )
    } else {
        None
    }
}

fn piece_i64_or_zero(p: &Vec<char>) -> (r: i64)
    ensures
        r == (match crate::text::parse_i64_spec(p@) {
            Some(x) => x,
            None => 0,
        }),
{
    match crate::text::parse_i64(p) {
        Some(x) => x,
        None => 0,
    }
}

/// Reads the id of a dashboard page or filter button.
pub fn parse_nav_id(id: &str) -> (r: Option<(i64, ReportFilter)>)
    ensures
        r == parse_nav_id_spec(id@),
{
    let parts = crate::text::split_exec(&chars_of(id), crate::text::CharClass::Colon);
    let ghost pv = crate::text::views(parts@);
    if parts.len() != 4 {
        return None;
    }
    assert(pv[0] == parts@[0]@ && pv[1] == parts@[1]@ && pv[2] == parts@[2]@ && pv[3]
        == parts@[3]@);
    if !chars_eq_str(&parts[0], "koaai") {
        return None;
    }
    if chars_eq_str(&parts[1], "reports_nav") {
        let page = piece_i64_or_zero(&parts[2]);
        let f = ReportFilter::parse(string_from(&parts[3]).as_str());
        Some((page, f))
    } else if chars_eq_str(&parts[1], "reports_filter") {
        let page = piece_i64_or_zero(&parts[3]);
        let f = ReportFilter::parse(string_from(&parts[2]).as_str());
        Some((page, f))
    } else {
        None
    }
}

proof fn lemma_key_has_no_colon(f: ReportFilter)
    ensures
        forall|i: int|
            0 <= i < f.key_spec().len() ==> !crate::text::in_class(
                crate::text::CharClass::Colon,
                #[trigger] f.key_spec()[i],
            ),
{
    reveal_strlit("all");
    reveal_strlit("open");
    reveal_strlit("resolved");
}

/// A page button leads to the page and filter it was made for.
pub proof fn lemma_nav_button_roundtrip(page: i64, filter: ReportFilter)
    ensures
        parse_nav_id_spec(nav_button_id_spec(page as int, filter)) == Some((page, filter)),
{
    reveal_strlit("koaai:reports_nav:");
    reveal_strlit(":");
    reveal_strlit("koaai");
    reveal_strlit("reports_nav");
    let d = signed_decimal(page as int);
    let k = filter.key_spec();
    crate::text::lemma_signed_decimal_chars(page as int);
    lemma_key_has_no_colon(filter);
    lemma_split_whole(k, CharClass::Colon);
    lemma_split_after(d, ':', k, CharClass::Colon);
    let nav = "reports_nav"@;
    lemma_split_after(nav, ':', d.push(':') + k, CharClass::Colon);
    let koaai = "koaai"@;
    lemma_split_after(koaai, ':', nav.push(':') + (d.push(':') + k), CharClass::Colon);
    assert(nav_button_id_spec(page as int, filter) =~= koaai.push(':') + (nav.push(':') + (d.push(
        ':',
    ) + k)));
    let parts = split_class(nav_button_id_spec(page as int, filter), CharClass::Colon);
    assert(parts =~= seq![koaai, nav, d, k]);
    crate::text::lemma_parse_signed_decimal(page);
    lemma_filter_key_roundtrip(filter);
}

/// The filter button leads to the next filter's first page.
pub proof fn lemma_filter_button_roundtrip(filter: ReportFilter)
    ensures
        parse_nav_id_spec(filter_button_id_spec(filter)) == Some((0i64, filter.next_spec())),
{
    reveal_strlit("koaai:reports_filter:");
    reveal_strlit(":0");
    reveal_strlit("koaai");
    reveal_strlit("reports_filter");
    reveal_strlit("reports_nav");
    let k = filter.next_spec().key_spec();
    let zero = seq!['0'];
    lemma_key_has_no_colon(filter.next_spec());
    lemma_split_whole(zero, CharClass::Colon);
    lemma_split_after(k, ':', zero, CharClass::Colon);
    let fl = "reports_filter"@;
    lemma_split_after(fl, ':', k.push(':') + zero, CharClass::Colon);
    let koaai = "koaai"@;
    lemma_split_after(koaai, ':', fl.push(':') + (k.push(':') + zero), CharClass::Colon);
    assert(filter_button_id_spec(filter) =~= koaai.push(':') + (fl.push(':') + (k.push(':')
        + zero)));
    let parts = split_class(filter_button_id_spec(filter), CharClass::Colon);
    assert(parts =~= seq![koaai, fl, k, zero]);
    assert(fl.len() == 14 && "reports_nav"@.len() == 11);
    assert(crate::text::decimal(0) == zero);
    crate::text::lemma_parse_signed_decimal(0i64);
    lemma_filter_key_roundtrip(filter.next_spec());
}

// ── report flow: routing and texts ──────────────────────────────────────

/// What a component interaction means to the report flow.
#[derive(Debug)]
pub enum ReportAction {
    /// A category was picked in the report form.
    PickCategory,
    /// A dashboard page or filter button.
    Browse,
    /// The resolve button of the report with this id.
    Resolve(String),
    /// Not a report component.
    Other,
}

/// Routes a component id of the report flow.
pub fn report_action(custom_id: &str) -> (a: ReportAction)
    ensures
        custom_id@ == "koaai:reportcat"@ ==> a is PickCategory,
        custom_id@ != "koaai:reportcat"@ && (crate::text::starts_with(
            custom_id@,
            "koaai:reports_nav:"@,
        ) || crate::text::starts_with(custom_id@, "koaai:reports_filter:"@)) ==> a is Browse,
        custom_id@ != "koaai:reportcat"@ && !crate::text::starts_with(
            custom_id@,
            "koaai:reports_nav:"@,
        ) && !crate::text::starts_with(custom_id@, "koaai:reports_filter:"@) ==> (
        if crate::text::starts_with(custom_id@, "koaai:report_resolve:"@) {
            a matches ReportAction::Resolve(id) && "koaai:report_resolve:"@ + id@ == custom_id@
        } else {
            a is Other
        }),
{
    proof {
        reveal_strlit("koaai:report_resolve:");
    }
    let v = chars_of(custom_id);
    if chars_eq_str(&v, "koaai:reportcat") {
        return ReportAction::PickCategory;
    }
    if crate::text::starts_with_exec(&v, "koaai:reports_nav:") || crate::text::starts_with_exec(
        &v,
        "koaai:reports_filter:",
    ) {
        return ReportAction::Browse;
    }
    if crate::text::starts_with_exec(&v, "koaai:report_resolve:") {
        let rest = crate::text::suffix_from(&v, 21);
        assert("koaai:report_resolve:"@ + rest@ =~= custom_id@);
        return ReportAction::Resolve(string_from(&rest));
    }
    ReportAction::Other
}

/// The id of the report form for a category.
pub fn modal_id(category: &str) -> (s: String)
    ensures
        s@ == "koaai:reportmodal:"@ + category@,
{
    crate::text::concat_str("koaai:reportmodal:", category)
}

/// The category of a submitted report form.
pub fn modal_category(custom_id: &str) -> (r: Option<String>)
    ensures
        r matches Some(c) ==> custom_id@ == "koaai:reportmodal:"@ + c@,
        r is None ==> !crate::text::starts_with(custom_id@, "koaai:reportmodal:"@),
{
    proof {
        reveal_strlit("koaai:reportmodal:");
    }
    let v = chars_of(custom_id);
    if crate::text::starts_with_exec(&v, "koaai:reportmodal:") {
        let rest = crate::text::suffix_from(&v, 18);
        assert("koaai:reportmodal:"@ + rest@ =~= custom_id@);
        Some(string_from(&rest))
    } else {
        None
    }
}

/// A submitted form reads back the category it was opened for.
pub proof fn lemma_modal_category_roundtrip(category: Seq<char>)
    ensures
        crate::text::starts_with("koaai:reportmodal:"@ + category, "koaai:reportmodal:"@),
        forall|c: Seq<char>|
            "koaai:reportmodal:"@ + category == "koaai:reportmodal:"@ + c ==> c == category,
{
    let p = "koaai:reportmodal:"@;
    assert((p + category).take(p.len() as int) =~= p);
    assert forall|c: Seq<char>| p + category == p + c implies c == category by {
        assert((p + category).skip(p.len() as int) =~= category);
        assert((p + c).skip(p.len() as int) =~= c);
    }
}

/// A resolve button leads to the report it was made for.
pub proof fn lemma_resolve_button_roundtrip(report_id: Seq<char>)
    ensures
        crate::text::starts_with("koaai:report_resolve:"@ + report_id, "koaai:report_resolve:"@),
        forall|c: Seq<char>|
            "koaai:report_resolve:"@ + report_id == "koaai:report_resolve:"@ + c ==> c == report_id,
{
    let p = "koaai:report_resolve:"@;
    assert((p + report_id).take(p.len() as int) =~= p);
    assert forall|c: Seq<char>| p + report_id == p + c implies c == report_id by {
        assert((p + report_id).skip(p.len() as int) =~= report_id);
        assert((p + c).skip(p.len() as int) =~= c);
    }
}

/// The text a form field holds, trimmed.
pub fn field_value(raw: &str) -> (s: String)
    ensures
        s@ == crate::text::trim_ws(raw@),
{
    string_from(&crate::text::trim_class(&chars_of(raw), CharClass::Whitespace))
}

pub open spec fn report_form_text_spec() -> Seq<char> {
    "## "@ + config::WRENCH@
        + " Report a Bug or Give Feedback\nGot a problem or a great idea? Tell the developer directly!\n\n### What can you report?\n"@
        + category_lines(CATEGORY_COUNT as int)
}

/// "emoji  **name** — description" lines of the first `n` categories.
pub open spec fn category_lines(n: int) -> Seq<char>
    decreases n,
{
    if n <= 0 {
        Seq::empty()
    } else {
        category_lines(n - 1) + category_spec(n - 1).1 + "  **"@ + category_spec(n - 1).2
            + "** \u{2014} "@ + category_spec(n - 1).3 + "\n"@
    }
}

/// The body of the report form: what can be reported.
pub fn report_form_text() -> (s: String)
    ensures
        s@ == report_form_text_spec(),
{
    let mut out = chars_of("## ");
    push_str(&mut out, config::WRENCH);
    push_str(
        &mut out,
        " Report a Bug or Give Feedback\nGot a problem or a great idea? Tell the developer directly!\n\n### What can you report?\n",
    );
    let ghost head = out@;
    let mut i: usize = 0;
    assert(head + category_lines(0) =~= head);
    while i < CATEGORY_COUNT
        invariant
            i <= CATEGORY_COUNT,
            out@ == head + category_lines(i as int),
        decreases CATEGORY_COUNT - i,
    {
        let c = category(i);
        push_str(&mut out, c.1);
        push_str(&mut out, "  **");
        push_str(&mut out, c.2);
        push_str(&mut out, "** \u{2014} ");
        push_str(&mut out, c.3);
        push_str(&mut out, "\n");
        i += 1;
        assert(out@ =~= head + category_lines(i as int));
    }
    string_from(&out)
}

/// "**LEAD NAME** — `ID`" (a "?" for a missing id), or `none`.
pub open spec fn id_line(name: Option<String>, id: Option<String>, lead: Seq<char>, none: Seq<
    char,
>) -> Seq<char> {
    match name {
        Some(g) => "**"@ + lead + g@ + "** \u{2014} `"@ + (match id {
            Some(x) => x@,
            None => "?"@,
        }) + "`"@,
        None => none,
    }
}

pub open spec fn server_line(r: ReportRow) -> Seq<char> {
    id_line(r.guild_name, r.guild_id, ""@, "*Direct Message*"@)
}

pub open spec fn channel_line(r: ReportRow) -> Seq<char> {
    id_line(r.channel_name, r.channel_id, "#"@, "*Unknown*"@)
}

/// The direct message the owner gets for a new report.
pub open spec fn owner_dm_spec(r: ReportRow) -> Seq<char> {
    "## "@ + cat_emoji_spec(r.category@) + " New Report \u{b7} "@ + cat_label_spec(r.category@)
        + "\n### `"@ + r.report_id@ + "`\n\n### \u{1f464} Reporter\n**"@ + r.username@
        + "** \u{2014} `"@ + r.user_id@ + "`\n\n### \u{1f3e0} Server\n"@ + server_line(r)
        + "\n\n### \u{1f4cd} Channel\n"@ + channel_line(r) + "\n\n### \u{23f0} Submitted\n"@
        + discord_ts_spec(r.created_at@, 'F') + "\n\n### \u{1f4dd} Description\n"@
        + r.description@ + (match r.steps {
        Some(t) => "\n\n### \u{1f522} Steps to Reproduce\n"@ + t@,
        None => Seq::empty(),
    }) + (match r.extra {
        Some(t) => "\n\n### \u{1f4ce} Additional Info\n"@ + t@,
        None => Seq::empty(),
    }) + "\n\n**Mention:** <@"@ + r.user_id@
        + ">\n*Use `+reports` to view & resolve all reports*"@
}

/// Everything the reporter wrote reaches the owner: the description, the
/// steps to reproduce and the additional info, each under its heading, and
/// a mention of the reporter closes the message.
pub proof fn lemma_owner_dm_carries_report(r: ReportRow)
    ensures
        crate::text::contains_seq(owner_dm_spec(r), "\n\n### \u{1f4dd} Description\n"@ + r.description@),
        r.steps matches Some(t) ==> crate::text::contains_seq(
            owner_dm_spec(r),
            "\n\n### \u{1f522} Steps to Reproduce\n"@ + t@,
        ),
        r.extra matches Some(t) ==> crate::text::contains_seq(
            owner_dm_spec(r),
            "\n\n### \u{1f4ce} Additional Info\n"@ + t@,
        ),
        crate::text::ends_with(
            owner_dm_spec(r),
            "\n\n**Mention:** <@"@ + r.user_id@ + ">\n*Use `+reports` to view & resolve all reports*"@,
        ),
{
    let head = "## "@ + cat_emoji_spec(r.category@) + " New Report \u{b7} "@ + cat_label_spec(
        r.category@,
    ) + "\n### `"@ + r.report_id@ + "`\n\n### \u{1f464} Reporter\n**"@ + r.username@
        + "** \u{2014} `"@ + r.user_id@ + "`\n\n### \u{1f3e0} Server\n"@ + server_line(r)
        + "\n\n### \u{1f4cd} Channel\n"@ + channel_line(r) + "\n\n### \u{23f0} Submitted\n"@
        + discord_ts_spec(r.created_at@, 'F');
    let desc = "\n\n### \u{1f4dd} Description\n"@ + r.description@;
    let steps = match r.steps {
        Some(t) => "\n\n### \u{1f522} Steps to Reproduce\n"@ + t@,
        None => Seq::empty(),
    };
    let extra = match r.extra {
        Some(t) => "\n\n### \u{1f4ce} Additional Info\n"@ + t@,
        None => Seq::empty(),
    };
    let tail = "\n\n**Mention:** <@"@ + r.user_id@ + ">\n*Use `+reports` to view & resolve all reports*"@;
    reveal_strlit("\n\n### \u{1f4dd} Description\n");
    assert(owner_dm_spec(r) =~= head + desc + (steps + extra + tail));
    crate::text::lemma_contains_middle(head, desc, steps + extra + tail);
    assert(owner_dm_spec(r) =~= (head + desc) + steps + (extra + tail));
    crate::text::lemma_contains_middle(head + desc, steps, extra + tail);
    assert(owner_dm_spec(r) =~= (head + desc + steps) + extra + tail);
    crate::text::lemma_contains_middle(head + desc + steps, extra, tail);
    let all = head + desc + steps + extra;
    assert(owner_dm_spec(r) =~= all + tail);
    assert((all + tail).skip(all.len() as int) =~= tail);
}

fn push_id_line(out: &mut Vec<char>, name: &Option<String>, id: &Option<String>, lead: &str, none: &str)
    ensures
        final(out)@ == old(out)@ + id_line(*name, *id, lead@, none@),
{
    match name {
        Some(g) => {
            push_str(out, "**");
            push_str(out, lead);
            push_str(out, g.as_str());
            push_str(out, "** \u{2014} `");
            match id {
                Some(x) => push_str(out, x.as_str()),
                None => push_str(out, "?"),
            }
            push_str(out, "`");
        },
        None => push_str(out, none),
    }
}

/// The text of the owner's notification about a new report.
pub fn owner_dm_text(r: &ReportRow) -> (s: String)
    ensures
        s@ == owner_dm_spec(*r),
{
    let mut out = chars_of("## ");
    push_str(&mut out, cat_emoji(r.category.as_str()));
    push_str(&mut out, " New Report \u{b7} ");
    push_str(&mut out, cat_label(r.category.as_str()).as_str());
    push_str(&mut out, "\n### `");
    push_str(&mut out, r.report_id.as_str());
    push_str(&mut out, "`\n\n### \u{1f464} Reporter\n**");
    push_str(&mut out, r.username.as_str());
    push_str(&mut out, "** \u{2014} `");
    push_str(&mut out, r.user_id.as_str());
    push_str(&mut out, "`\n\n### \u{1f3e0} Server\n");
    push_id_line(&mut out, &r.guild_name, &r.guild_id, "", "*Direct Message*");
    push_str(&mut out, "\n\n### \u{1f4cd} Channel\n");
    push_id_line(&mut out, &r.channel_name, &r.channel_id, "#", "*Unknown*");
    push_str(&mut out, "\n\n### \u{23f0} Submitted\n");
    push_str(&mut out, discord_ts(r.created_at.as_str(), 'F').as_str());
    push_str(&mut out, "\n\n### \u{1f4dd} Description\n");
    push_str(&mut out, r.description.as_str());
    let ghost m1 = out@;
    match &r.steps {
        Some(t) => {
            push_str(&mut out, "\n\n### \u{1f522} Steps to Reproduce\n");
            push_str(&mut out, t.as_str());
        },
        None => {
            assert(out@ =~= m1 + Seq::<char>::empty());
        },
    }
    let ghost m2 = out@;
    match &r.extra {
        Some(t) => {
            push_str(&mut out, "\n\n### \u{1f4ce} Additional Info\n");
            push_str(&mut out, t.as_str());
        },
        None => {
            assert(out@ =~= m2 + Seq::<char>::empty());
        },
    }
    push_str(&mut out, "\n\n**Mention:** <@");
    push_str(&mut out, r.user_id.as_str());
    push_str(&mut out, ">\n*Use `+reports` to view & resolve all reports*");
    assert(out@ =~= owner_dm_spec(*r));
    string_from(&out)
}

pub open spec fn resolved_dm_spec(r: ReportRow) -> Seq<char> {
    "## \u{2705} Your Report Has Been Resolved!\n\n### \u{1f4cb} Report Details\n**ID:** `"@
        + r.report_id@ + "`\n**Category:** "@ + cat_label_spec(r.category@) + "\n**Submitted:** "@
        + discord_ts_spec(r.created_at@, 'F') + "\n\n### \u{1f4dd} Your Description\n"@
        + r.description@
        + "\n\nThe developer has reviewed and resolved your report. Thank you for helping improve the bot! \u{1f44b}"@
}

/// The text of the message a reporter gets when the report is resolved.
pub fn resolved_dm_text(r: &ReportRow) -> (s: String)
    ensures
        s@ == resolved_dm_spec(*r),
{
    let mut out = chars_of(
        "## \u{2705} Your Report Has Been Resolved!\n\n### \u{1f4cb} Report Details\n**ID:** `",
    );
    push_str(&mut out, r.report_id.as_str());
    push_str(&mut out, "`\n**Category:** ");
    push_str(&mut out, cat_label(r.category.as_str()).as_str());
    push_str(&mut out, "\n**Submitted:** ");
    push_str(&mut out, discord_ts(r.created_at.as_str(), 'F').as_str());
    push_str(&mut out, "\n\n### \u{1f4dd} Your Description\n");
    push_str(&mut out, r.description.as_str());
    push_str(
        &mut out,
        "\n\nThe developer has reviewed and resolved your report. Thank you for helping improve the bot! \u{1f44b}",
    );
    string_from(&out)
}

/// The confirmation a reporter sees after submitting.
pub fn submitted_text(category: &str, report_id: &str) -> (s: String)
    ensures
        s@ == "## \u{2705} Report Submitted!\n\n**Category:** "@ + cat_label_spec(category@)
            + "\n**Report ID:** `"@ + report_id@
            + "`\n\nYour report went straight to the developer's DMs.\n-# You'll get a DM here the moment it's resolved. Thanks for helping improve the bot! \u{1f44b}"@,
{
    let mut out = chars_of("## \u{2705} Report Submitted!\n\n**Category:** ");
    push_str(&mut out, cat_label(category).as_str());
    push_str(&mut out, "\n**Report ID:** `");
    push_str(&mut out, report_id);
    push_str(
        &mut out,
        "`\n\nYour report went straight to the developer's DMs.\n-# You'll get a DM here the moment it's resolved. Thanks for helping improve the bot! \u{1f44b}",
    );
    string_from(&out)
}

} // verus!
