//! Bot-wide bookkeeping: command prefixes, the stored 24/7 channels, the
//! periodic clean-up and the start-up checks. The database, gateway and
//! timers are driven outside the library.

use vstd::prelude::*;

use crate::settings::Config;
use crate::text::{chars_of, parse_u64, parse_u64_spec};

verus! {

/// The prefix used where a guild set none.
pub fn default_prefix(cfg: &Config) -> (p: String)
    ensures
        p@ == cfg.bot.default_prefix@,
{
    cfg.bot.default_prefix.clone()
}

/// A guild's prefix: the one it set, else the default.
pub fn prefix_or_default(set: Option<String>, cfg: &Config) -> (p: String)
    ensures
        p@ == (match set {
            Some(s) => s@,
            None => cfg.bot.default_prefix@,
        }),
{
    match set {
        Some(s) => s,
        None => default_prefix(cfg),
    }
}

pub open spec fn stored_ids(rows: Seq<(String, String)>) -> Seq<(u64, Seq<char>)>
    decreases rows.len(),
{
    if rows.len() == 0 {
        Seq::empty()
    } else {
        stored_ids(rows.drop_last()) + match parse_u64_spec(rows.last().0@) {
            Some(g) => seq![(g, rows.last().1@)],
            None => Seq::empty(),
        }
    }
}

pub open spec fn prefixes_view(v: Seq<(u64, String)>) -> Seq<(u64, Seq<char>)> {
    v.map_values(|p: (u64, String)| (p.0, p.1@))
}

/// The stored guild prefixes whose guild id parses, in order.
pub fn guild_prefixes(rows: &Vec<(String, String)>) -> (r: Vec<(u64, String)>)
    ensures
        prefixes_view(r@) == stored_ids(rows@),
{
    let mut out: Vec<(u64, String)> = Vec::new();
    let mut i: usize = 0;
    assert(rows@.take(0) =~= Seq::<(String, String)>::empty());
    while i < rows.len()
        invariant
            i <= rows@.len(),
            prefixes_view(out@) == stored_ids(rows@.take(i as int)),
        decreases rows.len() - i,
    {
        assert(rows@.take(i + 1).drop_last() =~= rows@.take(i as int));
        assert(rows@.take(i + 1).last() == rows@[i as int]);
        let ghost before = prefixes_view(out@);
        match parse_u64(&chars_of(rows[i].0.as_str())) {
            Some(g) => {
                let p = rows[i].1.clone();
                out.push((g, p));
                assert(prefixes_view(out@) =~= before + seq![(g, rows@[i as int].1@)]);
            },
            None => {
                assert(prefixes_view(out@) =~= before + Seq::<(u64, Seq<char>)>::empty());
            },
        }
        i += 1;
    }
    assert(rows@.take(rows@.len() as int) =~= rows@);
    out
}

pub open spec fn stored_channels(rows: Seq<(String, String)>) -> Seq<(u64, u64)>
    decreases rows.len(),
{
    if rows.len() == 0 {
        Seq::empty()
    } else {
        stored_channels(rows.drop_last()) + match (
            parse_u64_spec(rows.last().0@),
            parse_u64_spec(rows.last().1@),
        ) {
            (Some(g), Some(c)) => seq![(g, c)],
            _ => Seq::empty(),
        }
    }
}

/// The stored 24/7 channels whose guild and channel ids both parse, in
/// order.
pub fn stay_channels(rows: &Vec<(String, String)>) -> (r: Vec<(u64, u64)>)
    ensures
        r@ == stored_channels(rows@),
{
    let mut out: Vec<(u64, u64)> = Vec::new();
    let mut i: usize = 0;
    assert(rows@.take(0) =~= Seq::<(String, String)>::empty());
    while i < rows.len()
        invariant
            i <= rows@.len(),
            out@ == stored_channels(rows@.take(i as int)),
        decreases rows.len() - i,
    {
        assert(rows@.take(i + 1).drop_last() =~= rows@.take(i as int));
        assert(rows@.take(i + 1).last() == rows@[i as int]);
        let ghost before = out@;
        let g = parse_u64(&chars_of(rows[i].0.as_str()));
        let c = parse_u64(&chars_of(rows[i].1.as_str()));
        match (g, c) {
            (Some(g), Some(c)) => {
                out.push((g, c));
                assert(out@ =~= before + seq![(g, c)]);
            },
            _ => {
                assert(out@ =~= before + Seq::<(u64, u64)>::empty());
            },
        }
        i += 1;
    }
    assert(rows@.take(rows@.len() as int) =~= rows@);
    out
}

/// The bot's user id from the token check; 0 when it does not parse.
pub fn bot_user_id(raw: &str) -> (id: u64)
    ensures
        id == (match parse_u64_spec(raw@) {
            Some(n) => n,
            None => 0,
        }),
{
    match parse_u64(&chars_of(raw)) {
        Some(n) => n,
        None => 0,
    }
}

// ── periodic clean-up ───────────────────────────────────────────────────

/// Clean-up rounds per hour (one every ten minutes).
pub const ROUNDS_PER_HOUR: u8 = 6;

/// Whether a clean-up round that pruned `pruned` guilds reports it: a burst
/// of ten or more, or once an hour.
pub fn gc_report_due(pruned: usize, round: u8) -> (b: bool)
    ensures
        b == (pruned >= 10 || round % 6 == 5),
{
    pruned >= 10 || round % ROUNDS_PER_HOUR == 5
}

/// Whether a queue's spare capacity is worth giving back: more than 32
/// slots and less than half used.
pub fn queue_should_shrink(capacity: usize, len: usize) -> (b: bool)
    ensures
        b == (capacity > 32 && len < capacity / 2),
{
    capacity > 32 && len < capacity / 2
}

/// Whether the database checkpoint is due after round `round` (once an
/// hour).
pub fn checkpoint_due(round: u8) -> (b: bool)
    ensures
        b == (round % 6 == 0),
{
    round % ROUNDS_PER_HOUR == 0
}

/// The guilds to disconnect at shutdown: the 24/7 guilds, then the other
/// known guilds, each once.
pub fn shutdown_guilds(stays: &Vec<u64>, known: &Vec<u64>) -> (r: Vec<u64>)
    ensures
        r@.take(stays@.len() as int) == stays@,
        forall|g: u64| known@.contains(g) ==> #[trigger] r@.contains(g),
        forall|g: u64| #[trigger] r@.contains(g) ==> stays@.contains(g) || known@.contains(g),
        forall|i: int, j: int|
            0 <= i < j < r@.len() && stays@.len() <= j ==> #[trigger] r@[i] != #[trigger] r@[j],
{
    let mut out: Vec<u64> = Vec::new();
    let mut i: usize = 0;
    while i < stays.len()
        invariant
            i <= stays@.len(),
            out@ == stays@.take(i as int),
        decreases stays.len() - i,
    {
        out.push(stays[i]);
        i += 1;
        assert(out@ =~= stays@.take(i as int));
    }
    assert(stays@.take(stays@.len() as int) =~= stays@);
    let mut j: usize = 0;
    while j < known.len()
        invariant
            j <= known@.len(),
            out@.len() >= stays@.len(),
            out@.take(stays@.len() as int) == stays@,
            forall|k: int| 0 <= k < j ==> out@.contains(#[trigger] known@[k]),
            forall|g: u64| #[trigger] out@.contains(g) ==> stays@.contains(g) || known@.contains(g),
            forall|a: int, b: int|
                0 <= a < b < out@.len() && stays@.len() <= b ==> #[trigger] out@[a] != #[trigger] out@[b],
        decreases known.len() - j,
    {
        let g = known[j];
        let mut found = false;
        let mut k: usize = 0;
        while k < out.len()
            invariant
                k <= out@.len(),
                found == (exists|w: int| 0 <= w < k && #[trigger] out@[w] == g),
            decreases out.len() - k,
        {
            if out[k] == g {
                found = true;
            }
            k += 1;
        }
        let ghost before = out@;
        if !found {
            out.push(g);
            proof {
                assert(out@.take(stays@.len() as int) =~= before.take(stays@.len() as int));
                assert forall|g2: u64| #[trigger] out@.contains(g2) implies stays@.contains(g2)
                    || known@.contains(g2) by {
                    let w = choose|w: int| 0 <= w < out@.len() && out@[w] == g2;
                    if w < before.len() {
                        assert(before[w] == g2);
                        assert(before.contains(g2));
                    } else {
                        assert(known@[j as int] == g2);
                    }
                }
                assert forall|k3: int| 0 <= k3 < j + 1 implies out@.contains(#[trigger] known@[k3]) by {
                    if k3 < j {
                        let w = choose|w: int| 0 <= w < before.len() && before[w] == known@[k3];
                        assert(out@[w] == known@[k3]);
                    } else {
                        assert(out@[before.len() as int] == g);
                    }
                }
            }
        } else {
            proof {
                let w = choose|w: int| 0 <= w < out@.len() && out@[w] == g;
                assert(out@.contains(known@[j as int]));
            }
        }
        j += 1;
    }
    out
}

// ── start-up checks ─────────────────────────────────────────────────────

/// The oldest yt-dlp release known to work with YouTube.
pub const YTDLP_KNOWN_GOOD: &'static str = "2026.08.20";

/// `a` sorts strictly before `b`, character by character (the order of
/// `str`'s `<`, since UTF-8 keeps the order of code points).
pub open spec fn lex_less(a: Seq<char>, b: Seq<char>) -> bool
    decreases a.len(),
{
    if b.len() == 0 {
        false
    } else if a.len() == 0 {
        true
    } else if a[0] != b[0] {
        (a[0] as u32) < (b[0] as u32)
    } else {
        lex_less(a.drop_first(), b.drop_first())
    }
}

fn lex_less_exec(a: &Vec<char>, b: &Vec<char>) -> (r: bool)
    ensures
        r == lex_less(a@, b@),
{
    let mut i: usize = 0;
    assert(a@.skip(0) =~= a@ && b@.skip(0) =~= b@);
    while i < a.len() && i < b.len() && a[i] == b[i]
        invariant
            i <= a@.len(),
            i <= b@.len(),
            lex_less(a@, b@) == lex_less(a@.skip(i as int), b@.skip(i as int)),
        decreases a.len() - i,
    {
        assert(a@.skip(i as int).drop_first() =~= a@.skip(i + 1));
        assert(b@.skip(i as int).drop_first() =~= b@.skip(i + 1));
        i += 1;
    }
    assert(i < a@.len() ==> a@.skip(i as int)[0] == a@[i as int]);
    assert(i < b@.len() ==> b@.skip(i as int)[0] == b@[i as int]);
    if i >= b.len() {
        false
    } else if i >= a.len() {
        true
    } else {
        (a[i] as u32) < (b[i] as u32)
    }
}

/// Whether an installed yt-dlp version is older than the known-good one.
pub fn ytdlp_outdated(version: &str) -> (b: bool)
    ensures
        b == lex_less(version@, YTDLP_KNOWN_GOOD@),
{
    lex_less_exec(&chars_of(version), &chars_of(YTDLP_KNOWN_GOOD))
}

} // verus!
