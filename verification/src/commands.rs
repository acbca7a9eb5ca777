//! The checks, computations and replies of the chat commands: seek
//! targets, timestamps, volume and prefix checks, and the texts the
//! commands answer with.

use vstd::prelude::*;

use crate::config;
use crate::state::{duration_display_spec, fmt_sec, fmt_sec_spec, Track};
use crate::sources::{clock_seconds, clock_total};
use crate::text::{
    chars_of, decimal, push_decimal, push_str, split_class, split_exec, string_from, trim_class,
    trim_start_class, trim_start_spec, trim_ws, utf8_len, CharClass,
};
use crate::ui::{link_for_ui_spec, md_safe, platform_logo_spec};

verus! {

/// An error reply: the error emoji, two spaces, the text.
pub fn emoji_err(msg: &str) -> (s: String)
    ensures
        s@ == config::ERROR@ + "  "@ + msg@,
{
    crate::ui::error_text(msg)
}

/// Replies already show a status emoji; a message that starts with its own
/// custom emoji (`<...>`) loses it, with the spaces after it.
pub open spec fn dedup_emoji_spec(msg: Seq<char>) -> Seq<char> {
    let t = trim_start_spec(msg, CharClass::Whitespace);
    if t.len() > 0 && t[0] == '<' {
        match crate::text::find_seq(t, ">"@) {
            Some(i) => trim_start_spec(t.skip(i + 1), CharClass::Whitespace),
            None => msg,
        }
    } else {
        msg
    }
}

pub fn dedup_emoji(msg: &str) -> (s: String)
    ensures
        s@ == dedup_emoji_spec(msg@),
{
    proof {
        reveal_strlit(">");
    }
    let t = trim_start_class(&chars_of(msg), CharClass::Whitespace);
    if t.len() > 0 && t[0] == '<' {
        let gt = chars_of(">");
        match crate::text::find_exec(&t, &gt) {
            Some(i) => {
                proof {
                    crate::text::lemma_find_from_some(t@, gt@, 0);
                }
                let rest = crate::text::suffix_from(&t, i + 1);
                return string_from(&trim_start_class(&rest, CharClass::Whitespace));
            },
            None => {},
        }
    }
    msg.to_owned()
}

/// A seek position: seconds, `m:s` or `h:m:s`, each part trimmed; `None`
/// when a part does not parse, there are more parts, or the seconds do not
/// fit.
pub open spec fn parse_timestamp_spec(input: Seq<char>) -> Option<u64> {
    let parts = split_class(input, CharClass::Colon);
    if parts.len() <= 3 {
        clock_total(parts)
    } else {
        None
    }
}

/// Every time the player prints (`m:ss`, `h:mm:ss`) seeks to the seconds
/// it shows.
pub proof fn lemma_formatted_time_seeks(s: u64)
    ensures
        parse_timestamp_spec(crate::state::fmt_sec_spec(s as nat)) == Some(s),
{
    crate::sources::lemma_fmt_sec_pieces(s);
}

/// Reads a seek position such as `90`, `1:30` or `1:02:30`.
pub fn parse_timestamp(input: &str) -> (r: Option<u64>)
    ensures
        r == parse_timestamp_spec(input@),
{
    let parts = split_exec(&chars_of(input), CharClass::Colon);
    if parts.len() > 3 {
        return None;
    }
    clock_seconds(&parts)
}

/// The badge of a track's source in command replies (Apple Music matches
/// get their own).
pub fn player_source_emoji(t: &Track) -> (s: &'static str)
    ensures
        s@ == platform_logo_spec(*t),
{
    crate::ui::platform_logo(t)
}

/// How many tracks a skip drops: the amount asked for, at least one.
pub fn skip_count(amount: Option<u32>) -> (n: u32)
    ensures
        n == (match amount {
            Some(a) => if a == 0 {
                1
            } else {
                a
            },
            None => 1,
        }),
        n >= 1,
{
    match amount {
        Some(a) => if a == 0 {
            1
        } else {
            a
        },
        None => 1,
    }
}

/// The seconds a forward or rewind jumps: the amount asked for (15 by
/// default), never negative.
pub fn jump_seconds(seconds: Option<i64>) -> (n: u64)
    ensures
        n == (match seconds {
            Some(s) => if s < 0 {
                0
            } else {
                s as int
            },
            None => 15,
        }),
{
    match seconds {
        Some(s) => if s < 0 {
            0
        } else {
            s as u64
        },
        None => 15,
    }
}

/// Where a seek to `secs` lands: not past the end of a track whose
/// duration is known.
pub fn seek_target(secs: u64, duration: Option<u64>) -> (t: u64)
    ensures
        t == (match duration {
            Some(d) => if secs < d {
                secs
            } else {
                d
            },
            None => secs,
        }),
{
    match duration {
        Some(d) => if secs < d {
            secs
        } else {
            d
        },
        None => secs,
    }
}

/// Where a jump of `secs` from `pos` lands: forward at most to the last
/// second of the track, back at most to its start.
pub fn jump_target(pos: u64, secs: u64, forward: bool, duration: Option<u64>) -> (t: u64)
    requires
        forward ==> pos + secs <= u64::MAX,
    ensures
        forward ==> t == ({
            let limit: int = match duration {
                Some(d) => if d == 0 {
                    0
                } else {
                    d - 1
                },
                None => u64::MAX - 1,
            };
            if pos + secs < limit {
                pos + secs
            } else {
                limit
            }
        }),
        !forward ==> t == (if pos >= secs {
            pos - secs
        } else {
            0
        }),
{
    if forward {
        let d = match duration {
            Some(d) => d,
            None => u64::MAX,
        };
        let limit = if d == 0 {
            0
        } else {
            d - 1
        };
        let p = pos + secs;
        if p < limit {
            p
        } else {
            limit
        }
    } else if pos >= secs {
        pos - secs
    } else {
        0
    }
}

pub open spec fn seek_reply_spec(target: u64, delta: Option<(u64, bool)>, rebuffered: bool) -> Seq<
    char,
> {
    let (emoji, lead) = match delta {
        Some((secs, forward)) => (
            if forward {
                config::FORWARD@
            } else {
                config::REWIND@
            },
            "Jumped "@ + (if forward {
                "forward"@
            } else {
                "back"@
            }) + " `"@ + decimal(secs as nat) + "s`"@,
        ),
        None => (config::FORWARD@, "Jumped to `"@ + fmt_sec_spec(target as nat) + "`"@),
    };
    emoji + "  "@ + lead + "."@ + (if delta is Some {
        "\n-# Formats: `90` seconds or `1:30` / `1:02:30`. Defaults to 15s."@
    } else {
        Seq::empty()
    }) + (if rebuffered {
        "\n-# First seek re-buffered this track \u{2014} every next seek is instant. \u{1f3a7}"@
    } else {
        Seq::empty()
    })
}

/// The reply to a seek: where it jumped, the accepted formats after a
/// jump, and a note when the track had to be re-buffered.
pub fn seek_reply_text(target: u64, delta: Option<(u64, bool)>, rebuffered: bool) -> (s: String)
    ensures
        s@ == seek_reply_spec(target, delta, rebuffered),
{
    let mut out: Vec<char> = Vec::new();
    match delta {
        Some((secs, forward)) => {
            push_str(&mut out, if forward { config::FORWARD } else { config::REWIND });
            push_str(&mut out, "  ");
            push_str(&mut out, "Jumped ");
            push_str(&mut out, if forward { "forward" } else { "back" });
            push_str(&mut out, " `");
            push_decimal(&mut out, secs);
            push_str(&mut out, "s`");
        },
        None => {
            push_str(&mut out, config::FORWARD);
            push_str(&mut out, "  ");
            push_str(&mut out, "Jumped to `");
            push_str(&mut out, fmt_sec(target).as_str());
            push_str(&mut out, "`");
        },
    }
    push_str(&mut out, ".");
    let ghost m1 = out@;
    if delta.is_some() {
        push_str(&mut out, "\n-# Formats: `90` seconds or `1:30` / `1:02:30`. Defaults to 15s.");
    } else {
        assert(out@ =~= m1 + Seq::<char>::empty());
    }
    let ghost m2 = out@;
    if rebuffered {
        push_str(
            &mut out,
            "\n-# First seek re-buffered this track \u{2014} every next seek is instant. \u{1f3a7}",
        );
    } else {
        assert(out@ =~= m2 + Seq::<char>::empty());
    }
    assert(out@ =~= seek_reply_spec(target, delta, rebuffered));
    string_from(&out)
}

/// The reply to a volume change: refused above `max`, else the new level
/// with a note on what 100% means.
pub fn volume_reply(vol: u16, max: u16) -> (r: Result<String, String>)
    ensures
        vol > max <==> r is Err,
        r matches Err(e) ==> e@ == "Volume must be 0\u{2013}"@ + decimal(max as nat) + "."@,
        r matches Ok(s) ==> s@ == config::VOLUME@ + "  Volume \u{2192} **"@ + decimal(vol as nat)
            + "%**\n-# "@ + (if vol == 100 {
            "100% = pure source quality (zero re-encoding)."@
        } else {
            "Tip: 100% gives the cleanest audio \u{2014} other values remix the stream."@
        }),
{
    if vol > max {
        let mut out = chars_of("Volume must be 0\u{2013}");
        push_decimal(&mut out, max as u64);
        push_str(&mut out, ".");
        return Err(string_from(&out));
    }
    let mut out = chars_of(config::VOLUME);
    push_str(&mut out, "  Volume \u{2192} **");
    push_decimal(&mut out, vol as u64);
    push_str(&mut out, "%**\n-# ");
    push_str(
        &mut out,
        if vol == 100 {
            "100% = pure source quality (zero re-encoding)."
        } else {
            "Tip: 100% gives the cleanest audio \u{2014} other values remix the stream."
        },
    );
    Ok(string_from(&out))
}

/// A new command prefix: the trimmed text, when it has 1 to 8 bytes.
pub fn valid_prefix(raw: &str) -> (r: Option<String>)
    ensures
        r matches Some(p) ==> p@ == trim_ws(raw@) && 0 < utf8_len(trim_ws(raw@)) <= 8,
        r is None ==> !(0 < utf8_len(trim_ws(raw@)) <= 8),
{
    let t = trim_class(&chars_of(raw), CharClass::Whitespace);
    let mut n: usize = 1;
    while n <= 8
        invariant
            1 <= n <= 9,
            t@ == trim_ws(raw@),
            !(1 <= utf8_len(t@) < n),
        decreases 9 - n,
    {
        if crate::text::utf8_len_is(&t, n) {
            return Some(string_from(&t));
        }
        n += 1;
    }
    None
}

/// The uptime reply: days, hours, minutes and seconds of `s` seconds.
pub fn uptime_text(s: u64) -> (r: String)
    ensures
        r@ == "## "@ + config::ROCKET@ + " Uptime\n-# Running for: `"@ + decimal((s / 86400) as nat)
            + "d "@ + decimal(((s % 86400) / 3600) as nat) + "h "@ + decimal(
            ((s % 3600) / 60) as nat,
        ) + "m "@ + decimal((s % 60) as nat) + "s`"@,
{
    let mut out = chars_of("## ");
    push_str(&mut out, config::ROCKET);
    push_str(&mut out, " Uptime\n-# Running for: `");
    push_decimal(&mut out, s / 86400);
    push_str(&mut out, "d ");
    push_decimal(&mut out, (s % 86400) / 3600);
    push_str(&mut out, "h ");
    push_decimal(&mut out, (s % 3600) / 60);
    push_str(&mut out, "m ");
    push_decimal(&mut out, s % 60);
    push_str(&mut out, "s`");
    string_from(&out)
}

/// The loading notice while a query resolves.
pub fn loading_text(is_playlist: bool) -> (s: String)
    ensures
        s@ == config::LOADING@ + "  "@ + (if is_playlist {
            "Loading playlist..."@
        } else {
            "Searching for your track..."@
        }) + "\n-# "@ + (if is_playlist {
            "Big playlists can take a moment \u{2014} tracks stream in one by one."@
        } else {
            "Tip: paste a YouTube / Spotify / SoundCloud link, or use `ytsearch:` `spsearch:` `scsearch:` prefixes."@
        }),
{
    let mut out = chars_of(config::LOADING);
    push_str(&mut out, "  ");
    push_str(&mut out, if is_playlist { "Loading playlist..." } else { "Searching for your track..." });
    push_str(&mut out, "\n-# ");
    push_str(
        &mut out,
        if is_playlist {
            "Big playlists can take a moment \u{2014} tracks stream in one by one."
        } else {
            "Tip: paste a YouTube / Spotify / SoundCloud link, or use `ytsearch:` `spsearch:` `scsearch:` prefixes."
        },
    );
    string_from(&out)
}

/// The reply once a playlist's tracks were queued.
pub fn playlist_queued_text(count: usize, user_id: u64) -> (s: String)
    ensures
        s@ == "## \u{1f4cb} Playlist Queued\n**Tracks:** "@ + decimal(count as nat)
            + " \u{2022} **Queued by:** <@"@ + decimal(user_id as nat)
            + ">\n-# Tracks start playing automatically \u{2014} type `+queue` to browse what's coming."@,
{
    let mut out = chars_of("## \u{1f4cb} Playlist Queued\n**Tracks:** ");
    push_decimal(&mut out, count as u64);
    push_str(&mut out, " \u{2022} **Queued by:** <@");
    push_decimal(&mut out, user_id);
    push_str(
        &mut out,
        ">\n-# Tracks start playing automatically \u{2014} type `+queue` to browse what's coming.",
    );
    string_from(&out)
}

pub open spec fn track_added_spec(t: Track, was_idle: bool, position: nat) -> Seq<char> {
    if was_idle {
        "## "@ + config::PLAY@ + " Now starting\n**["@ + md_safe(t.title@) + "]("@
            + link_for_ui_spec(t) + ")**\n-# Artist: **"@ + t.author@ + "** \u{2022} Duration: `"@
            + duration_display_spec(t.duration_secs, t.is_live)
            + "`\n-# Control playback with the buttons under the NP card."@
    } else {
        "## "@ + platform_logo_spec(t) + " Added to Queue\n**["@ + md_safe(t.title@) + "]("@
            + link_for_ui_spec(t) + ")**\n-# Artist: **"@ + t.author@ + "** \u{2022} Duration: `"@
            + duration_display_spec(t.duration_secs, t.is_live) + "` \u{2022} Position: `#"@
            + decimal(position) + "`\n-# It plays automatically when the current track ends."@
    }
}

/// The reply once a track was queued: "now starting" when the player was
/// idle, else its position in the queue.
pub fn track_added_text(t: &Track, was_idle: bool, position: usize) -> (s: String)
    ensures
        s@ == track_added_spec(*t, was_idle, position as nat),
{
    let mut out = chars_of("## ");
    if was_idle {
        push_str(&mut out, config::PLAY);
        push_str(&mut out, " Now starting\n**[");
    } else {
        push_str(&mut out, crate::ui::platform_logo(t));
        push_str(&mut out, " Added to Queue\n**[");
    }
    push_str(&mut out, crate::ui::md_title(t).as_str());
    push_str(&mut out, "](");
    push_str(&mut out, t.link_for_ui().as_str());
    push_str(&mut out, ")**\n-# Artist: **");
    push_str(&mut out, t.author.as_str());
    push_str(&mut out, "** \u{2022} Duration: `");
    push_str(&mut out, t.duration_display().as_str());
    if was_idle {
        push_str(&mut out, "`\n-# Control playback with the buttons under the NP card.");
    } else {
        push_str(&mut out, "` \u{2022} Position: `#");
        push_decimal(&mut out, position as u64);
        push_str(&mut out, "`\n-# It plays automatically when the current track ends.");
    }
    assert(out@ =~= track_added_spec(*t, was_idle, position as nat));
    string_from(&out)
}

/// The reply to a skip of `amount` tracks.
pub fn skipped_text(amount: u32) -> (s: String)
    ensures
        s@ == config::SKIP@ + "  Skipped **"@ + decimal(amount as nat)
            + "** track(s).\n-# Next track starts instantly \u{2014} no gap."@,
{
    let mut out = chars_of(config::SKIP);
    push_str(&mut out, "  Skipped **");
    push_decimal(&mut out, amount as u64);
    push_str(&mut out, "** track(s).\n-# Next track starts instantly \u{2014} no gap.");
    string_from(&out)
}

/// The reply to a loop change.
pub fn loop_text(label: &str) -> (s: String)
    ensures
        s@ == config::LOOP@ + " Loop \u{2192} **"@ + label@
            + "**\n-# Cycles: off \u{2192} single track \u{2192} entire queue."@,
{
    let mut out = chars_of(config::LOOP);
    push_str(&mut out, " Loop \u{2192} **");
    push_str(&mut out, label);
    push_str(&mut out, "**\n-# Cycles: off \u{2192} single track \u{2192} entire queue.");
    string_from(&out)
}

/// The reply once a track left the queue.
pub fn removed_text(title: &str) -> (s: String)
    ensures
        s@ == config::CLEAR@ + "  Removed **"@ + title@
            + "** from the queue.\n-# Positions shift up \u{2014} `+queue` shows the updated list."@,
{
    let mut out = chars_of(config::CLEAR);
    push_str(&mut out, "  Removed **");
    push_str(&mut out, title);
    push_str(
        &mut out,
        "** from the queue.\n-# Positions shift up \u{2014} `+queue` shows the updated list.",
    );
    string_from(&out)
}

/// The reply once a track moved to `to_pos`.
pub fn moved_text(title: &str, to_pos: u32) -> (s: String)
    ensures
        s@ == config::SUCCESS@ + "  Moved **"@ + title@ + "** to position "@ + decimal(
            to_pos as nat,
        ) + ".\n-# It'll play in that spot \u{2014} check `+queue` for the order."@,
{
    let mut out = chars_of(config::SUCCESS);
    push_str(&mut out, "  Moved **");
    push_str(&mut out, title);
    push_str(&mut out, "** to position ");
    push_decimal(&mut out, to_pos as u64);
    push_str(&mut out, ".\n-# It'll play in that spot \u{2014} check `+queue` for the order.");
    string_from(&out)
}

/// The reply once the prefix changed.
pub fn prefix_set_text(prefix: &str) -> (s: String)
    ensures
        s@ == "Prefix set to `"@ + prefix@ + "`\n-# Try it now: `"@ + prefix@
            + "play <song>` \u{2014} works instantly, saved for this server."@,
{
    let mut out = chars_of("Prefix set to `");
    push_str(&mut out, prefix);
    push_str(&mut out, "`\n-# Try it now: `");
    push_str(&mut out, prefix);
    push_str(&mut out, "play <song>` \u{2014} works instantly, saved for this server.");
    string_from(&out)
}

/// The reply once 24/7 mode is on in `channel`.
pub fn stay_enabled_text(channel: u64) -> (s: String)
    ensures
        s@ == "24/7 Mode Enabled in <#"@ + decimal(channel as nat)
            + ">\n-# I'll stay here even when idle \u{2014} no auto-leave, ever. `+leave` releases me."@,
{
    let mut out = chars_of("24/7 Mode Enabled in <#");
    push_decimal(&mut out, channel);
    push_str(
        &mut out,
        ">\n-# I'll stay here even when idle \u{2014} no auto-leave, ever. `+leave` releases me.",
    );
    string_from(&out)
}

/// The reply to a ping: the API latency and whether voice is connected.
pub fn ping_text(api_latency: &str, connected: bool) -> (s: String)
    ensures
        s@ == "## "@ + config::PING@ + " Pong!\n-# API latency: `"@ + api_latency@
            + "` \u{2022} Voice: "@ + (if connected {
            config::ONLINE@
        } else {
            config::OFFLINE@
        }) + "\n-# Slash commands respond instantly; prefix commands too."@,
{
    let mut out = chars_of("## ");
    push_str(&mut out, config::PING);
    push_str(&mut out, " Pong!\n-# API latency: `");
    push_str(&mut out, api_latency);
    push_str(&mut out, "` \u{2022} Voice: ");
    push_str(&mut out, if connected { config::ONLINE } else { config::OFFLINE });
    push_str(&mut out, "\n-# Slash commands respond instantly; prefix commands too.");
    string_from(&out)
}

} // verus!
