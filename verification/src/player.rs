//! The decisions of the voice player: which voice channel to join or keep,
//! what a voice state change asks for, the encoder bitrate, the voice
//! channel status line, and the notices the player posts. The voice and
//! Discord calls happen outside the library.

use vstd::prelude::*;

use crate::config;
use crate::state::{SourceTag, Track};
use crate::text::{chars_of, decimal, push_decimal, push_str, string_from};

verus! {

/// Which track event a handler reacts to.
#[derive(Clone, Copy, Debug, PartialEq, Eq, Structural)]
pub enum EventKind {
    End,
    Error,
}

// ── bitrate ─────────────────────────────────────────────────────────────

/// The highest bitrate Discord accepts, in kbps.
pub const MAX_BITRATE_KBPS: u32 = 512;

/// The encoder bitrate in bits per second for a configured kbps value
/// (capped at 512); `None` (automatic) for 0.
pub fn bitrate_bits(kbps: u32) -> (r: Option<i32>)
    ensures
        r == (if kbps == 0 {
            None
        } else if kbps > 512 {
            Some(512000i32)
        } else {
            Some((kbps * 1000) as i32)
        }),
{
    let k = if kbps > MAX_BITRATE_KBPS {
        MAX_BITRATE_KBPS
    } else {
        kbps
    };
    if k == 0 {
        None
    } else {
        Some((k * 1000) as i32)
    }
}

/// The bitrate of a re-buffered track: the configured kbps kept between 64
/// and 512, in bits per second.
pub fn rebuffer_bits(kbps: u32) -> (r: i32)
    ensures
        r == (if kbps < 64 {
            64000
        } else if kbps > 512 {
            512000
        } else {
            kbps * 1000
        }),
{
    let k = if kbps < 64 {
        64
    } else if kbps > MAX_BITRATE_KBPS {
        MAX_BITRATE_KBPS
    } else {
        kbps
    };
    (k * 1000) as i32
}

// ── the voice channel status line ───────────────────────────────────────

/// How many characters a voice channel status keeps.
pub const STATUS_CHARS: usize = 490;

pub open spec fn channel_status_spec(title: Seq<char>, author: Seq<char>) -> Seq<char> {
    let full = config::NP@ + "  Now Playing \u{b7} "@ + title + (if author.len() > 0 && author
        != "Unknown"@ {
        " \u{2014} "@ + author
    } else {
        Seq::empty()
    });
    if full.len() > STATUS_CHARS {
        full.take(STATUS_CHARS as int)
    } else {
        full
    }
}

/// The voice channel status never exceeds its limit, names the track, and
/// shows a known author after a dash; short statuses are kept whole.
pub proof fn lemma_status_line(title: Seq<char>, author: Seq<char>)
    ensures
        channel_status_spec(title, author).len() <= STATUS_CHARS,
        ({
            let lead = config::NP@ + "  Now Playing \u{b7} "@ + title;
            let full = lead + (if author.len() > 0 && author != "Unknown"@ {
                " \u{2014} "@ + author
            } else {
                Seq::empty()
            });
            &&& full.len() <= STATUS_CHARS ==> channel_status_spec(title, author) == full
            &&& full.len() > STATUS_CHARS ==> channel_status_spec(title, author) == full.take(
                STATUS_CHARS as int,
            )
            &&& (author.len() == 0 || author == "Unknown"@) ==> full == lead
        }),
{
    let lead = config::NP@ + "  Now Playing \u{b7} "@ + title;
    assert(lead + Seq::<char>::empty() =~= lead);
}

/// "🎧  Now Playing · title — author" (the author only when known), cut to
/// 490 characters.
pub fn channel_status(title: &str, author: &str) -> (s: String)
    ensures
        s@ == channel_status_spec(title@, author@),
{
    let mut out = chars_of(config::NP);
    push_str(&mut out, "  Now Playing \u{b7} ");
    push_str(&mut out, title);
    let a = chars_of(author);
    let ghost mid = out@;
    if a.len() > 0 && !crate::text::chars_eq_str(&a, "Unknown") {
        push_str(&mut out, " \u{2014} ");
        push_str(&mut out, author);
    } else {
        assert(out@ =~= mid + Seq::<char>::empty());
    }
    if out.len() > STATUS_CHARS {
        out = crate::text::slice_of(&out, 0, STATUS_CHARS);
    }
    string_from(&out)
}

// ── lazy Spotify matches ────────────────────────────────────────────────

pub open spec fn lazy_search_spec(t: Track) -> Option<Seq<char>> {
    if t.source == SourceTag::SpotifyMatched && crate::text::starts_with(t.uri@, "ytsearch1:"@) {
        Some(t.uri@.skip(10))
    } else {
        None
    }
}

/// Only a Spotify match still stored as a `ytsearch1:` search is matched on
/// YouTube before it plays, and what is searched for is the text after the
/// prefix; every other track plays from its own link.
pub proof fn lemma_lazy_matches(t: Track, q: Seq<char>)
    ensures
        t.source == SourceTag::SpotifyMatched && t.uri@ == "ytsearch1:"@ + q ==> lazy_search_spec(t)
            == Some(q),
        t.source != SourceTag::SpotifyMatched ==> lazy_search_spec(t) is None,
        !crate::text::starts_with(t.uri@, "ytsearch1:"@) ==> lazy_search_spec(t) is None,
{
    reveal_strlit("ytsearch1:");
    if t.uri@ == "ytsearch1:"@ + q {
        assert(t.uri@.take(10) =~= "ytsearch1:"@);
        assert(t.uri@.skip(10) =~= q);
    }
}

/// The search query of a Spotify match still stored as a lazy
/// `ytsearch1:` query, to be upgraded to an exact URL before it plays.
pub fn lazy_search_query(t: &Track) -> (r: Option<String>)
    ensures
        r matches Some(q) ==> lazy_search_spec(*t) == Some(q@),
        r is None ==> lazy_search_spec(*t) is None,
{
    proof {
        reveal_strlit("ytsearch1:");
    }
    let u = chars_of(t.uri.as_str());
    if t.source == SourceTag::SpotifyMatched && crate::text::starts_with_exec(&u, "ytsearch1:") {
        Some(string_from(&crate::text::suffix_from(&u, 10)))
    } else {
        None
    }
}

// ── joining voice ───────────────────────────────────────────────────────

/// What joining a requester's voice channel takes.
#[derive(Debug)]
pub enum VoicePlan {
    /// The bot is already there.
    Reuse,
    /// Join the channel, leaving the current call first when there is one.
    Join { leave_first: bool },
    /// Refused, with the message to show.
    Refuse(String),
}

pub open spec fn channel_mention(id: u64) -> Seq<char> {
    "<#"@ + decimal(id as nat) + ">"@
}

pub open spec fn locked_msg(vc: u64) -> Seq<char> {
    config::ERROR@ + "  I'm locked to 24/7 mode in "@ + channel_mention(vc)
        + "!\nJoin me there, or drag me to your VC and I'll return in 5 minutes."@
}

pub open spec fn busy_msg(vc: u64) -> Seq<char> {
    config::ERROR@ + "  Already playing in "@ + channel_mention(vc) + "!"@
}

/// Decides how to get into `user_channel`. With a live call: a call with no
/// known channel is dropped and rejoined; the same channel is reused; a
/// different channel is refused when it is the 24/7 channel or still has
/// listeners, else left for the new one.
pub fn voice_plan(
    has_call: bool,
    current_vc: Option<u64>,
    user_channel: u64,
    stay: Option<u64>,
    old_has_listeners: bool,
) -> (p: VoicePlan)
    ensures
        !has_call ==> p matches VoicePlan::Join { leave_first: false },
        has_call && current_vc is None ==> p matches VoicePlan::Join { leave_first: true },
        has_call && current_vc == Some(user_channel) ==> p is Reuse,
        has_call && current_vc is Some && current_vc->0 != user_channel ==> (if stay
            == current_vc {
            (p matches VoicePlan::Refuse(m) && m@ == locked_msg(current_vc->0))
        } else if old_has_listeners {
            (p matches VoicePlan::Refuse(m) && m@ == busy_msg(current_vc->0))
        } else {
            (p matches VoicePlan::Join { leave_first: true })
        }),
{
    if !has_call {
        return VoicePlan::Join { leave_first: false };
    }
    match current_vc {
        None => VoicePlan::Join { leave_first: true },
        Some(vc) => {
            if vc == user_channel {
                VoicePlan::Reuse
            } else if stay == Some(vc) {
                let mut out = chars_of(config::ERROR);
                push_str(&mut out, "  I'm locked to 24/7 mode in <#");
                push_decimal(&mut out, vc);
                push_str(
                    &mut out,
                    ">!\nJoin me there, or drag me to your VC and I'll return in 5 minutes.",
                );
                proof {
                    reveal_strlit("  I'm locked to 24/7 mode in <#");
                    reveal_strlit("  I'm locked to 24/7 mode in ");
                    reveal_strlit("<#");
                    reveal_strlit(
                        ">!\nJoin me there, or drag me to your VC and I'll return in 5 minutes.",
                    );
                    reveal_strlit(">");
                    reveal_strlit(
                        "!\nJoin me there, or drag me to your VC and I'll return in 5 minutes.",
                    );
                    assert(out@ =~= locked_msg(vc));
                }
                VoicePlan::Refuse(string_from(&out))
            } else if old_has_listeners {
                let mut out = chars_of(config::ERROR);
                push_str(&mut out, "  Already playing in <#");
                push_decimal(&mut out, vc);
                push_str(&mut out, ">!");
                proof {
                    reveal_strlit("  Already playing in <#");
                    reveal_strlit("  Already playing in ");
                    reveal_strlit("<#");
                    reveal_strlit(">!");
                    reveal_strlit(">");
                    reveal_strlit("!");
                    assert(out@ =~= busy_msg(vc));
                }
                VoicePlan::Refuse(string_from(&out))
            } else {
                VoicePlan::Join { leave_first: true }
            }
        },
    }
}

/// The message when joining a voice channel failed with `err`.
pub fn join_failed_msg(err: &str) -> (s: String)
    ensures
        s@ == config::ERROR@ + "  Could not join VC: `"@ + err@ + "`"@,
{
    let mut out = chars_of(config::ERROR);
    push_str(&mut out, "  Could not join VC: `");
    push_str(&mut out, err);
    push_str(&mut out, "`");
    string_from(&out)
}

// ── voice state changes ─────────────────────────────────────────────────

/// What a voice state update means to the player.
#[derive(Clone, Copy, Debug, PartialEq, Eq, Structural)]
pub enum VoiceEvent {
    /// The bot was disconnected.
    BotLeft,
    /// The bot was moved to this channel.
    BotMoved(u64),
    /// Someone left the bot's channel (which may now be empty).
    ListenerLeft(u64),
    /// Nothing the player cares about.
    Ignore,
}

/// Classifies a voice state update of `user` (`is_bot`: the bot itself)
/// from `old_channel` to `new_channel`, while the bot sits in `bot_vc`.
pub fn voice_event(
    is_bot: bool,
    old_channel: Option<u64>,
    new_channel: Option<u64>,
    bot_vc: Option<u64>,
) -> (e: VoiceEvent)
    ensures
        is_bot ==> e == (if old_channel is Some && new_channel is None {
            VoiceEvent::BotLeft
        } else if old_channel matches Some(a) && new_channel matches Some(b) && a != b {
            VoiceEvent::BotMoved(new_channel->0)
        } else {
            VoiceEvent::Ignore
        }),
        !is_bot ==> e == (match bot_vc {
            Some(vc) => if old_channel == Some(vc) {
                VoiceEvent::ListenerLeft(vc)
            } else {
                VoiceEvent::Ignore
            },
            None => VoiceEvent::Ignore,
        }),
{
    if is_bot {
        match (old_channel, new_channel) {
            (Some(_), None) => VoiceEvent::BotLeft,
            (Some(a), Some(b)) => {
                if a != b {
                    VoiceEvent::BotMoved(b)
                } else {
                    VoiceEvent::Ignore
                }
            },
            _ => VoiceEvent::Ignore,
        }
    } else {
        match bot_vc {
            Some(vc) => {
                if old_channel == Some(vc) {
                    VoiceEvent::ListenerLeft(vc)
                } else {
                    VoiceEvent::Ignore
                }
            },
            None => VoiceEvent::Ignore,
        }
    }
}

/// What to do once the bot was moved to another channel.
#[derive(Clone, Copy, Debug, PartialEq, Eq, Structural)]
pub enum MovePlan {
    /// Back in the 24/7 channel: a pending return is no longer needed.
    CancelStayReturn,
    /// Dragged away from the 24/7 channel while idle: go back later.
    ScheduleStayReturn,
    Nothing,
}

pub fn move_plan(new_channel: u64, stay: Option<u64>, playing: bool, queue_empty: bool) -> (p:
    MovePlan)
    ensures
        p == (if stay == Some(new_channel) {
            MovePlan::CancelStayReturn
        } else if stay is Some && !playing && queue_empty {
            MovePlan::ScheduleStayReturn
        } else {
            MovePlan::Nothing
        }),
{
    if stay == Some(new_channel) {
        MovePlan::CancelStayReturn
    } else if stay.is_some() && !playing && queue_empty {
        MovePlan::ScheduleStayReturn
    } else {
        MovePlan::Nothing
    }
}

/// Where the bot goes once its channel emptied out.
#[derive(Clone, Copy, Debug, PartialEq, Eq, Structural)]
pub enum EmptyPlan {
    /// Move to the 24/7 channel.
    RejoinStay(u64),
    /// Already in the 24/7 channel: stay.
    StayPut,
    /// No 24/7 channel: leave voice.
    Leave,
}

pub fn empty_channel_plan(bot_vc: u64, stay: Option<u64>) -> (p: EmptyPlan)
    ensures
        p == (match stay {
            Some(s) => if s != bot_vc {
                EmptyPlan::RejoinStay(s)
            } else {
                EmptyPlan::StayPut
            },
            None => EmptyPlan::Leave,
        }),
{
    match stay {
        Some(s) => {
            if s != bot_vc {
                EmptyPlan::RejoinStay(s)
            } else {
                EmptyPlan::StayPut
            }
        },
        None => EmptyPlan::Leave,
    }
}

// ── notices ─────────────────────────────────────────────────────────────

/// After too many failures in a row.
pub fn stopped_notice() -> (s: String)
    ensures
        s@ == config::ERROR@
            + "  Too many consecutive track failures \u{2014} stopped playback and cleared the queue.\n-# Check yt-dlp: `pip install --upgrade yt-dlp --pre`, then play again."@,
{
    let mut out = chars_of(config::ERROR);
    push_str(
        &mut out,
        "  Too many consecutive track failures \u{2014} stopped playback and cleared the queue.\n-# Check yt-dlp: `pip install --upgrade yt-dlp --pre`, then play again.",
    );
    string_from(&out)
}

/// Before a recovery rejoin.
pub fn recovering_notice() -> (s: String)
    ensures
        s@ == config::SYNC@
            + "  Playback kept failing \u{2014} reconnecting voice and retrying this track...\n-# Automatic recovery, no action needed."@,
{
    let mut out = chars_of(config::SYNC);
    push_str(
        &mut out,
        "  Playback kept failing \u{2014} reconnecting voice and retrying this track...\n-# Automatic recovery, no action needed.",
    );
    string_from(&out)
}

/// When a recovery rejoin failed.
pub fn recovery_failed_notice() -> (s: String)
    ensures
        s@ == config::ERROR@
            + "  Could not recover the voice connection \u{2014} playback stopped.\n-# Try `join` and play again; if it persists, check yt-dlp."@,
{
    let mut out = chars_of(config::ERROR);
    push_str(
        &mut out,
        "  Could not recover the voice connection \u{2014} playback stopped.\n-# Try `join` and play again; if it persists, check yt-dlp.",
    );
    string_from(&out)
}

/// When a track failed and the player skips it, with `streak` failures in
/// a row so far and recovery at `rejoin_at`.
pub fn track_failed_notice(streak: u32, rejoin_at: u32) -> (s: String)
    ensures
        s@ == config::WARN@
            + "  Track failed to play \u{2014} skipping to the next one.\n-# "@ + decimal(
            (streak + 1) as nat,
        ) + "/"@ + decimal(rejoin_at as nat) + " consecutive errors before automatic recovery kicks in."@,
{
    let mut out = chars_of(config::WARN);
    push_str(&mut out, "  Track failed to play \u{2014} skipping to the next one.\n-# ");
    push_decimal(&mut out, streak as u64 + 1);
    push_str(&mut out, "/");
    push_decimal(&mut out, rejoin_at as u64);
    push_str(&mut out, " consecutive errors before automatic recovery kicks in.");
    string_from(&out)
}

/// When the queue ran out after something played.
pub fn concluded_notice(prefix: &str) -> (s: String)
    ensures
        s@ == "## \u{23f9}\u{fe0f} Queue Concluded\nUse `"@ + prefix@
            + "play` to add more songs.\n-# \u{1f4a4} Leaving voice in 5 minutes unless 24/7 mode is active."@,
{
    let mut out = chars_of("## \u{23f9}\u{fe0f} Queue Concluded\nUse `");
    push_str(&mut out, prefix);
    push_str(
        &mut out,
        "play` to add more songs.\n-# \u{1f4a4} Leaving voice in 5 minutes unless 24/7 mode is active.",
    );
    string_from(&out)
}

/// When the bot left voice after being idle.
pub fn auto_leave_notice(prefix: &str) -> (s: String)
    ensures
        s@ == config::SLEEP@ + "  Left voice after 5 minutes of inactivity.\n-# Use `"@ + prefix@
            + "join` for 24/7 mode (never auto-leaves)."@,
{
    let mut out = chars_of(config::SLEEP);
    push_str(&mut out, "  Left voice after 5 minutes of inactivity.\n-# Use `");
    push_str(&mut out, prefix);
    push_str(&mut out, "join` for 24/7 mode (never auto-leaves).");
    string_from(&out)
}

/// When the bot went back to its 24/7 channel.
pub fn stay_return_notice(target: u64) -> (s: String)
    ensures
        s@ == config::SUCCESS@
            + "  Returned to the 24/7 channel after dragging me away.\n-# I'll head back to <#"@
            + decimal(target as nat) + "> whenever playback stops."@,
{
    let mut out = chars_of(config::SUCCESS);
    push_str(
        &mut out,
        "  Returned to the 24/7 channel after dragging me away.\n-# I'll head back to <#",
    );
    push_decimal(&mut out, target);
    push_str(&mut out, "> whenever playback stops.");
    string_from(&out)
}

} // verus!
