//! Console and file log lines: levels, their filtering, labels and colours,
//! and the text of a line. Printing and file writes happen outside the
//! library.

use vstd::prelude::*;

use crate::text::{chars_eq_str, chars_of, push_str, string_from};

verus! {

/// How severe a log line is, in increasing order.
#[derive(Clone, Copy, Debug, PartialEq, Eq, Structural)]
pub enum Level {
    Info,
    Warn,
    Error,
}

impl Level {
    pub open spec fn rank(self) -> int {
        match self {
            Level::Info => 0,
            Level::Warn => 1,
            Level::Error => 2,
        }
    }
}

/// Where and from what level lines are logged.
#[derive(Debug)]
pub struct LogConfig {
    pub level: Level,
    pub file_enabled: bool,
    pub file_path: String,
}

/// The logging settings to install.
pub fn init(level: Level, file_enabled: bool, file_path: &str) -> (c: LogConfig)
    ensures
        c.level == level,
        c.file_enabled == file_enabled,
        c.file_path@ == file_path@,
{
    LogConfig { level, file_enabled, file_path: file_path.to_owned() }
}

/// The settings used before any are installed: everything from `Info`,
/// console only, files under `logs`.
pub fn config() -> (c: LogConfig)
    ensures
        c.level == Level::Info,
        !c.file_enabled,
        c.file_path@ == "logs"@,
{
    LogConfig { level: Level::Info, file_enabled: false, file_path: "logs".to_owned() }
}

/// The level a `logging.level` setting names: `warn`, `error`, anything
/// else `Info`.
pub fn level_from_setting(s: &str) -> (l: Level)
    ensures
        l == (if s@ == "warn"@ {
            Level::Warn
        } else if s@ == "error"@ {
            Level::Error
        } else {
            Level::Info
        }),
{
    let v = chars_of(s);
    if chars_eq_str(&v, "warn") {
        Level::Warn
    } else if chars_eq_str(&v, "error") {
        Level::Error
    } else {
        Level::Info
    }
}

pub open spec fn label_color_spec(level: Seq<char>) -> (Seq<char>, Seq<char>) {
    if level == "INFO"@ {
        ("INFO"@, "\u{1b}[1m\u{1b}[3;42m"@)
    } else if level == "WARN"@ {
        ("WARN"@, "\u{1b}[1m\u{1b}[3;43m"@)
    } else if level == "ERROR"@ {
        ("ERROR"@, "\u{1b}[1m\u{1b}[3;41m"@)
    } else if level == "DEBUG"@ {
        ("DEBUG"@, "\u{1b}[1m\u{1b}[3;45m"@)
    } else if level == "SOURCES"@ {
        ("SOURCES"@, "\u{1b}[1m\u{1b}[3;46m"@)
    } else if level == "STARTED"@ {
        ("STARTED"@, "\u{1b}[1m\u{1b}[3;44m"@)
    } else if level == "NETWORK"@ {
        ("NETWORK"@, "\u{1b}[1m\u{1b}[3;44m"@)
    } else {
        ("LOG"@, ""@)
    }
}

/// The label and ANSI colour of a level name; "LOG" uncoloured for an
/// unknown one.
pub fn label_color(level: &str) -> (r: (&'static str, &'static str))
    ensures
        (r.0@, r.1@) == label_color_spec(level@),
{
    let v = chars_of(level);
    if chars_eq_str(&v, "INFO") {
        ("INFO", "\u{1b}[1m\u{1b}[3;42m")
    } else if chars_eq_str(&v, "WARN") {
        ("WARN", "\u{1b}[1m\u{1b}[3;43m")
    } else if chars_eq_str(&v, "ERROR") {
        ("ERROR", "\u{1b}[1m\u{1b}[3;41m")
    } else if chars_eq_str(&v, "DEBUG") {
        ("DEBUG", "\u{1b}[1m\u{1b}[3;45m")
    } else if chars_eq_str(&v, "SOURCES") {
        ("SOURCES", "\u{1b}[1m\u{1b}[3;46m")
    } else if chars_eq_str(&v, "STARTED") {
        ("STARTED", "\u{1b}[1m\u{1b}[3;44m")
    } else if chars_eq_str(&v, "NETWORK") {
        ("NETWORK", "\u{1b}[1m\u{1b}[3;44m")
    } else {
        ("LOG", "")
    }
}

/// The severity a level name counts as: `WARN` and `ERROR` as themselves,
/// every other name as `Info`.
pub fn level_of(level: &str) -> (l: Level)
    ensures
        l == (if level@ == "WARN"@ {
            Level::Warn
        } else if level@ == "ERROR"@ {
            Level::Error
        } else {
            Level::Info
        }),
{
    let v = chars_of(level);
    if chars_eq_str(&v, "WARN") {
        Level::Warn
    } else if chars_eq_str(&v, "ERROR") {
        Level::Error
    } else {
        Level::Info
    }
}

/// Whether a line of level name `level` is logged under `cfg`.
pub fn should_log(level: &str, cfg: &LogConfig) -> (b: bool)
    ensures
        b == (level_of_spec(level@).rank() >= cfg.level.rank()),
{
    let l = level_of(level);
    let lr: u8 = match l {
        Level::Info => 0,
        Level::Warn => 1,
        Level::Error => 2,
    };
    let cr: u8 = match cfg.level {
        Level::Info => 0,
        Level::Warn => 1,
        Level::Error => 2,
    };
    lr >= cr
}

pub open spec fn level_of_spec(level: Seq<char>) -> Level {
    if level == "WARN"@ {
        Level::Warn
    } else if level == "ERROR"@ {
        Level::Error
    } else {
        Level::Info
    }
}

/// An `ERROR` line is logged whatever the configured level; under the
/// `Info` level every line is.
pub proof fn lemma_errors_always_logged(level: Seq<char>, cfg_level: Level)
    ensures
        level_of_spec("ERROR"@).rank() >= cfg_level.rank(),
        level_of_spec(level).rank() >= Level::Info.rank(),
{
    reveal_strlit("ERROR");
    reveal_strlit("WARN");
    assert("ERROR"@ != "WARN"@) by {
        assert("ERROR"@.len() != "WARN"@.len());
    }
}

pub open spec fn category_part(category: Seq<char>) -> Seq<char> {
    if category.len() == 0 {
        Seq::empty()
    } else {
        ": "@ + category + " >"@
    }
}

fn push_category(out: &mut Vec<char>, category: &str)
    ensures
        final(out)@ == old(out)@ + category_part(category@),
{
    let ghost m = out@;
    if chars_of(category).len() == 0 {
        assert(out@ =~= m + Seq::<char>::empty());
    } else {
        push_str(out, ": ");
        push_str(out, category);
        push_str(out, " >");
    }
}

/// A console line: `[time] COLOR[LABEL] >RESET: category > msg`.
pub fn console_line(time: &str, level: &str, category: &str, msg: &str) -> (s: String)
    ensures
        s@ == "["@ + time@ + "] "@ + label_color_spec(level@).1 + "["@ + label_color_spec(
            level@,
        ).0 + "] >\u{1b}[0m"@ + category_part(category@) + " "@ + msg@,
{
    let (label, color) = label_color(level);
    let mut out = chars_of("[");
    push_str(&mut out, time);
    push_str(&mut out, "] ");
    push_str(&mut out, color);
    push_str(&mut out, "[");
    push_str(&mut out, label);
    push_str(&mut out, "] >\u{1b}[0m");
    push_category(&mut out, category);
    push_str(&mut out, " ");
    push_str(&mut out, msg);
    string_from(&out)
}

/// A log file line: `[timestamp] [LABEL] : category > msg`.
pub fn file_line(timestamp: &str, level: &str, category: &str, msg: &str) -> (s: String)
    ensures
        s@ == "["@ + timestamp@ + "] ["@ + label_color_spec(level@).0 + "] "@ + category_part(
            category@,
        ) + " "@ + msg@,
{
    let (label, _color) = label_color(level);
    let mut out = chars_of("[");
    push_str(&mut out, timestamp);
    push_str(&mut out, "] [");
    push_str(&mut out, label);
    push_str(&mut out, "] ");
    push_category(&mut out, category);
    push_str(&mut out, " ");
    push_str(&mut out, msg);
    string_from(&out)
}

/// The log file inside the log directory.
pub fn log_file_path(dir: &str) -> (s: String)
    ensures
        s@ == dir@ + "/koaai.log"@,
{
    crate::text::concat_str(dir, "/koaai.log")
}

} // verus!
