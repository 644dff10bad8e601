use std::str::FromStr;
use vstd::prelude::*;
use vstd::string::{StrSliceExecFns, StringExecFns};

verus! {

/// Severity of a log record, from the most to the least severe.
#[derive(Debug, Clone, Copy, PartialEq, Eq, Structural)]
pub enum LogSeverity {
    Error,
    Warn,
    Info,
    Debug,
    Trace,
}

/// The least severe records a logger lets through, or none at all.
#[derive(Debug, Clone, Copy, PartialEq, Eq, Structural)]
pub enum SeverityFilter {
    Off,
    Error,
    Warn,
    Info,
    Debug,
    Trace,
}

/// Rank of a severity: 1 for errors up to 5 for traces.
pub open spec fn severity_rank(l: LogSeverity) -> int {
    match l {
        LogSeverity::Error => 1,
        LogSeverity::Warn => 2,
        LogSeverity::Info => 3,
        LogSeverity::Debug => 4,
        LogSeverity::Trace => 5,
    }
}

/// Rank of a filter: 0 for none up to 5 for everything.
pub open spec fn filter_rank(f: SeverityFilter) -> int {
    match f {
        SeverityFilter::Off => 0,
        SeverityFilter::Error => 1,
        SeverityFilter::Warn => 2,
        SeverityFilter::Info => 3,
        SeverityFilter::Debug => 4,
        SeverityFilter::Trace => 5,
    }
}

/// A character with ASCII lower-case letters made upper-case.
pub open spec fn ascii_upper(c: char) -> char {
    if 'a' <= c && c <= 'z' {
        ((c as int) - 32) as char
    } else {
        c
    }
}

/// Whether two texts are equal when ASCII letters are compared without regard to case.
pub open spec fn eq_ignore_ascii_case(a: Seq<char>, b: Seq<char>) -> bool {
    &&& a.len() == b.len()
    &&& forall|i: int| 0 <= i < a.len() ==> ascii_upper(#[trigger] a[i]) == ascii_upper(b[i])
}

/// The filter a text names: one of OFF, ERROR, WARN, INFO, DEBUG, TRACE in any ASCII case.
pub open spec fn filter_named(s: Seq<char>) -> Option<SeverityFilter> {
    if eq_ignore_ascii_case(s, seq!['O', 'F', 'F']) {
        Some(SeverityFilter::Off)
    } else if eq_ignore_ascii_case(s, seq!['E', 'R', 'R', 'O', 'R']) {
        Some(SeverityFilter::Error)
    } else if eq_ignore_ascii_case(s, seq!['W', 'A', 'R', 'N']) {
        Some(SeverityFilter::Warn)
    } else if eq_ignore_ascii_case(s, seq!['I', 'N', 'F', 'O']) {
        Some(SeverityFilter::Info)
    } else if eq_ignore_ascii_case(s, seq!['D', 'E', 'B', 'U', 'G']) {
        Some(SeverityFilter::Debug)
    } else if eq_ignore_ascii_case(s, seq!['T', 'R', 'A', 'C', 'E']) {
        Some(SeverityFilter::Trace)
    } else {
        None
    }
}

/// Parses a level filter name with `log::LevelFilter::from_str`. The `log` crate compares the
/// text, ignoring ASCII case, with OFF, ERROR, WARN, INFO, DEBUG and TRACE in turn and returns the
/// first filter that matches, or an error when none does; the contract claims exactly that.
#[verifier::external_body]
fn parse_level_filter(name: &str) -> (f: Option<SeverityFilter>)
    ensures
        f == filter_named(name@),
{
    match log::LevelFilter::from_str(name) {
        Ok(log::LevelFilter::Off) => Some(SeverityFilter::Off),
        Ok(log::LevelFilter::Error) => Some(SeverityFilter::Error),
        Ok(log::LevelFilter::Warn) => Some(SeverityFilter::Warn),
        Ok(log::LevelFilter::Info) => Some(SeverityFilter::Info),
        Ok(log::LevelFilter::Debug) => Some(SeverityFilter::Debug),
        Ok(log::LevelFilter::Trace) => Some(SeverityFilter::Trace),
        Err(_) => None,
    }
}

/// The filter a component's configured log level names, or `Info` when it names none.
pub fn resolve_log_level(name: &str) -> (f: SeverityFilter)
    ensures
        f == match filter_named(name@) {
            Some(g) => g,
            None => SeverityFilter::Info,
        },
{
    match parse_level_filter(name) {
        Some(g) => g,
        None => SeverityFilter::Info,
    }
}

/// The level name of a severity, padded to five characters.
pub fn level_label(level: LogSeverity) -> (s: &'static str)
    ensures
        s@ == level_label_text(level),
{
    proof {
        reveal_strlit("ERROR");
        reveal_strlit("WARN ");
        reveal_strlit("INFO ");
        reveal_strlit("DEBUG");
        reveal_strlit("TRACE");
    }
    match level {
        LogSeverity::Error => "ERROR",
        LogSeverity::Warn => "WARN ",
        LogSeverity::Info => "INFO ",
        LogSeverity::Debug => "DEBUG",
        LogSeverity::Trace => "TRACE",
    }
}

pub open spec fn level_label_text(level: LogSeverity) -> Seq<char> {
    match level {
        LogSeverity::Error => seq!['E', 'R', 'R', 'O', 'R'],
        LogSeverity::Warn => seq!['W', 'A', 'R', 'N', ' '],
        LogSeverity::Info => seq!['I', 'N', 'F', 'O', ' '],
        LogSeverity::Debug => seq!['D', 'E', 'B', 'U', 'G'],
        LogSeverity::Trace => seq!['T', 'R', 'A', 'C', 'E'],
    }
}

/// Whether a `::` separator starts at position `i` of `s`.
pub open spec fn separator_at(s: Seq<char>, i: int) -> bool {
    0 <= i && i + 1 < s.len() && s[i] == ':' && s[i + 1] == ':'
}

/// Start of the last piece of `s` when it is cut at each `::`, found from left to right: the
/// scan is at `i`, and the current piece started at `start`.
pub open spec fn last_piece_start(s: Seq<char>, start: int, i: int) -> int
    decreases s.len() - i,
{
    if i < 0 || i + 1 >= s.len() {
        start
    } else if separator_at(s, i) {
        last_piece_start(s, i + 2, i + 2)
    } else {
        last_piece_start(s, start, i + 1)
    }
}

/// The last piece of a module path cut at each `::` (the whole path when it has none).
pub open spec fn last_segment(s: Seq<char>) -> Seq<char> {
    s.skip(last_piece_start(s, 0, 0))
}

/// The module name a log line shows: the last piece of the module path, or `unknown` without one.
pub fn module_label(path: Option<&str>) -> (label: String)
    ensures
        label@ == match path {
            Some(p) => last_segment(p@),
            None => seq!['u', 'n', 'k', 'n', 'o', 'w', 'n'],
        },
{
    match path {
        None => {
            proof {
                reveal_strlit("unknown");
            }
            "unknown".to_owned()
        },
        Some(p) => {
            let n = p.unicode_len();
            let mut start: usize = 0;
            let mut i: usize = 0;
            while n - i >= 2
                invariant
                    n == p@.len(),
                    0 <= start <= i <= n,
                    last_piece_start(p@, 0, 0) == last_piece_start(p@, start as int, i as int),
                decreases n - i,
            {
                if p.get_char(i) == ':' && p.get_char(i + 1) == ':' {
                    start = i + 2;
                    i = i + 2;
                } else {
                    i = i + 1;
                }
            }
            p.substring_char(start, n).to_owned()
        },
    }
}

/// Spaces appended to `s` up to `width` characters (nothing when it is that long already).
pub open spec fn pad_right(s: Seq<char>, width: nat) -> Seq<char> {
    if s.len() >= width {
        s
    } else {
        s + Seq::new((width - s.len()) as nat, |i: int| ' ')
    }
}

/// Width of the module column of a log line.
pub const MODULE_COLUMN_WIDTH: usize = 20;

/// A log line: `[timestamp] level module - message`, with the module padded to its column.
pub open spec fn log_line_text(
    timestamp: Seq<char>,
    level: Seq<char>,
    module: Seq<char>,
    message: Seq<char>,
) -> Seq<char> {
    seq!['['] + timestamp + seq![']', ' '] + level + seq![' '] + pad_right(
        module,
        MODULE_COLUMN_WIDTH as nat,
    ) + seq![' ', '-', ' '] + message
}

/// Builds a log line (see `log_line_text`).
pub fn log_line(timestamp: &str, level: &str, module: &str, message: &str) -> (line: String)
    ensures
        line@ == log_line_text(timestamp@, level@, module@, message@),
{
    proof {
        reveal_strlit("[");
        reveal_strlit("] ");
        reveal_strlit(" ");
        reveal_strlit(" - ");
    }
    let mut line = String::new();
    line.append("[");
    line.append(timestamp);
    line.append("] ");
    line.append(level);
    line.append(" ");
    line.append(module);
    let len = module.unicode_len();
    let mut k: usize = len;
    while k < MODULE_COLUMN_WIDTH
        invariant
            len == module@.len(),
            len <= k <= MODULE_COLUMN_WIDTH || (len > MODULE_COLUMN_WIDTH && k == len),
            line@ == seq!['['] + timestamp@ + seq![']', ' '] + level@ + seq![' '] + module@
                + Seq::new((k - len) as nat, |i: int| ' '),
        decreases MODULE_COLUMN_WIDTH - k,
    {
        proof {
            reveal_strlit(" ");
        }
        line.append(" ");
        assert(Seq::new((k - len) as nat, |i: int| ' ').push(' ') =~= Seq::new(
            (k + 1 - len) as nat,
            |i: int| ' ',
        ));
        assert(line@ =~= seq!['['] + timestamp@ + seq![']', ' '] + level@ + seq![' '] + module@
            + Seq::new((k + 1 - len) as nat, |i: int| ' '));
        k = k + 1;
    }
    line.append(" - ");
    line.append(message);
    if len >= MODULE_COLUMN_WIDTH {
        assert(Seq::new((k - len) as nat, |i: int| ' ') =~= Seq::<char>::empty());
    }
    assert(line@ =~= log_line_text(timestamp@, level@, module@, message@));
    line
}

/// The filter named like a severity: the one that lets records of that severity and above through.
pub open spec fn filter_named_like(l: LogSeverity) -> SeverityFilter {
    match l {
        LogSeverity::Error => SeverityFilter::Error,
        LogSeverity::Warn => SeverityFilter::Warn,
        LogSeverity::Info => SeverityFilter::Info,
        LogSeverity::Debug => SeverityFilter::Debug,
        LogSeverity::Trace => SeverityFilter::Trace,
    }
}

/// A logger that prints records of its minimum severity and above.
pub struct LoggingService {
    pub min_log_level: SeverityFilter,
}

impl LoggingService {
    /// Whether a record of `level` gets printed: it is at least as severe as the minimum.
    pub fn enabled(&self, level: LogSeverity) -> (b: bool)
        ensures
            b == (severity_rank(level) <= filter_rank(self.min_log_level)),
            b == match self.min_log_level {
                SeverityFilter::Off => false,
                SeverityFilter::Error => level == LogSeverity::Error,
                SeverityFilter::Warn => level == LogSeverity::Error || level == LogSeverity::Warn,
                SeverityFilter::Info => level != LogSeverity::Debug && level != LogSeverity::Trace,
                SeverityFilter::Debug => level != LogSeverity::Trace,
                SeverityFilter::Trace => true,
            },
            self.min_log_level == filter_named_like(level) ==> b,
    {
        let rank: u8 = match level {
            LogSeverity::Error => 1,
            LogSeverity::Warn => 2,
            LogSeverity::Info => 3,
            LogSeverity::Debug => 4,
            LogSeverity::Trace => 5,
        };
        let min: u8 = match self.min_log_level {
            SeverityFilter::Off => 0,
            SeverityFilter::Error => 1,
            SeverityFilter::Warn => 2,
            SeverityFilter::Info => 3,
            SeverityFilter::Debug => 4,
            SeverityFilter::Trace => 5,
        };
        rank <= min
    }
}

/// The severities and the filters are ordered alike, Error < Warn < Info < Debug < Trace, with
/// Off below them all: each filter lets the severity it is named after through and stops the next
/// less severe one, and distinct filters have distinct ranks.
pub proof fn lemma_filter_order(level: LogSeverity, f: SeverityFilter, g: SeverityFilter)
    ensures
        filter_rank(filter_named_like(level)) == severity_rank(level),
        severity_rank(level) <= filter_rank(filter_named_like(level)),
        filter_rank(SeverityFilter::Off) < filter_rank(SeverityFilter::Error),
        filter_rank(SeverityFilter::Error) < filter_rank(SeverityFilter::Warn),
        filter_rank(SeverityFilter::Warn) < filter_rank(SeverityFilter::Info),
        filter_rank(SeverityFilter::Info) < filter_rank(SeverityFilter::Debug),
        filter_rank(SeverityFilter::Debug) < filter_rank(SeverityFilter::Trace),
        severity_rank(LogSeverity::Error) < severity_rank(LogSeverity::Warn),
        severity_rank(LogSeverity::Warn) < severity_rank(LogSeverity::Info),
        severity_rank(LogSeverity::Info) < severity_rank(LogSeverity::Debug),
        severity_rank(LogSeverity::Debug) < severity_rank(LogSeverity::Trace),
        severity_rank(LogSeverity::Warn) > filter_rank(SeverityFilter::Error),
        severity_rank(LogSeverity::Info) > filter_rank(SeverityFilter::Warn),
        severity_rank(LogSeverity::Debug) > filter_rank(SeverityFilter::Info),
        severity_rank(LogSeverity::Trace) > filter_rank(SeverityFilter::Debug),
        f != g ==> filter_rank(f) != filter_rank(g),
{
}

/// A logger that prints records of some severity prints every more severe record too, and a
/// logger set to `Off` prints nothing.
pub proof fn lemma_enabled_monotone(min: SeverityFilter, level: LogSeverity, more_severe: LogSeverity)
    requires
        severity_rank(more_severe) <= severity_rank(level),
        severity_rank(level) <= filter_rank(min),
    ensures
        severity_rank(more_severe) <= filter_rank(min),
        severity_rank(level) > filter_rank(SeverityFilter::Off),
{
}

} // verus!
