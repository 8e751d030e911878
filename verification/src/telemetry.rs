//! Log-level selection for the telemetry setup: the level filter as a plain
//! value and the rule that picks one from an environment variable's text,
//! falling back to a default when the text is missing or not a level name.

use vstd::prelude::*;

verus! {

/// A log level filter, from silence to the most verbose.
#[derive(Clone, Copy, Debug, PartialEq, Eq, Structural)]
pub enum LogLevel {
    Off,
    Error,
    Warn,
    Info,
    Debug,
    Trace,
}

/// How verbose the tracing setup is, per target: this crate's own records
/// and the HTTP layer's.
#[derive(Clone, Copy, Debug, PartialEq, Eq, Structural)]
pub struct TracingOptions {
    pub crate_level: LogLevel,
    pub tower_http_level: LogLevel,
}

impl Default for TracingOptions {
    /// The defaults: this crate's records at `Info`, the HTTP layer silent.
    fn default() -> (r: TracingOptions)
        ensures
            r.crate_level == LogLevel::Info,
            r.tower_http_level == LogLevel::Off,
    {
        TracingOptions { crate_level: LogLevel::Info, tower_http_level: LogLevel::Off }
    }
}

/// An ASCII upper-case letter mapped to its lower-case form; any other
/// character unchanged.
pub open spec fn lower_ascii_char(c: char) -> char {
    if c == 'A' {
        'a'
    } else if c == 'B' {
        'b'
    } else if c == 'C' {
        'c'
    } else if c == 'D' {
        'd'
    } else if c == 'E' {
        'e'
    } else if c == 'F' {
        'f'
    } else if c == 'G' {
        'g'
    } else if c == 'H' {
        'h'
    } else if c == 'I' {
        'i'
    } else if c == 'J' {
        'j'
    } else if c == 'K' {
        'k'
    } else if c == 'L' {
        'l'
    } else if c == 'M' {
        'm'
    } else if c == 'N' {
        'n'
    } else if c == 'O' {
        'o'
    } else if c == 'P' {
        'p'
    } else if c == 'Q' {
        'q'
    } else if c == 'R' {
        'r'
    } else if c == 'S' {
        's'
    } else if c == 'T' {
        't'
    } else if c == 'U' {
        'u'
    } else if c == 'V' {
        'v'
    } else if c == 'W' {
        'w'
    } else if c == 'X' {
        'x'
    } else if c == 'Y' {
        'y'
    } else if c == 'Z' {
        'z'
    } else {
        c
    }
}

/// Two character sequences are equal up to ASCII case.
pub open spec fn eq_ignore_ascii_case(a: Seq<char>, b: Seq<char>) -> bool {
    a.len() == b.len() && forall|i: int|
        0 <= i < a.len() ==> lower_ascii_char(a[i]) == lower_ascii_char(b[i])
}

fn lower_ascii(c: char) -> (r: char)
    ensures
        r == lower_ascii_char(c),
{
    match c {
        'A' => 'a',
        'B' => 'b',
        'C' => 'c',
        'D' => 'd',
        'E' => 'e',
        'F' => 'f',
        'G' => 'g',
        'H' => 'h',
        'I' => 'i',
        'J' => 'j',
        'K' => 'k',
        'L' => 'l',
        'M' => 'm',
        'N' => 'n',
        'O' => 'o',
        'P' => 'p',
        'Q' => 'q',
        'R' => 'r',
        'S' => 's',
        'T' => 't',
        'U' => 'u',
        'V' => 'v',
        'W' => 'w',
        'X' => 'x',
        'Y' => 'y',
        'Z' => 'z',
        _ => c,
    }
}

/// Decides `eq_ignore_ascii_case` executably.
#[verifier::loop_isolation(false)]
fn str_eq_ignore_ascii_case(a: &str, b: &str) -> (r: bool)
    ensures
        r == eq_ignore_ascii_case(a@, b@),
{
    let an = a.unicode_len();
    let bn = b.unicode_len();
    if an != bn {
        return false;
    }
    let mut i: usize = 0;
    while i < an
        invariant
            0 <= i <= an,
            forall|j: int| 0 <= j < i ==> lower_ascii_char(a@[j]) == lower_ascii_char(b@[j]),
        decreases an - i,
    {
        if lower_ascii(a.get_char(i)) != lower_ascii(b.get_char(i)) {
            return false;
        }
        i = i + 1;
    }
    true
}

/// The level whose name `s` is, compared without regard to ASCII case, or
/// nothing when `s` names no level.
pub open spec fn spec_level_from_name(s: Seq<char>) -> Option<LogLevel> {
    if eq_ignore_ascii_case(s, "off"@) {
        Some(LogLevel::Off)
    } else if eq_ignore_ascii_case(s, "error"@) {
        Some(LogLevel::Error)
    } else if eq_ignore_ascii_case(s, "warn"@) {
        Some(LogLevel::Warn)
    } else if eq_ignore_ascii_case(s, "info"@) {
        Some(LogLevel::Info)
    } else if eq_ignore_ascii_case(s, "debug"@) {
        Some(LogLevel::Debug)
    } else if eq_ignore_ascii_case(s, "trace"@) {
        Some(LogLevel::Trace)
    } else {
        None
    }
}

/// Reads a level from its name, without regard to ASCII case.
pub fn level_from_name(s: &str) -> (r: Option<LogLevel>)
    ensures
        r == spec_level_from_name(s@),
{
    if str_eq_ignore_ascii_case(s, "off") {
        Some(LogLevel::Off)
    } else if str_eq_ignore_ascii_case(s, "error") {
        Some(LogLevel::Error)
    } else if str_eq_ignore_ascii_case(s, "warn") {
        Some(LogLevel::Warn)
    } else if str_eq_ignore_ascii_case(s, "info") {
        Some(LogLevel::Info)
    } else if str_eq_ignore_ascii_case(s, "debug") {
        Some(LogLevel::Debug)
    } else if str_eq_ignore_ascii_case(s, "trace") {
        Some(LogLevel::Trace)
    } else {
        None
    }
}

/// What `parse_log_level` returns: the level named by the environment text
/// when there is one, else the given default, else `Off`.
pub open spec fn spec_parse_log_level(
    env_var: Option<Seq<char>>,
    default_value_opt: Option<LogLevel>,
) -> LogLevel {
    let default_value = match default_value_opt {
        Some(l) => l,
        None => LogLevel::Off,
    };
    match env_var {
        Some(s) => match spec_level_from_name(s) {
            Some(l) => l,
            None => default_value,
        },
        None => default_value,
    }
}

/// Picks the log level from an environment variable's text: the named level
/// when the text is a level name, the default otherwise, and `Off` when no
/// default is given either.
pub fn parse_log_level(env_var: Option<String>, default_value_opt: Option<LogLevel>) -> (r:
    LogLevel)
    ensures
        r == spec_parse_log_level(env_var.deep_view(), default_value_opt),
{
    let default_value = match default_value_opt {
        Some(l) => l,
        None => LogLevel::Off,
    };
    match env_var {
        Some(log_level) => match level_from_name(log_level.as_str()) {
            Some(filter_level) => filter_level,
            None => default_value,
        },
        None => default_value,
    }
}

/// The lower-case name of each level.
pub open spec fn spec_level_name(level: LogLevel) -> Seq<char> {
    match level {
        LogLevel::Off => "off"@,
        LogLevel::Error => "error"@,
        LogLevel::Warn => "warn"@,
        LogLevel::Info => "info"@,
        LogLevel::Debug => "debug"@,
        LogLevel::Trace => "trace"@,
    }
}

/// The level's lower-case name, as the filter syntax of the tracing setup
/// wants it.
pub fn level_name(level: LogLevel) -> (r: &'static str)
    ensures
        r@ == spec_level_name(level),
{
    match level {
        LogLevel::Off => "off",
        LogLevel::Error => "error",
        LogLevel::Warn => "warn",
        LogLevel::Info => "info",
        LogLevel::Debug => "debug",
        LogLevel::Trace => "trace",
    }
}

} // verus!
