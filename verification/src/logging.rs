//! Log records: severity levels, the entry types the GUI consumes,
//! and parsing one line of the log file back into an entry.

use vstd::prelude::*;

verus! {

/// Severity of one log record.
#[derive(Debug, Clone, Copy, PartialEq, Eq, Structural)]
pub enum LogLevel {
    Debug,
    Info,
    Warn,
    Error,
}

impl LogLevel {
    /// The level's tag as written in the log file.
    pub open spec fn spec_as_str(self) -> Seq<char> {
        match self {
            LogLevel::Debug => "DEBUG"@,
            LogLevel::Info => "INFO"@,
            LogLevel::Warn => "WARN"@,
            LogLevel::Error => "ERROR"@,
        }
    }

    pub fn as_str(&self) -> (r: &'static str)
        ensures
            r@ == self.spec_as_str(),
    {
        match self {
            LogLevel::Debug => "DEBUG",
            LogLevel::Info => "INFO",
            LogLevel::Warn => "WARN",
            LogLevel::Error => "ERROR",
        }
    }
}

/// One parsed entry of the log file.
#[derive(Debug, Clone)]
pub struct LogEntry {
    pub timestamp: String,
    pub level: String,
    pub message: String,
    pub details: Option<String>,
}

/// Size and entry count of the log file.
#[derive(Debug, Clone)]
pub struct LogInfo {
    pub path: String,
    pub size: u64,
    pub count: usize,
}

/// One record of the live log stream of the supervised process.
#[derive(Debug, Clone)]
pub struct LogStreamEntry {
    pub timestamp: String,
    pub level: String,
    pub source: String,
    pub message: String,
}

/// The first position at or after `from` where the three characters
/// `a b c` stand in a row.
pub open spec fn spec_find3(s: Seq<char>, from: int, a: char, b: char, c: char) -> Option<int>
    decreases s.len() - from,
{
    if from < 0 || from + 3 > s.len() {
        None
    } else if s[from] == a && s[from + 1] == b && s[from + 2] == c {
        Some(from)
    } else {
        spec_find3(s, from + 1, a, b, c)
    }
}

/// The first position at or after `from` where the two characters
/// `a b` stand in a row.
pub open spec fn spec_find2(s: Seq<char>, from: int, a: char, b: char) -> Option<int>
    decreases s.len() - from,
{
    if from < 0 || from + 2 > s.len() {
        None
    } else if s[from] == a && s[from + 1] == b {
        Some(from)
    } else {
        spec_find2(s, from + 1, a, b)
    }
}

/// The level tag in its lower-case form, for the known tags; any other
/// tag is kept as it is.
pub open spec fn spec_level_lower(s: Seq<char>) -> Seq<char> {
    if s == "DEBUG"@ {
        "debug"@
    } else if s == "INFO"@ {
        "info"@
    } else if s == "WARN"@ {
        "warn"@
    } else if s == "ERROR"@ {
        "error"@
    } else {
        s
    }
}

/// What `parse_log_line` extracts from a line of the form
/// `[timestamp] [LEVEL] message`: the timestamp between the opening
/// bracket and the first `] [`, the lower-cased level tag, and the
/// rest as the message. Anything shorter than 30 characters or not of
/// that shape gives `None`.
pub open spec fn spec_parse_log_line(s: Seq<char>) -> Option<(Seq<char>, Seq<char>, Seq<char>)> {
    if s.len() < 30 {
        None
    } else {
        match spec_find3(s, 0, ']', ' ', '[') {
            None => None,
            Some(t) => if t < 1 {
                None
            } else {
                match spec_find2(s, t + 3, ']', ' ') {
                    None => None,
                    Some(l) => Some(
                        (
                            s.subrange(1, t),
                            spec_level_lower(s.subrange(t + 3, l)),
                            s.subrange(l + 2, s.len() as int),
                        ),
                    ),
                }
            },
        }
    }
}

/// Compares two string slices character by character.
pub fn str_eq(a: &str, b: &str) -> (r: bool)
    ensures
        r == (a@ == b@),
{
    let na = a.unicode_len();
    let nb = b.unicode_len();
    if na != nb {
        proof {
            assert(a@.len() != b@.len());
        }
        return false;
    }
    let mut i: usize = 0;
    while i < na
        invariant
            i <= na == a@.len(),
            na == b@.len(),
            forall|k: int| 0 <= k < i ==> a@[k] == b@[k],
        decreases na - i,
    {
        if a.get_char(i) != b.get_char(i) {
            return false;
        }
        i = i + 1;
    }
    proof {
        assert(a@ =~= b@);
    }
    true
}

/// Finds the first `] [` at or after `from`.
fn find3(s: &str, from: usize, a: char, b: char, c: char) -> (r: Option<usize>)
    requires
        from <= s@.len(),
    ensures
        match (r, spec_find3(s@, from as int, a, b, c)) {
            (Some(i), Some(j)) => i == j && from <= i && i + 3 <= s@.len(),
            (None, None) => true,
            _ => false,
        },
{
    let n = s.unicode_len();
    if n < 3 {
        return None;
    }
    let mut i: usize = from;
    if i > n - 3 {
        return None;
    }
    while i <= n - 3
        invariant
            from <= i <= n - 2,
            3 <= n == s@.len(),
            spec_find3(s@, from as int, a, b, c) == spec_find3(s@, i as int, a, b, c),
        decreases n - i,
    {
        if s.get_char(i) == a && s.get_char(i + 1) == b && s.get_char(i + 2) == c {
            return Some(i);
        }
        i = i + 1;
    }
    None
}

/// Finds the first `a b` pair at or after `from`.
fn find2(s: &str, from: usize, a: char, b: char) -> (r: Option<usize>)
    requires
        from <= s@.len(),
    ensures
        match (r, spec_find2(s@, from as int, a, b)) {
            (Some(i), Some(j)) => i == j && from <= i && i + 2 <= s@.len(),
            (None, None) => true,
            _ => false,
        },
{
    let n = s.unicode_len();
    if n < 2 {
        return None;
    }
    let mut i: usize = from;
    if i > n - 2 {
        return None;
    }
    while i <= n - 2
        invariant
            from <= i <= n - 1,
            2 <= n == s@.len(),
            spec_find2(s@, from as int, a, b) == spec_find2(s@, i as int, a, b),
        decreases n - i,
    {
        if s.get_char(i) == a && s.get_char(i + 1) == b {
            return Some(i);
        }
        i = i + 1;
    }
    None
}

/// Lower-cases a known level tag, keeping anything else as it is.
fn level_lower(s: &str) -> (r: String)
    ensures
        r@ == spec_level_lower(s@),
{
    if str_eq(s, "DEBUG") {
        String::from_str("debug")
    } else if str_eq(s, "INFO") {
        String::from_str("info")
    } else if str_eq(s, "WARN") {
        String::from_str("warn")
    } else if str_eq(s, "ERROR") {
        String::from_str("error")
    } else {
        s.to_owned()
    }
}

/// Parses one `[timestamp] [LEVEL] message` line of the log file into
/// an entry; lines of any other shape give `None`.
pub fn parse_log_line(line: &str) -> (r: Option<LogEntry>)
    ensures
        match (r, spec_parse_log_line(line@)) {
            (Some(e), Some(parts)) => e.timestamp@ == parts.0 && e.level@ == parts.1 && e.message@
                == parts.2 && e.details is None,
            (None, None) => true,
            _ => false,
        },
{
    let n = line.unicode_len();
    if n < 30 {
        return None;
    }
    let t = match find3(line, 0, ']', ' ', '[') {
        None => {
            return None;
        },
        Some(t) => t,
    };
    if t < 1 {
        return None;
    }
    let l = match find2(line, t + 3, ']', ' ') {
        None => {
            return None;
        },
        Some(l) => l,
    };
    let timestamp = line.substring_char(1, t).to_owned();
    let level = level_lower(line.substring_char(t + 3, l));
    let message = line.substring_char(l + 2, n).to_owned();
    Some(LogEntry { timestamp, level, message, details: None })
}

} // verus!
