//! Reading the battery level of a separate device from the text that its
//! debug bridge prints for a battery dump.
//!
//! The dump holds a line `level: <number>`. A line counts when, without its
//! surrounding whitespace, it starts with `level:`, holds no other colon, and
//! the rest, without its surrounding whitespace, is a decimal number. The
//! first such line gives the level.

use vstd::prelude::*;
use crate::reading::same_text;
use crate::text::{Decimal, decimal_of, parse_decimal, trim, trimmed};

verus! {

/// The level that one line of the dump gives, if it is a level line.
pub open spec fn line_level(line: Seq<char>) -> Option<Decimal> {
    let t = trimmed(line);
    if t.len() >= 6 && t.subrange(0, 6) == "level:"@ && !t.subrange(6, t.len() as int).contains(
        ':',
    ) {
        decimal_of(trimmed(t.subrange(6, t.len() as int)))
    } else {
        None
    }
}

/// The level given by the first level line among the lines of `line + s`,
/// where `line` is the start of a line whose rest begins `s`.
pub open spec fn scan_level(s: Seq<char>, line: Seq<char>) -> Option<Decimal>
    decreases s.len(),
{
    if s.len() == 0 {
        line_level(line)
    } else if s[0] == '\n' {
        match line_level(line) {
            Some(d) => Some(d),
            None => scan_level(s.drop_first(), Seq::empty()),
        }
    } else {
        scan_level(s.drop_first(), line.push(s[0]))
    }
}

/// The level that a battery dump gives, if any line gives one.
pub open spec fn level_of(out: Seq<char>) -> Option<Decimal> {
    scan_level(out, Seq::empty())
}

/// Why the remote battery level could not be had.
#[derive(Clone, Debug)]
pub enum BridgeError {
    /// The bridge command failed; `diagnostic` is what it printed on its
    /// error stream.
    BridgeUnavailable { diagnostic: String },
    /// The bridge answered, but no line of `output` gives a level.
    ParseFailure { output: String },
}

/// The explanation that heads the message of each error.
pub open spec fn unavailable_prefix() -> Seq<char> {
    "bridge command failed. Is the device connected and authorized? Details: "@
}

pub open spec fn parse_failure_prefix() -> Seq<char> {
    "could not read the battery level from the bridge output. Full output:\n"@
}

impl BridgeError {
    /// A message for the operator, which ends with the bridge's own text.
    pub fn message(&self) -> (r: String)
        ensures
            match self {
                BridgeError::BridgeUnavailable { diagnostic } => r@ == unavailable_prefix()
                    + diagnostic@,
                BridgeError::ParseFailure { output } => r@ == parse_failure_prefix() + output@,
            },
    {
        match self {
            BridgeError::BridgeUnavailable { diagnostic } => {
                "bridge command failed. Is the device connected and authorized? Details: ".to_owned().concat(
                diagnostic.as_str())
            },
            BridgeError::ParseFailure { output } => {
                "could not read the battery level from the bridge output. Full output:\n".to_owned().concat(
                output.as_str())
            },
        }
    }
}

/// The level that one line of the dump gives, if it is a level line.
pub fn level_of_line(line: &str) -> (r: Option<Decimal>)
    ensures
        r == line_level(line@),
        r matches Some(d) ==> d.wf(),
{
    let t = trim(line);
    let n = t.unicode_len();
    if n < 6 || !same_text(t.substring_char(0, 6), "level:") {
        return None;
    }
    let rest = t.substring_char(6, n);
    let m = rest.unicode_len();
    let mut i: usize = 0;
    while i < m
        invariant
            i <= m,
            m == rest@.len(),
            n == t@.len(),
            n >= 6,
            t@ == trimmed(line@),
            rest@ == t@.subrange(6, n as int),
            t@.subrange(0, 6) == "level:"@,
            forall|j: int| 0 <= j < i ==> rest@[j] != ':',
        decreases m - i,
    {
        if rest.get_char(i) == ':' {
            assert(rest@.contains(':')) by {
                assert(rest@[i as int] == ':');
            }
            return None;
        }
        i = i + 1;
    }
    parse_decimal(trim(rest))
}

/// The level that the battery dump `out` gives, if any line gives one.
pub fn level_in(out: &str) -> (r: Option<Decimal>)
    ensures
        r == level_of(out@),
        r matches Some(d) ==> d.wf(),
{
    let n = out.unicode_len();
    let mut start: usize = 0;
    let mut i: usize = 0;
    assert(out@.subrange(0, n as int) =~= out@);
    assert(out@.subrange(0, 0) =~= Seq::<char>::empty());
    while i < n
        invariant
            start <= i <= n,
            n == out@.len(),
            level_of(out@) == scan_level(
                out@.subrange(i as int, n as int),
                out@.subrange(start as int, i as int),
            ),
        decreases n - i,
    {
        let c = out.get_char(i);
        let ghost s = out@.subrange(i as int, n as int);
        assert(s.drop_first() =~= out@.subrange(i + 1, n as int));
        if c == '\n' {
            match level_of_line(out.substring_char(start, i)) {
                Some(d) => {
                    return Some(d);
                },
                None => {},
            }
            assert(out@.subrange(i + 1, i + 1) =~= Seq::<char>::empty());
            start = i + 1;
        } else {
            assert(out@.subrange(start as int, i as int).push(c) =~= out@.subrange(
                start as int,
                i + 1,
            ));
        }
        i = i + 1;
    }
    assert(out@.subrange(n as int, n as int) =~= Seq::<char>::empty());
    level_of_line(out.substring_char(start, n))
}

/// What a battery query through the bridge yields: when the command failed,
/// the bridge's error text; else the level of the first level line, in
/// thousandths of a percent, or, when no line gives one, the whole output.
pub open spec fn remote_outcome(
    r: Result<i64, BridgeError>,
    succeeded: bool,
    stdout: Seq<char>,
    stderr: Seq<char>,
) -> bool {
    if !succeeded {
        r matches Err(BridgeError::BridgeUnavailable { diagnostic }) && diagnostic@ == stderr
    } else {
        match level_of(stdout) {
            Some(d) => r == Ok::<i64, BridgeError>(d.milli() as i64),
            None => (r matches Err(BridgeError::ParseFailure { output }) && output@ == stdout),
        }
    }
}

/// The outcome of one battery query through the bridge: `succeeded` tells
/// whether the command exited successfully, `stdout` and `stderr` are what it
/// printed. The level is in thousandths of a percent.
pub fn read_remote_level(succeeded: bool, stdout: &str, stderr: &str) -> (r: Result<
    i64,
    BridgeError,
>)
    ensures
        remote_outcome(r, succeeded, stdout@, stderr@),
{
    if !succeeded {
        return Err(BridgeError::BridgeUnavailable { diagnostic: stderr.to_owned() });
    }
    match level_in(stdout) {
        Some(d) => Ok(d.to_milli()),
        None => Err(BridgeError::ParseFailure { output: stdout.to_owned() }),
    }
}

} // verus!
