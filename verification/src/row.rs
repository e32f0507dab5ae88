//! One row of the table: whether it is about a protocol, which port it
//! names, and which process it names.
//!
//! A protocol row is a line that the regular expression `(?i)^\s*(tcp|udp)`
//! matches, and the port of an address token is what `[.:](\d+)$` captures
//! in it, read as a 16-bit number. Both are stated here over characters
//! and decided by plain scans.

use crate::chars::{digit, is_digit, is_letter, is_separator, letter, separator, whitespace};
use crate::error::{LookupError, LookupFailure};
use crate::number::{bounded_decimal, parse_decimal, pid_of_token};
use crate::platform::{ColumnLayout, Layout};
use crate::text::{chars_of, nth_token, skip_whitespace, tokens};
use vstd::prelude::*;
use vstd::slice::slice_subrange;
use vstd::string::StrSliceExecFns;

verus! {

/// The three characters spell `tcp` or `udp`, each letter in either case.
pub open spec fn protocol_word(a: char, b: char, c: char) -> bool {
    ||| letter(a, 't') && letter(b, 'c') && letter(c, 'p')
    ||| letter(a, 'u') && letter(b, 'd') && letter(c, 'p')
}

/// The first `k` characters of `line` are whitespace and a protocol word
/// follows them.
pub open spec fn protocol_word_at(line: Seq<char>, k: int) -> bool {
    &&& 0 <= k
    &&& k + 3 <= line.len()
    &&& forall|i: int| 0 <= i < k ==> whitespace(#[trigger] line[i])
    &&& protocol_word(line[k], line[k + 1], line[k + 2])
}

/// `line` is a protocol row: after any whitespace it starts with `tcp` or
/// `udp`, in any mix of cases. What follows the word does not matter.
pub open spec fn protocol_line(line: Seq<char>) -> bool {
    exists|k: int| protocol_word_at(line, k)
}

/// The length of the run of decimal digits that `s` ends with.
pub open spec fn trailing_digits(s: Seq<char>) -> nat
    decreases s.len(),
{
    if s.len() == 0 || !digit(s.last()) {
        0
    } else {
        1 + trailing_digits(s.drop_last())
    }
}

/// The port that an address token names: the number written by the digits
/// that the token ends with, where there is at least one digit, a `.` or
/// `:` stands directly before them, and the number fits in 16 bits.
pub open spec fn port_of_token(token: Seq<char>) -> Option<u16> {
    let cut = token.len() - trailing_digits(token);
    if 0 < cut < token.len() && separator(token[cut - 1]) {
        match bounded_decimal(token.skip(cut), u16::MAX as nat) {
            Some(v) => Some(v as u16),
            None => None,
        }
    } else {
        None
    }
}

/// What a row says about `port`. `None`: the row is not about the port,
/// because it is no protocol row, has no token in the port's column, or that
/// token names no port or another one. Otherwise the row decides the lookup:
/// with the process identifier, read `layout.pid_offset()` tokens after the
/// one that follows the port's token, or with the reason why it could not be
/// read.
pub open spec fn row_outcome(line: Seq<char>, layout: Layout, port: u16) -> Option<
    Result<u32, LookupFailure>,
> {
    let row = tokens(line);
    let after_port = row.skip(layout.port_column as int + 1);
    if !protocol_line(line) || row.len() <= layout.port_column || port_of_token(
        row[layout.port_column as int],
    ) != Some(port) {
        None
    } else if after_port.len() <= layout.pid_offset() {
        Some(Err(LookupFailure::PidColumnMissing { line, offset: layout.pid_offset() }))
    } else {
        let token = after_port[layout.pid_offset() as int];
        match pid_of_token(token) {
            Some(pid) => Some(Ok(pid)),
            None => Some(Err(LookupFailure::PidParseError { token })),
        }
    }
}

/// `trailing_digits` is the distance from the end to the last character
/// that is no digit.
pub proof fn lemma_trailing_digits(s: Seq<char>, d: int)
    requires
        0 <= d <= s.len(),
        forall|j: int| s.len() - d <= j < s.len() ==> digit(s[j]),
        d < s.len() ==> !digit(s[s.len() - d - 1]),
    ensures
        trailing_digits(s) == d,
    decreases d,
{
    if d > 0 {
        lemma_trailing_digits(s.drop_last(), d - 1);
    }
}

/// Tells whether `line` is a protocol row.
pub fn is_protocol_line(line: &[char]) -> (b: bool)
    ensures
        b == protocol_line(line@),
{
    let n: usize = line.len();
    let k: usize = skip_whitespace(line, 0);
    let found: bool = n - k >= 3 && (is_letter(line[k], 't') && is_letter(line[k + 1], 'c')
        && is_letter(line[k + 2], 'p') || is_letter(line[k], 'u') && is_letter(line[k + 1], 'd')
        && is_letter(line[k + 2], 'p'));
    proof {
        if found {
            assert(protocol_word_at(line@, k as int));
        }
    }
    found
}

/// Reads the port that an address token names.
pub fn extract_port(token: &[char]) -> (r: Option<u16>)
    ensures
        r == port_of_token(token@),
{
    let n: usize = token.len();
    let mut cut: usize = n;
    while cut > 0 && is_digit(token[cut - 1])
        invariant
            n == token@.len(),
            0 <= cut <= n,
            forall|j: int| cut <= j < n ==> digit(token@[j]),
        decreases cut,
    {
        cut = cut - 1;
    }
    proof {
        lemma_trailing_digits(token@, n - cut);
    }
    if cut == 0 || cut == n || !is_separator(token[cut - 1]) {
        return None;
    }
    match parse_decimal(slice_subrange(token, cut, n), 65535) {
        Some(v) => Some(v as u16),
        None => None,
    }
}

/// Reads a process identifier.
pub fn parse_pid(token: &[char]) -> (r: Option<u32>)
    ensures
        r == pid_of_token(token@),
{
    let n: usize = token.len();
    let from: usize = if n > 0 && token[0] == '+' {
        1
    } else {
        0
    };
    proof {
        if from == 0 {
            assert(token@.subrange(0, n as int) =~= token@);
        } else {
        }
    }
    parse_decimal(slice_subrange(token, from, n), u32::MAX)
}

/// What was found in a row, with a token given by the positions of its
/// first character and of the character after its last.
#[derive(Debug, Clone, Copy, PartialEq, Eq)]
pub(crate) enum RowScan {
    /// The row is not about the port.
    Skip,
    /// The row names the port and this process.
    Pid(u32),
    /// The row names the port and ends before the process identifier.
    PidMissing,
    /// The row names the port, and this token stands where the process
    /// identifier should.
    PidUnreadable { start: usize, end: usize },
}

impl RowScan {
    /// What the scan of `line` says, as `row_outcome` puts it.
    pub(crate) open spec fn outcome(self, line: Seq<char>, layout: Layout) -> Option<
        Result<u32, LookupFailure>,
    > {
        match self {
            RowScan::Skip => None,
            RowScan::Pid(pid) => Some(Ok(pid)),
            RowScan::PidMissing => Some(
                Err(LookupFailure::PidColumnMissing { line, offset: layout.pid_offset() }),
            ),
            RowScan::PidUnreadable { start, end } => Some(
                Err(
                    LookupFailure::PidParseError {
                        token: line.subrange(start as int, end as int),
                    },
                ),
            ),
        }
    }
}

/// Reads one row for `port`.
pub(crate) fn scan_row(line: &[char], layout: ColumnLayout, port: u16) -> (r: RowScan)
    ensures
        r.outcome(line@, layout@) == row_outcome(line@, layout@, port),
        r matches RowScan::PidUnreadable { start, end } ==> start <= end <= line@.len(),
{
    if !is_protocol_line(line) {
        return RowScan::Skip;
    }
    assert(line@.skip(0) =~= line@);
    let (port_start, port_end) = match nth_token(line, 0, layout.port_column()) {
        Some(found) => found,
        None => {
            return RowScan::Skip;
        },
    };
    match extract_port(slice_subrange(line, port_start, port_end)) {
        Some(named) => {
            if named != port {
                return RowScan::Skip;
            }
        },
        None => {
            return RowScan::Skip;
        },
    }
    match nth_token(line, port_end, layout.pid_offset()) {
        None => RowScan::PidMissing,
        Some((start, end)) => match parse_pid(slice_subrange(line, start, end)) {
            Some(pid) => RowScan::Pid(pid),
            None => RowScan::PidUnreadable { start, end },
        },
    }
}

/// The view of what a row says: a failure by its view.
pub open spec fn outcome_view(o: Option<Result<u32, LookupError>>) -> Option<
    Result<u32, LookupFailure>,
> {
    match o {
        Some(Ok(pid)) => Some(Ok(pid)),
        Some(Err(e)) => Some(Err(e@)),
        None => None,
    }
}

/// Reads one row for `port`: `None` where the row is not about the port,
/// else the process that the row names or the reason why it names none.
pub fn evaluate_row(line: &str, layout: ColumnLayout, port: u16) -> (r: Option<
    Result<u32, LookupError>,
>)
    ensures
        outcome_view(r) == row_outcome(line@, layout@, port),
{
    let chars = chars_of(line);
    match scan_row(chars.as_slice(), layout, port) {
        RowScan::Skip => None,
        RowScan::Pid(pid) => Some(Ok(pid)),
        RowScan::PidMissing => Some(
            Err(LookupError::PidColumnMissing { line: line.to_owned(), offset: layout.pid_offset() }),
        ),
        RowScan::PidUnreadable { start, end } => Some(
            Err(LookupError::PidParseError { token: line.substring_char(start, end).to_owned() }),
        ),
    }
}

} // verus!
