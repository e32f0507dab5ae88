//! What holds of the lookup for every input: of the protocol filter, of the
//! port in an address token, of tokens and lines, of the place of the
//! process identifier in a row, and of the search through the rows.

use crate::chars::{digit, same_ignoring_case, separator, whitespace};
use crate::error::LookupFailure;
use crate::lookup::{decoded_text, first_match, lookup, CommandOutcome};
use crate::number::{
    all_digits, decimal_digits, decimal_value, lemma_decimal_digits, pid_of_token,
};
use crate::platform::{command_for, layout_for, Layout, Platform};
use crate::row::{
    lemma_trailing_digits, port_of_token, protocol_line, protocol_word, protocol_word_at,
    row_outcome, trailing_digits,
};
use crate::text::{
    lemma_first_line_len, lemma_token_len, lemma_token_len_bounds, lines, token_len, tokens,
    without_carriage_return,
};
use vstd::prelude::*;

verus! {

/// Whitespace before a row does not change whether it is a protocol row.
pub proof fn lemma_protocol_line_ignores_leading_whitespace(blank: Seq<char>, line: Seq<char>)
    requires
        forall|i: int| 0 <= i < blank.len() ==> whitespace(#[trigger] blank[i]),
    ensures
        protocol_line(blank + line) == protocol_line(line),
{
    let padded = blank + line;
    let n = blank.len() as int;
    if protocol_line(line) {
        let k = choose|k: int| protocol_word_at(line, k);
        assert(protocol_word_at(padded, n + k));
    }
    if protocol_line(padded) {
        let k = choose|k: int| protocol_word_at(padded, k);
        if k >= n {
            assert forall|i: int| 0 <= i < k - n implies whitespace(#[trigger] line[i]) by {
                assert(line[i] == padded[n + i]);
            }
            assert(protocol_word_at(line, k - n));
        }
    }
}

/// The case of the letters does not change whether a row is a protocol
/// row: two rows that differ in nothing but the case of ASCII letters are
/// both protocol rows or both not.
pub proof fn lemma_protocol_line_ignores_case(a: Seq<char>, b: Seq<char>)
    requires
        a.len() == b.len(),
        forall|i: int| 0 <= i < a.len() ==> same_ignoring_case(#[trigger] a[i], b[i]),
    ensures
        protocol_line(a) == protocol_line(b),
{
    if protocol_line(a) {
        let k = choose|k: int| protocol_word_at(a, k);
        lemma_protocol_word_at_ignores_case(a, b, k);
    }
    if protocol_line(b) {
        let k = choose|k: int| protocol_word_at(b, k);
        lemma_protocol_word_at_ignores_case(b, a, k);
    }
}

proof fn lemma_protocol_word_at_ignores_case(a: Seq<char>, b: Seq<char>, k: int)
    requires
        a.len() == b.len(),
        forall|i: int| 0 <= i < a.len() ==> same_ignoring_case(#[trigger] a[i], b[i]),
        protocol_word_at(a, k),
    ensures
        protocol_word_at(b, k),
{
    assert forall|i: int| 0 <= i < k implies whitespace(#[trigger] b[i]) by {
        assert(same_ignoring_case(a[i], b[i]));
    }
}

/// Only the first word of a row counts: a row whose first character after
/// the leading whitespace does not start a protocol word is no protocol
/// row, whatever stands later in it.
pub proof fn lemma_protocol_word_must_lead(line: Seq<char>, k: int)
    requires
        0 <= k < line.len(),
        forall|i: int| 0 <= i < k ==> whitespace(#[trigger] line[i]),
        !whitespace(line[k]),
        !(k + 3 <= line.len() && protocol_word(line[k], line[k + 1], line[k + 2])),
    ensures
        !protocol_line(line),
{
}

/// What follows the protocol word does not count: a protocol row stays one
/// when anything is put after it.
pub proof fn lemma_protocol_line_extends(line: Seq<char>, more: Seq<char>)
    requires
        protocol_line(line),
    ensures
        protocol_line(line + more),
{
    let k = choose|k: int| protocol_word_at(line, k);
    assert(protocol_word_at(line + more, k));
}

/// The port of an address token is read from its end: where a token ends
/// with a `.` or `:` and, after it, one or more decimal digits, its port is
/// the number that these digits write, if that fits in 16 bits, and the
/// token has no port if it does not. What stands before the separator does
/// not count.
pub proof fn lemma_port_after_last_separator(prefix: Seq<char>, sep: char, digits: Seq<char>)
    requires
        separator(sep),
        digits.len() > 0,
        all_digits(digits),
    ensures
        port_of_token(prefix + seq![sep] + digits) == (if decimal_value(digits) <= u16::MAX {
            Some(decimal_value(digits) as u16)
        } else {
            None
        }),
{
    let token = prefix + seq![sep] + digits;
    let cut = prefix.len() + 1;
    lemma_trailing_digits(token, digits.len() as int);
    assert(token.skip(cut as int) =~= digits);
}

/// Every port can be named: an address, a `.` or `:` and the port in its
/// usual decimal form make a token with that port.
pub proof fn lemma_port_of_composite_address(prefix: Seq<char>, sep: char, port: u16)
    requires
        separator(sep),
    ensures
        port_of_token(prefix + seq![sep] + decimal_digits(port as nat)) == Some(port),
{
    lemma_decimal_digits(port as nat);
    lemma_port_after_last_separator(prefix, sep, decimal_digits(port as nat));
}

/// A token names a port only in one way: where a token has a port, a `.`
/// or `:` stands in it, only decimal digits follow, at least one, and they
/// write the port.
pub proof fn lemma_port_needs_separator_and_digits(token: Seq<char>)
    requires
        port_of_token(token) is Some,
    ensures
        exists|cut: int|
            0 < cut < token.len() && separator(#[trigger] token[cut - 1]) && all_digits(
                token.skip(cut),
            ) && decimal_value(token.skip(cut)) == port_of_token(token).unwrap(),
{
}

/// A token that does not end with a digit names no port.
pub proof fn lemma_no_port_without_trailing_digit(token: Seq<char>)
    requires
        token.len() == 0 || !digit(token.last()),
    ensures
        port_of_token(token) is None,
{
}

/// A token that holds neither `.` nor `:` names no port.
pub proof fn lemma_no_port_without_separator(token: Seq<char>)
    requires
        forall|i: int| 0 <= i < token.len() ==> !separator(#[trigger] token[i]),
    ensures
        port_of_token(token) is None,
{
    lemma_trailing_digits_bound(token);
}

proof fn lemma_trailing_digits_bound(s: Seq<char>)
    ensures
        trailing_digits(s) <= s.len(),
    decreases s.len(),
{
    if s.len() > 0 && digit(s.last()) {
        lemma_trailing_digits_bound(s.drop_last());
    }
}

/// The characters before the end of the first token are not whitespace,
/// and the character at its end is.
pub proof fn lemma_token_ends_at_whitespace(s: Seq<char>)
    ensures
        forall|j: int| 0 <= j < token_len(s) ==> !whitespace(#[trigger] s[j]),
        token_len(s) < s.len() ==> whitespace(s[token_len(s) as int]),
    decreases s.len(),
{
    lemma_token_len_bounds(s);
    if s.len() > 0 && !whitespace(s[0]) {
        let rest = s.skip(1);
        lemma_token_ends_at_whitespace(rest);
        assert forall|j: int| 0 <= j < token_len(s) implies !whitespace(#[trigger] s[j]) by {
            if j > 0 {
                assert(s[j] == rest[j - 1]);
            }
        }
    }
}

/// No token is empty and none holds whitespace.
pub proof fn lemma_tokens_hold_no_whitespace(line: Seq<char>, i: int)
    requires
        0 <= i < tokens(line).len(),
    ensures
        tokens(line)[i].len() > 0,
        forall|j: int| 0 <= j < tokens(line)[i].len() ==> !whitespace(#[trigger] tokens(line)[i][j]),
    decreases line.len(),
{
    if line.len() > 0 {
        if whitespace(line[0]) {
            lemma_tokens_hold_no_whitespace(line.skip(1), i);
        } else {
            let n = token_len(line) as int;
            lemma_token_len_bounds(line);
            lemma_token_ends_at_whitespace(line);
            if i > 0 {
                lemma_tokens_hold_no_whitespace(line.skip(n), i - 1);
            }
        }
    }
}

/// A run of characters without whitespace is its own and only token.
pub proof fn lemma_tokens_of_word(word: Seq<char>)
    requires
        word.len() > 0,
        forall|j: int| 0 <= j < word.len() ==> !whitespace(#[trigger] word[j]),
    ensures
        tokens(word) == seq![word],
{
    lemma_token_len(word, word.len() as int);
    assert(word.take(word.len() as int) =~= word);
    assert(word.skip(word.len() as int) =~= Seq::<char>::empty());
    assert(tokens(Seq::<char>::empty()) =~= Seq::<Seq<char>>::empty());
}

/// Whitespace parts tokens: the tokens of two texts joined by a whitespace
/// character are those of the first, then those of the second.
pub proof fn lemma_tokens_of_joined(left: Seq<char>, blank: char, right: Seq<char>)
    requires
        whitespace(blank),
    ensures
        tokens(left + seq![blank] + right) == tokens(left) + tokens(right),
    decreases left.len(),
{
    let joined = left + seq![blank] + right;
    if left.len() == 0 {
        assert(joined.skip(1) =~= right);
    } else if whitespace(left[0]) {
        assert(joined.skip(1) =~= left.skip(1) + seq![blank] + right);
        lemma_tokens_of_joined(left.skip(1), blank, right);
    } else {
        let n = token_len(left) as int;
        lemma_token_len_bounds(left);
        lemma_token_ends_at_whitespace(left);
        lemma_token_len(joined, n);
        assert(joined.take(n) =~= left.take(n));
        assert(joined.skip(n) =~= left.skip(n) + seq![blank] + right);
        lemma_tokens_of_joined(left.skip(n), blank, right);
    }
}

/// A text without a line feed is one line, unless it is empty.
pub proof fn lemma_lines_of_last_line(line: Seq<char>)
    requires
        forall|j: int| 0 <= j < line.len() ==> line[j] != '\n',
    ensures
        lines(line) == if line.len() == 0 {
            Seq::<Seq<char>>::empty()
        } else {
            seq![line]
        },
{
    lemma_first_line_len(line, line.len() as int);
}

/// A line feed ends a line: the lines of a text that starts with a line
/// and its line feed are that line, without a carriage return at its end,
/// and then the lines of what follows.
pub proof fn lemma_lines_of_joined(first: Seq<char>, rest: Seq<char>)
    requires
        forall|j: int| 0 <= j < first.len() ==> first[j] != '\n',
    ensures
        lines(first + seq!['\n'] + rest) == seq![without_carriage_return(first)] + lines(rest),
{
    let text = first + seq!['\n'] + rest;
    let n = first.len() as int;
    lemma_first_line_len(text, n);
    assert(text.take(n) =~= first);
    assert(text.skip(n + 1) =~= rest);
}

/// Where a row is about the port, the process identifier is read from one
/// token only: the one that stands `layout.pid_offset()` tokens after the
/// token that follows the port's. The row fails with `PidColumnMissing`
/// exactly when it ends before that token.
pub proof fn lemma_pid_token_follows_port_token(line: Seq<char>, layout: Layout, port: u16)
    requires
        row_outcome(line, layout, port) is Some,
    ensures
        ({
            let at = (layout.port_column + 1 + layout.pid_offset()) as int;
            row_outcome(line, layout, port) == Some(
                if tokens(line).len() <= at {
                    Err(LookupFailure::PidColumnMissing { line, offset: layout.pid_offset() })
                } else {
                    match pid_of_token(tokens(line)[at]) {
                        Some(pid) => Ok(pid),
                        None => Err(LookupFailure::PidParseError { token: tokens(line)[at] }),
                    }
                },
            )
        }),
{
}

/// What a row says, with the text of the row left out of it.
pub open spec fn without_line(o: Option<Result<u32, LookupFailure>>) -> Option<
    Result<u32, LookupFailure>,
> {
    match o {
        Some(Err(LookupFailure::PidColumnMissing { line, offset })) => Some(
            Err(LookupFailure::PidColumnMissing { line: Seq::empty(), offset }),
        ),
        _ => o,
    }
}

/// The process identifier is found by counting from the port's token, not
/// from the start of the row: two rows that hold the same tokens from the
/// port's token on say the same about a port, however many tokens stand
/// before the port's token in each, if the process identifier is expected
/// the same number of tokens after it.
pub proof fn lemma_pid_is_counted_from_port_token(
    line_a: Seq<char>,
    layout_a: Layout,
    line_b: Seq<char>,
    layout_b: Layout,
    port: u16,
)
    requires
        protocol_line(line_a) == protocol_line(line_b),
        layout_a.port_column <= tokens(line_a).len(),
        layout_b.port_column <= tokens(line_b).len(),
        tokens(line_a).skip(layout_a.port_column as int) == tokens(line_b).skip(
            layout_b.port_column as int,
        ),
        layout_a.pid_offset() == layout_b.pid_offset(),
    ensures
        without_line(row_outcome(line_a, layout_a, port)) == without_line(
            row_outcome(line_b, layout_b, port),
        ),
{
    let row_b = tokens(line_b);
    let from_b = row_b.skip(layout_b.port_column as int);
    if from_b.len() > 0 {
        assert(row_b[layout_b.port_column as int] == from_b[0]);
        assert(row_b.skip(layout_b.port_column as int + 1) =~= from_b.skip(1));
    }
}

/// A platform has a command exactly when it has a layout, and in every
/// layout the process identifier's column lies after the port's.
pub proof fn lemma_command_and_layout_go_together(platform: Platform)
    ensures
        command_for(platform) is Some <==> layout_for(platform) is Some,
        layout_for(platform) matches Some(layout) ==> layout.wf(),
{
}

/// A port that no row is about is reported as unused, and nothing else is:
/// the lookup among `rows` fails with `NoProcessForPort` exactly when no row
/// is about `port`.
pub proof fn lemma_unused_port(rows: Seq<Seq<char>>, layout: Layout, port: u16)
    ensures
        first_match(rows, layout, port) == Err::<u32, LookupFailure>(
            LookupFailure::NoProcessForPort { port },
        ) <==> forall|i: int|
            0 <= i < rows.len() ==> row_outcome(#[trigger] rows[i], layout, port) is None,
    decreases rows.len(),
{
    if rows.len() > 0 {
        let rest = rows.skip(1);
        lemma_unused_port(rest, layout, port);
        if row_outcome(rows[0], layout, port) is None {
            if forall|i: int|
                0 <= i < rest.len() ==> row_outcome(#[trigger] rest[i], layout, port) is None {
                assert forall|i: int| 0 <= i < rows.len() implies row_outcome(
                    #[trigger] rows[i],
                    layout,
                    port,
                ) is None by {
                    if i > 0 {
                        assert(rows[i] == rest[i - 1]);
                    }
                }
            }
        }
    }
}

/// The first row that is about the port decides the lookup: where row `i`
/// is about `port` and no row before it is, the lookup gives what row `i`
/// says.
pub proof fn lemma_first_row_decides(rows: Seq<Seq<char>>, layout: Layout, port: u16, i: int)
    requires
        0 <= i < rows.len(),
        row_outcome(rows[i], layout, port) is Some,
        forall|j: int| 0 <= j < i ==> row_outcome(#[trigger] rows[j], layout, port) is None,
    ensures
        Some(first_match(rows, layout, port)) == row_outcome(rows[i], layout, port),
    decreases i,
{
    if i > 0 {
        lemma_first_row_decides(rows.skip(1), layout, port, i - 1);
    }
}

/// On a platform with a known command that ran with success, a port that
/// no row of its output is about is reported as unused. This holds for
/// every port, 0 and 65535 among them.
pub proof fn lemma_lookup_of_unused_port(p: u16, platform: Platform, stdout: Vec<u8>)
    requires
        layout_for(platform) is Some,
        forall|i: int|
            0 <= i < lines(decoded_text(stdout@)).len() ==> row_outcome(
                #[trigger] lines(decoded_text(stdout@))[i],
                layout_for(platform).unwrap(),
                p,
            ) is None,
    ensures
        lookup(p, platform, CommandOutcome::Exited { code: Some(0i32), stdout }) == Err::<
            u32,
            LookupFailure,
        >(LookupFailure::NoProcessForPort { port: p }),
{
    lemma_unused_port(
        lines(decoded_text(stdout@)),
        layout_for(platform).unwrap(),
        p,
    );
}

/// The rows that are about `port`, in their order.
pub open spec fn rows_about(rows: Seq<Seq<char>>, layout: Layout, port: u16) -> Seq<Seq<char>>
    decreases rows.len(),
{
    if rows.len() == 0 {
        Seq::empty()
    } else if row_outcome(rows[0], layout, port) is Some {
        seq![rows[0]] + rows_about(rows.skip(1), layout, port)
    } else {
        rows_about(rows.skip(1), layout, port)
    }
}

/// Rows that are not about the port do not count: the lookup among all
/// rows gives what the lookup among the rows about the port gives.
pub proof fn lemma_other_rows_do_not_count(rows: Seq<Seq<char>>, layout: Layout, port: u16)
    ensures
        first_match(rows_about(rows, layout, port), layout, port) == first_match(
            rows,
            layout,
            port,
        ),
    decreases rows.len(),
{
    if rows.len() > 0 {
        lemma_other_rows_do_not_count(rows.skip(1), layout, port);
    }
}

/// Two lookups for a port whose rows did not change in between give the
/// same result, whatever else changed in the table.
pub proof fn lemma_unchanged_port_same_result(
    before: Seq<Seq<char>>,
    after: Seq<Seq<char>>,
    layout: Layout,
    port: u16,
)
    requires
        rows_about(before, layout, port) == rows_about(after, layout, port),
    ensures
        first_match(before, layout, port) == first_match(after, layout, port),
{
    lemma_other_rows_do_not_count(before, layout, port);
    lemma_other_rows_do_not_count(after, layout, port);
}

/// Two runs of the command ended alike: neither started, or both ended
/// with the same exit code and printed the same bytes.
pub open spec fn same_run(first: CommandOutcome, second: CommandOutcome) -> bool {
    match (first, second) {
        (CommandOutcome::SpawnFailed, CommandOutcome::SpawnFailed) => true,
        (
            CommandOutcome::Exited { code: code_a, stdout: stdout_a },
            CommandOutcome::Exited { code: code_b, stdout: stdout_b },
        ) => code_a == code_b && stdout_a@ == stdout_b@,
        _ => false,
    }
}

/// The lookup keeps no state: two lookups for the same port on the same
/// platform, on runs of the command that ended alike, give the same
/// result.
pub proof fn lemma_lookup_is_repeatable(
    p: u16,
    platform: Platform,
    first: CommandOutcome,
    second: CommandOutcome,
)
    requires
        same_run(first, second),
    ensures
        lookup(p, platform, first) == lookup(p, platform, second),
{
}

} // verus!
