//! Text as a sequence of characters: its lines and the tokens of a line.

use crate::chars::{is_whitespace, whitespace};
use vstd::prelude::*;

verus! {

/// The number of characters before the first line feed of `text`, or the
/// length of `text` if it holds none.
pub open spec fn first_line_len(text: Seq<char>) -> nat
    decreases text.len(),
{
    if text.len() == 0 || text[0] == '\n' {
        0
    } else {
        1 + first_line_len(text.skip(1))
    }
}

/// A line as it stood before a line feed: a carriage return at its end
/// belongs to the line ending.
pub open spec fn without_carriage_return(line: Seq<char>) -> Seq<char> {
    if line.len() > 0 && line.last() == '\r' {
        line.drop_last()
    } else {
        line
    }
}

/// The lines of `text`. A line ends at a line feed, or at a carriage return
/// directly followed by one; neither is part of the line. The last line
/// needs no line ending, and a text that ends with one has no empty line
/// after it.
pub open spec fn lines(text: Seq<char>) -> Seq<Seq<char>>
    decreases text.len(),
{
    let n = first_line_len(text) as int;
    if text.len() == 0 {
        Seq::empty()
    } else if n >= text.len() {
        seq![text]
    } else {
        seq![without_carriage_return(text.take(n))] + lines(text.skip(n + 1))
    }
}

/// The number of characters before the first whitespace character of `s`,
/// or the length of `s` if it holds none.
pub open spec fn token_len(s: Seq<char>) -> nat
    decreases s.len(),
{
    if s.len() == 0 || whitespace(s[0]) {
        0
    } else {
        1 + token_len(s.skip(1))
    }
}

/// The tokens of `line`: its maximal runs of characters that are not
/// whitespace, from left to right.
pub open spec fn tokens(line: Seq<char>) -> Seq<Seq<char>>
    decreases line.len(),
{
    if line.len() == 0 {
        Seq::empty()
    } else if whitespace(line[0]) {
        tokens(line.skip(1))
    } else {
        let n = token_len(line) as int;
        proof {
            lemma_token_len_bounds(line);
        }
        seq![line.take(n)] + tokens(line.skip(n))
    }
}

/// A token is never longer than the text it starts, and is not empty where
/// that text starts with a character that is not whitespace.
pub proof fn lemma_token_len_bounds(s: Seq<char>)
    ensures
        token_len(s) <= s.len(),
        s.len() > 0 && !whitespace(s[0]) ==> token_len(s) >= 1,
    decreases s.len(),
{
    if s.len() > 0 && !whitespace(s[0]) {
        lemma_token_len_bounds(s.skip(1));
    }
}

/// `first_line_len` is the position of the first line feed.
pub proof fn lemma_first_line_len(text: Seq<char>, n: int)
    requires
        0 <= n <= text.len(),
        forall|j: int| 0 <= j < n ==> text[j] != '\n',
        n < text.len() ==> text[n] == '\n',
    ensures
        first_line_len(text) == n,
    decreases n,
{
    if n > 0 {
        lemma_first_line_len(text.skip(1), n - 1);
    }
}

/// `token_len` is the position of the first whitespace character.
pub proof fn lemma_token_len(s: Seq<char>, n: int)
    requires
        0 <= n <= s.len(),
        forall|j: int| 0 <= j < n ==> !whitespace(s[j]),
        n < s.len() ==> whitespace(s[n]),
    ensures
        token_len(s) == n,
    decreases n,
{
    if n > 0 {
        lemma_token_len(s.skip(1), n - 1);
    }
}

/// Whitespace in front of a line holds no token.
pub proof fn lemma_tokens_after_whitespace(s: Seq<char>, k: int)
    requires
        0 <= k <= s.len(),
        forall|j: int| 0 <= j < k ==> whitespace(s[j]),
    ensures
        tokens(s.skip(k)) == tokens(s),
    decreases k,
{
    if k == 0 {
        assert(s.skip(0) =~= s);
    } else {
        let rest = s.skip(1);
        lemma_tokens_after_whitespace(rest, k - 1);
        assert(rest.skip(k - 1) =~= s.skip(k));
    }
}

/// The characters of a string, in order.
pub fn chars_of(s: &str) -> (v: Vec<char>)
    ensures
        v@ == s@,
{
    let mut v: Vec<char> = Vec::new();
    for c in it: s.chars()
        invariant
            v@ == it.seq().take(it.index() as int),
            it.seq() == s@,
    {
        v.push(c);
    }
    v
}

/// The end of the line that starts at `start`: the position of the next
/// line feed, or the end of the text.
pub(crate) fn line_end(text: &[char], start: usize) -> (end: usize)
    requires
        start <= text@.len(),
    ensures
        start <= end <= text@.len(),
        end - start == first_line_len(text@.skip(start as int)),
{
    let n: usize = text.len();
    let mut end: usize = start;
    while end < n && text[end] != '\n'
        invariant
            n == text@.len(),
            start <= end <= n,
            forall|j: int| start <= j < end ==> text@[j] != '\n',
        decreases n - end,
    {
        end = end + 1;
    }
    proof {
        lemma_first_line_len(text@.skip(start as int), end - start);
    }
    end
}

/// The first position at or after `from` that holds no whitespace, or the
/// end of the line.
pub(crate) fn skip_whitespace(line: &[char], from: usize) -> (to: usize)
    requires
        from <= line@.len(),
    ensures
        from <= to <= line@.len(),
        forall|j: int| from <= j < to ==> whitespace(line@[j]),
        to < line@.len() ==> !whitespace(line@[to as int]),
{
    let n: usize = line.len();
    let mut to: usize = from;
    while to < n && is_whitespace(line[to])
        invariant
            n == line@.len(),
            from <= to <= n,
            forall|j: int| from <= j < to ==> whitespace(line@[j]),
        decreases n - to,
    {
        to = to + 1;
    }
    to
}

/// The first position at or after `from` that holds whitespace, or the end
/// of the line.
pub(crate) fn skip_token(line: &[char], from: usize) -> (to: usize)
    requires
        from <= line@.len(),
    ensures
        from <= to <= line@.len(),
        forall|j: int| from <= j < to ==> !whitespace(line@[j]),
        to < line@.len() ==> whitespace(line@[to as int]),
{
    let n: usize = line.len();
    let mut to: usize = from;
    while to < n && !is_whitespace(line[to])
        invariant
            n == line@.len(),
            from <= to <= n,
            forall|j: int| from <= j < to ==> !whitespace(line@[j]),
        decreases n - to,
    {
        to = to + 1;
    }
    to
}

/// Finds the token with index `n`, counted from zero, among the tokens of
/// the part of `line` that starts at `from`. Returns the positions of the
/// token's first character and of the character after its last, or `None`
/// where that part has no such token or `from` lies beyond the line.
pub fn nth_token(line: &[char], from: usize, n: usize) -> (r: Option<(usize, usize)>)
    ensures
        from > line@.len() ==> r is None,
        from <= line@.len() ==> match r {
            Some((start, end)) => {
                &&& from <= start < end <= line@.len()
                &&& n < tokens(line@.skip(from as int)).len()
                &&& tokens(line@.skip(from as int))[n as int] == line@.subrange(
                    start as int,
                    end as int,
                )
                &&& tokens(line@.skip(end as int)) == tokens(line@.skip(from as int)).skip(n + 1)
            },
            None => tokens(line@.skip(from as int)).len() <= n,
        },
{
    if from > line.len() {
        return None;
    }
    let ghost all = tokens(line@.skip(from as int));
    let mut pos: usize = from;
    let mut k: usize = 0;
    loop
        invariant
            from <= pos <= line@.len(),
            k <= n,
            k <= all.len(),
            all == tokens(line@.skip(from as int)),
            tokens(line@.skip(pos as int)) == all.skip(k as int),
        decreases n - k,
    {
        let start: usize = skip_whitespace(line, pos);
        proof {
            let s = line@.skip(pos as int);
            lemma_tokens_after_whitespace(s, start - pos);
            assert(s.skip(start - pos) =~= line@.skip(start as int));
        }
        if start >= line.len() {
            return None;
        }
        let end: usize = skip_token(line, start);
        proof {
            let s = line@.skip(start as int);
            lemma_token_len(s, end - start);
            assert(s.take(end - start) =~= line@.subrange(start as int, end as int));
            assert(s.skip(end - start) =~= line@.skip(end as int));
            let here = tokens(s);
            assert(here == seq![line@.subrange(start as int, end as int)] + tokens(
                line@.skip(end as int),
            ));
            assert(all.skip(k as int).skip(1) =~= all.skip(k + 1));
            assert(all.skip(k as int)[0] == all[k as int]);
        }
        if k == n {
            return Some((start, end));
        }
        k = k + 1;
        pos = end;
    }
}

} // verus!
