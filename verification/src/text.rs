//! Helpers on texts: characters in and out of strings, lines split and
//! joined.

use vstd::prelude::*;
use vstd::std_specs::iter::IteratorSpec;

verus! {

broadcast use vstd::string::group_string_axioms;

/// `String::push`: the character goes behind the text.
#[verifier::external_body]
pub(crate) fn push_char(text: &mut String, c: char)
    ensures
        final(text)@ == old(text)@.push(c),
{
    text.push(c)
}

/// The characters of a text, in order.
pub fn chars_of(text: &str) -> (chars: Vec<char>)
    ensures
        chars@ == text@,
{
    let mut chars: Vec<char> = Vec::new();
    let mut rest = text.chars();
    loop
        invariant
            rest.obeys_prophetic_iter_laws(),
            rest.decrease() is Some,
            chars@ + rest.remaining() == text@,
        decreases rest.decrease()->0,
    {
        let ghost before = rest;
        match rest.next() {
            None => {
                assert(chars@ =~= text@);
                return chars;
            },
            Some(c) => {
                chars.push(c);
                assert(chars@ + rest.remaining() =~= text@);
            },
        }
    }
}

/// The text made of the characters from `from` up to `to`.
pub fn string_of(chars: &Vec<char>, from: usize, to: usize) -> (text: String)
    requires
        from <= to <= chars@.len(),
    ensures
        text@ == chars@.subrange(from as int, to as int),
{
    let mut text = String::new();
    let mut i: usize = from;
    while i < to
        invariant
            from <= i <= to <= chars@.len(),
            text@ == chars@.subrange(from as int, i as int),
        decreases to - i,
    {
        push_char(&mut text, chars[i]);
        i = i + 1;
        assert(text@ =~= chars@.subrange(from as int, i as int));
    }
    text
}

/// The text with every carriage return that stands directly before a line
/// feed taken out.
pub open spec fn unix_line_ends(text: Seq<char>) -> Seq<char>
    decreases text.len(),
{
    if text.len() == 0 {
        Seq::<char>::empty()
    } else if text.len() >= 2 && text.last() == '\n' && text[text.len() - 2] == '\r' {
        unix_line_ends(text.take(text.len() - 2)).push('\n')
    } else {
        unix_line_ends(text.drop_last()).push(text.last())
    }
}

/// The pieces between the line feeds of a text: one more than it has line
/// feeds, so the empty text has one empty piece.
pub open spec fn split_at_line_feeds(text: Seq<char>) -> Seq<Seq<char>>
    decreases text.len(),
{
    if text.len() == 0 {
        seq![Seq::<char>::empty()]
    } else {
        let before = split_at_line_feeds(text.drop_last());
        if text.last() == '\n' {
            before.push(Seq::<char>::empty())
        } else {
            before.drop_last().push(before.last().push(text.last()))
        }
    }
}

/// The lines of a text, which end in a line feed or in a carriage return
/// and a line feed.
pub open spec fn lines_of(text: Seq<char>) -> Seq<Seq<char>> {
    split_at_line_feeds(unix_line_ends(text))
}

/// The texts of a list of strings.
pub open spec fn texts(lines: Seq<String>) -> Seq<Seq<char>> {
    Seq::new(lines.len(), |i: int| lines[i]@)
}

/// A text always has at least one line.
pub proof fn lemma_split_is_not_empty(text: Seq<char>)
    ensures
        split_at_line_feeds(text).len() >= 1,
        split_at_line_feeds(text).len() <= text.len() + 1,
    decreases text.len(),
{
    if text.len() > 0 {
        lemma_split_is_not_empty(text.drop_last());
    }
}

/// Taking carriage returns out makes a text no longer.
pub proof fn lemma_unix_line_ends_len(text: Seq<char>)
    ensures
        unix_line_ends(text).len() <= text.len(),
    decreases text.len(),
{
    if text.len() == 0 {
    } else if text.len() >= 2 && text.last() == '\n' && text[text.len() - 2] == '\r' {
        lemma_unix_line_ends_len(text.take(text.len() - 2));
    } else {
        lemma_unix_line_ends_len(text.drop_last());
    }
}

/// The text with its line ends made line feeds only.
pub fn normalize_line_ends(chars: &Vec<char>) -> (out: Vec<char>)
    ensures
        out@ == unix_line_ends(chars@),
{
    let mut out: Vec<char> = Vec::new();
    let mut i: usize = 0;
    while i < chars.len()
        invariant
            i <= chars.len(),
            out@ == unix_line_ends(chars@.take(i as int)),
            i > 0 && chars@[i - 1] == '\r' ==> out@.len() > 0 && out@.last() == '\r'
                && out@.drop_last() == unix_line_ends(chars@.take(i - 1)),
        decreases chars.len() - i,
    {
        let c = chars[i];
        let ghost next = chars@.take(i + 1);
        proof {
            assert(next.drop_last() =~= chars@.take(i as int));
            if i > 0 {
                assert(next.take(next.len() - 2) =~= chars@.take(i - 1));
            }
        }
        if c == '\n' && i > 0 && chars[i - 1] == '\r' {
            out.pop();
            out.push('\n');
        } else {
            out.push(c);
        }
        i = i + 1;
        proof {
            assert(out@ =~= unix_line_ends(next));
            if c == '\r' {
                assert(out@.drop_last() =~= unix_line_ends(chars@.take(i - 1)));
            }
        }
    }
    assert(chars@.take(i as int) =~= chars@);
    out
}

/// The lines of a text: it is cut at every line feed, and a carriage return
/// directly before a line feed goes with it.
pub fn split_lines(text: &str) -> (lines: Vec<String>)
    ensures
        texts(lines@) == lines_of(text@),
        lines@.len() >= 1,
{
    let raw = chars_of(text);
    let chars = normalize_line_ends(&raw);
    let mut lines: Vec<String> = Vec::new();
    let mut current = String::new();
    let mut i: usize = 0;
    while i < chars.len()
        invariant
            i <= chars.len(),
            texts(lines@).push(current@) == split_at_line_feeds(chars@.take(i as int)),
        decreases chars.len() - i,
    {
        let c = chars[i];
        let ghost before = split_at_line_feeds(chars@.take(i as int));
        proof {
            assert(chars@.take(i + 1).drop_last() =~= chars@.take(i as int));
            assert(before.drop_last() =~= texts(lines@));
        }
        if c == '\n' {
            let ghost done = lines@;
            lines.push(current);
            current = String::new();
            assert(texts(lines@) =~= texts(done).push(before.last()));
        } else {
            push_char(&mut current, c);
        }
        i = i + 1;
        assert(texts(lines@).push(current@) =~= split_at_line_feeds(chars@.take(i as int)));
    }
    let ghost done = lines@;
    lines.push(current);
    proof {
        assert(chars@.take(i as int) =~= chars@);
        assert(texts(lines@) =~= texts(done).push(current@));
    }
    lines
}

/// The lines with a line feed between each two.
pub open spec fn joined(lines: Seq<Seq<char>>) -> Seq<char>
    decreases lines.len(),
{
    if lines.len() == 0 {
        Seq::<char>::empty()
    } else if lines.len() == 1 {
        lines[0]
    } else {
        joined(lines.drop_last()).push('\n') + lines.last()
    }
}

/// `count` line feeds.
pub open spec fn line_feed_run(count: nat) -> Seq<char> {
    Seq::new(count, |i: int| '\n')
}

/// The lines with a line feed between each two, as one text.
pub fn join_lines(lines: &Vec<String>) -> (text: String)
    ensures
        text@ == joined(texts(lines@)),
{
    let mut text = String::new();
    let mut i: usize = 0;
    while i < lines.len()
        invariant
            i <= lines.len(),
            text@ == joined(texts(lines@).take(i as int)),
        decreases lines.len() - i,
    {
        proof {
            assert(texts(lines@).take(i + 1).drop_last() =~= texts(lines@).take(i as int));
        }
        if i > 0 {
            push_char(&mut text, '\n');
        }
        text.append(lines[i].as_str());
        i = i + 1;
    }
    assert(texts(lines@).take(i as int) =~= texts(lines@));
    text
}

/// Puts `count` line feeds behind the text.
pub fn pad_line_feeds(text: &mut String, count: usize)
    ensures
        final(text)@ == old(text)@ + line_feed_run(count as nat),
{
    let mut i: usize = 0;
    while i < count
        invariant
            i <= count,
            text@ == old(text)@ + line_feed_run(i as nat),
        decreases count - i,
    {
        push_char(text, '\n');
        i = i + 1;
        assert(text@ =~= old(text)@ + line_feed_run(i as nat));
    }
}

/// A copy of the lines from `top` up to `bottom`.
pub fn copy_lines(lines: &Vec<String>, top: usize, bottom: usize) -> (copy: Vec<String>)
    requires
        top <= bottom <= lines@.len(),
    ensures
        copy@ == lines@.subrange(top as int, bottom as int),
{
    let mut copy: Vec<String> = Vec::new();
    let mut i: usize = top;
    while i < bottom
        invariant
            top <= i <= bottom <= lines@.len(),
            copy@ == lines@.subrange(top as int, i as int),
        decreases bottom - i,
    {
        copy.push(lines[i].clone());
        i = i + 1;
        assert(copy@ =~= lines@.subrange(top as int, i as int));
    }
    copy
}

/// A copy of a list of lines.
pub fn clone_lines(lines: &Vec<String>) -> (copy: Vec<String>)
    ensures
        copy@ == lines@,
{
    let copy = copy_lines(lines, 0, lines.len());
    assert(lines@.subrange(0, lines@.len() as int) =~= lines@);
    copy
}

/// The character of a decimal digit.
pub open spec fn digit_char(d: int) -> char {
    if d == 0 {
        '0'
    } else if d == 1 {
        '1'
    } else if d == 2 {
        '2'
    } else if d == 3 {
        '3'
    } else if d == 4 {
        '4'
    } else if d == 5 {
        '5'
    } else if d == 6 {
        '6'
    } else if d == 7 {
        '7'
    } else if d == 8 {
        '8'
    } else {
        '9'
    }
}

/// A natural number written in decimal, without leading zeros.
pub open spec fn decimal_digits(n: nat) -> Seq<char>
    decreases n,
{
    if n < 10 {
        seq![digit_char(n as int)]
    } else {
        decimal_digits(n / 10).push(digit_char((n % 10) as int))
    }
}

/// A whole number written in decimal, with a minus sign where it is
/// negative.
pub open spec fn decimal(n: int) -> Seq<char> {
    if n < 0 {
        seq!['-'] + decimal_digits((-n) as nat)
    } else {
        decimal_digits(n as nat)
    }
}

fn digit(d: u64) -> (c: char)
    requires
        d < 10,
    ensures
        c == digit_char(d as int),
{
    if d == 0 {
        '0'
    } else if d == 1 {
        '1'
    } else if d == 2 {
        '2'
    } else if d == 3 {
        '3'
    } else if d == 4 {
        '4'
    } else if d == 5 {
        '5'
    } else if d == 6 {
        '6'
    } else if d == 7 {
        '7'
    } else if d == 8 {
        '8'
    } else {
        '9'
    }
}

/// Puts the decimal digits of `n` behind the text.
pub fn push_digits(text: &mut String, n: u64)
    ensures
        final(text)@ == old(text)@ + decimal_digits(n as nat),
    decreases n,
{
    if n >= 10 {
        push_digits(text, n / 10);
    }
    push_char(text, digit(n % 10));
    assert(text@ =~= old(text)@ + decimal_digits(n as nat));
}

/// Puts `n`, written in decimal, behind the text.
pub fn push_decimal(text: &mut String, n: i32)
    ensures
        final(text)@ == old(text)@ + decimal(n as int),
{
    if n < 0 {
        push_char(text, '-');
        let magnitude: u64 = (-(n as i64)) as u64;
        push_digits(text, magnitude);
        assert(text@ =~= old(text)@ + decimal(n as int));
    } else {
        push_digits(text, n as u64);
    }
}

} // verus!
