//! Text as a level file holds it: lines, fields between blanks, and decimal
//! numbers.

use vstd::prelude::*;

verus! {

/// `String::push` of the standard library: the string afterwards is the
/// string before with `ch` behind its last character.
pub assume_specification[ String::push ](s: &mut String, ch: char)
    ensures
        final(s)@ == old(s)@.push(ch),
;

/// Whether `c` is white space: the blank, the controls from tab to carriage
/// return, and the spaces and separators of Unicode.
pub open spec fn is_space(c: char) -> bool {
    ||| c == ' '
    ||| '\u{9}' <= c <= '\u{d}'
    ||| c == '\u{85}'
    ||| c == '\u{a0}'
    ||| c == '\u{1680}'
    ||| '\u{2000}' <= c <= '\u{200a}'
    ||| c == '\u{2028}'
    ||| c == '\u{2029}'
    ||| c == '\u{202f}'
    ||| c == '\u{205f}'
    ||| c == '\u{3000}'
}

/// `s` without the white space at its start.
pub open spec fn trim_start(s: Seq<char>) -> Seq<char>
    decreases s.len(),
{
    if s.len() > 0 && is_space(s[0]) {
        trim_start(s.drop_first())
    } else {
        s
    }
}

/// `s` without the white space at its end.
pub open spec fn trim_end(s: Seq<char>) -> Seq<char>
    decreases s.len(),
{
    if s.len() > 0 && is_space(s.last()) {
        trim_end(s.drop_last())
    } else {
        s
    }
}

/// `s` without the white space at either end.
pub open spec fn trimmed(s: Seq<char>) -> Seq<char> {
    trim_end(trim_start(s))
}

/// The pieces into which the blanks of `s` cut it. Every blank ends a piece,
/// so `s` has one piece more than blanks, and pieces may be empty.
pub open spec fn fields(s: Seq<char>) -> Seq<Seq<char>>
    decreases s.len(),
{
    if s.len() == 0 {
        seq![Seq::empty()]
    } else {
        let before = fields(s.drop_last());
        if s.last() == ' ' {
            before.push(Seq::empty())
        } else {
            before.drop_last().push(before.last().push(s.last()))
        }
    }
}

/// A line without the carriage return that may end it.
pub open spec fn without_cr(line: Seq<char>) -> Seq<char> {
    if line.len() > 0 && line.last() == '\r' {
        line.drop_last()
    } else {
        line
    }
}

/// The lines of `s` that a line feed has ended, and what follows the last
/// line feed. A carriage return before the line feed belongs to the line
/// ending.
pub open spec fn cut(s: Seq<char>) -> (Seq<Seq<char>>, Seq<char>)
    decreases s.len(),
{
    if s.len() == 0 {
        (Seq::empty(), Seq::empty())
    } else {
        let (ended, open) = cut(s.drop_last());
        if s.last() == '\n' {
            (ended.push(without_cr(open)), Seq::empty())
        } else {
            (ended, open.push(s.last()))
        }
    }
}

/// The lines of `s`. The last line needs no line feed; text after the last
/// line feed is a line only if there is any.
pub open spec fn lines(s: Seq<char>) -> Seq<Seq<char>> {
    let (ended, open) = cut(s);
    if open.len() > 0 {
        ended.push(open)
    } else {
        ended
    }
}

/// Whether `c` is a decimal digit.
pub open spec fn is_digit(c: char) -> bool {
    '0' <= c <= '9'
}

/// What the decimal digit `c` counts.
pub open spec fn digit_value(c: char) -> nat {
    if is_digit(c) {
        (c as int - '0' as int) as nat
    } else {
        0
    }
}

/// The number that the decimal digits `s` write.
pub open spec fn value(s: Seq<char>) -> nat
    decreases s.len(),
{
    if s.len() == 0 {
        0
    } else {
        value(s.drop_last()) * 10 + digit_value(s.last())
    }
}

/// The number that the digits `s` write: there is at least one, all are
/// decimal digits, and the value fits in `usize`. Anything else is no number.
pub open spec fn unsigned(s: Seq<char>) -> Option<usize> {
    if s.len() > 0 && (forall|i: int| 0 <= i < s.len() ==> is_digit(#[trigger] s[i])) && value(s)
        <= usize::MAX {
        Some(value(s) as usize)
    } else {
        None
    }
}

/// The number that `s` writes: decimal digits, with one plus sign before them
/// or without.
pub open spec fn number(s: Seq<char>) -> Option<usize> {
    if s.len() > 0 && s[0] == '+' {
        unsigned(s.drop_first())
    } else {
        unsigned(s)
    }
}

/// The characters of `v`, each piece as a sequence.
pub open spec fn texts(v: Seq<Vec<char>>) -> Seq<Seq<char>> {
    Seq::new(v.len(), |i: int| v[i]@)
}

/// The characters of `text`.
pub fn chars_of(text: &str) -> (v: Vec<char>)
    ensures
        v@ == text@,
{
    let mut v: Vec<char> = Vec::new();
    for c in it: text.chars()
        invariant
            it.seq() == text@,
            v@ == it.seq().take(it.index() as int),
    {
        v.push(c);
    }
    v
}

/// The string made of the characters `v`.
pub fn string_of(v: &Vec<char>) -> (s: String)
    ensures
        s@ == v@,
{
    let mut s = String::new();
    let mut i: usize = 0;
    while i < v.len()
        invariant
            i <= v.len(),
            s@ == v@.take(i as int),
        decreases v.len() - i,
    {
        s.push(v[i]);
        i += 1;
    }
    s
}

/// Whether `c` is white space.
pub fn is_whitespace(c: char) -> (b: bool)
    ensures
        b == is_space(c),
{
    c == ' ' || ('\u{9}' <= c && c <= '\u{d}') || c == '\u{85}' || c == '\u{a0}' || c
        == '\u{1680}' || ('\u{2000}' <= c && c <= '\u{200a}') || c == '\u{2028}' || c
        == '\u{2029}' || c == '\u{202f}' || c == '\u{205f}' || c == '\u{3000}'
}

/// The characters of `v` from `from` up to `to`.
fn slice_of(v: &Vec<char>, from: usize, to: usize) -> (out: Vec<char>)
    requires
        from <= to <= v.len(),
    ensures
        out@ == v@.subrange(from as int, to as int),
{
    let mut out: Vec<char> = Vec::new();
    let mut i: usize = from;
    while i < to
        invariant
            from <= i <= to <= v.len(),
            out@ == v@.subrange(from as int, i as int),
        decreases to - i,
    {
        out.push(v[i]);
        i += 1;
        assert(out@ =~= v@.subrange(from as int, i as int));
    }
    assert(out@ =~= v@.subrange(from as int, to as int));
    out
}

/// `line` without the white space at either end.
pub fn trim(line: &Vec<char>) -> (out: Vec<char>)
    ensures
        out@ == trimmed(line@),
{
    let n = line.len();
    let mut a: usize = 0;
    assert(line@.skip(0) =~= line@);
    while a < n && is_whitespace(line[a])
        invariant
            a <= n == line.len(),
            trim_start(line@) == trim_start(line@.skip(a as int)),
        decreases n - a,
    {
        assert(line@.skip(a as int).drop_first() =~= line@.skip(a + 1));
        a += 1;
    }
    let mut b: usize = n;
    while b > a && is_whitespace(line[b - 1])
        invariant
            a <= b <= n == line.len(),
            trim_end(line@.skip(a as int)) == trim_end(line@.subrange(a as int, b as int)),
        decreases b,
    {
        assert(line@.subrange(a as int, b as int).drop_last() =~= line@.subrange(
            a as int,
            b - 1,
        ));
        b -= 1;
    }
    assert(line@.skip(a as int) =~= line@.subrange(a as int, n as int));
    slice_of(line, a, b)
}

/// The pieces into which the blanks of `line` cut it.
pub fn split_fields(line: &Vec<char>) -> (out: Vec<Vec<char>>)
    ensures
        texts(out@) == fields(line@),
{
    let mut done: Vec<Vec<char>> = Vec::new();
    let mut open: Vec<char> = Vec::new();
    let mut i: usize = 0;
    while i < line.len()
        invariant
            i <= line.len(),
            texts(done@).push(open@) == fields(line@.take(i as int)),
        decreases line.len() - i,
    {
        let ghost before = fields(line@.take(i as int));
        assert(line@.take(i + 1).drop_last() =~= line@.take(i as int));
        if line[i] == ' ' {
            done.push(open);
            open = Vec::new();
            assert(texts(done@) =~= before);
        } else {
            open.push(line[i]);
            assert(texts(done@) =~= before.drop_last());
        }
        i += 1;
    }
    assert(line@.take(line.len() as int) =~= line@);
    let ghost pieces = texts(done@).push(open@);
    done.push(open);
    assert(texts(done@) =~= pieces);
    done
}

/// The lines of `text`.
pub fn split_lines(text: &Vec<char>) -> (out: Vec<Vec<char>>)
    ensures
        texts(out@) == lines(text@),
{
    let mut done: Vec<Vec<char>> = Vec::new();
    let mut open: Vec<char> = Vec::new();
    let mut i: usize = 0;
    while i < text.len()
        invariant
            i <= text.len(),
            (texts(done@), open@) == cut(text@.take(i as int)),
        decreases text.len() - i,
    {
        let ghost before = texts(done@);
        assert(text@.take(i + 1).drop_last() =~= text@.take(i as int));
        if text[i] == '\n' {
            let n = open.len();
            if n > 0 && open[n - 1] == '\r' {
                open.pop();
            }
            assert(open@ =~= without_cr(cut(text@.take(i as int)).1));
            let ghost ended = before.push(open@);
            done.push(open);
            open = Vec::new();
            assert(texts(done@) =~= ended);
        } else {
            open.push(text[i]);
        }
        i += 1;
    }
    assert(text@.take(text.len() as int) =~= text@);
    if open.len() > 0 {
        let ghost all = texts(done@).push(open@);
        done.push(open);
        assert(texts(done@) =~= all);
    }
    done
}

/// More digits never write a smaller number.
proof fn lemma_value_grows(s: Seq<char>, k: int)
    requires
        0 <= k <= s.len(),
    ensures
        value(s.take(k)) <= value(s),
    decreases s.len(),
{
    if k == s.len() {
        assert(s.take(k) =~= s);
    } else {
        lemma_value_grows(s.drop_last(), k);
        assert(s.drop_last().take(k) =~= s.take(k));
    }
}

/// The number that `s` writes, if it writes one.
pub fn parse_number(s: &Vec<char>) -> (r: Option<usize>)
    ensures
        r == number(s@),
{
    let n = s.len();
    let start: usize = if n > 0 && s[0] == '+' {
        1
    } else {
        0
    };
    let ghost digits = s@.skip(start as int);
    assert(number(s@) == unsigned(digits)) by {
        if start == 0 {
            assert(s@.skip(0) =~= s@);
        } else {
            assert(s@.skip(1) =~= s@.drop_first());
        }
    }
    let mut acc: usize = 0;
    let mut i: usize = start;
    while i < n
        invariant
            start <= i <= n == s.len(),
            digits == s@.skip(start as int),
            number(s@) == unsigned(digits),
            forall|j: int| 0 <= j < i - start ==> is_digit(#[trigger] digits[j]),
            acc == value(digits.take(i - start)),
        decreases n - i,
    {
        let c = s[i];
        assert(c == digits[i - start]);
        if !('0' <= c && c <= '9') {
            return None;
        }
        let d: usize = (c as u32 - '0' as u32) as usize;
        assert(digits.take(i - start + 1).drop_last() =~= digits.take(i - start));
        assert(value(digits.take(i - start + 1)) == acc * 10 + d);
        let grown = match acc.checked_mul(10) {
            Some(tens) => tens.checked_add(d),
            None => None,
        };
        match grown {
            Some(v) => {
                acc = v;
            },
            None => {
                proof {
                    lemma_value_grows(digits, i - start + 1);
                }
                return None;
            },
        }
        i += 1;
    }
    assert(digits.take(n - start) =~= digits);
    if start == n {
        None
    } else {
        Some(acc)
    }
}

} // verus!
