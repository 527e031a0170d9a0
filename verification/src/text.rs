//! Small verified helpers on text, stated over sequences of characters.

use vstd::prelude::*;
use vstd::string::*;
use vstd::utf8::*;

verus! {

/// The index of the first `c` in `s`, or the length of `s` where it holds none.
pub open spec fn position(s: Seq<char>, c: char) -> int
    decreases s.len(),
{
    if s.len() == 0 || s[0] == c {
        0
    } else {
        1 + position(s.skip(1), c)
    }
}

/// `position` is in range, stands on a `c` unless it is the length, and no
/// `c` comes before it.
pub proof fn lemma_position(s: Seq<char>, c: char)
    ensures
        0 <= position(s, c) <= s.len(),
        position(s, c) < s.len() ==> s[position(s, c)] == c,
        forall|k: int| 0 <= k < position(s, c) ==> s[k] != c,
    decreases s.len(),
{
    if s.len() == 0 || s[0] == c {
    } else {
        lemma_position(s.skip(1), c);
        assert forall|k: int| 0 <= k < position(s, c) implies s[k] != c by {
            if k > 0 {
                assert(s.skip(1)[k - 1] == s[k]);
            }
        }
    }
}

/// Only one index has the properties of `position`.
pub proof fn lemma_position_unique(s: Seq<char>, c: char, i: int)
    requires
        0 <= i <= s.len(),
        i < s.len() ==> s[i] == c,
        forall|k: int| 0 <= k < i ==> s[k] != c,
    ensures
        position(s, c) == i,
{
    lemma_position(s, c);
}

/// The part of `s` before its first `c`; all of `s` where it holds none.
pub open spec fn prefix_before(s: Seq<char>, c: char) -> Seq<char> {
    s.take(position(s, c))
}

/// How many characters follow the last `c` of `s`; the length of `s` where
/// it holds none.
pub open spec fn tail_len(s: Seq<char>, c: char) -> int
    decreases s.len(),
{
    if s.len() == 0 || s.last() == c {
        0
    } else {
        1 + tail_len(s.drop_last(), c)
    }
}

/// `tail_len` is in range, no `c` stands in the tail, and a `c` stands just
/// before it unless the tail is all of `s`.
pub proof fn lemma_tail_len(s: Seq<char>, c: char)
    ensures
        0 <= tail_len(s, c) <= s.len(),
        tail_len(s, c) < s.len() ==> s[s.len() - tail_len(s, c) - 1] == c,
        forall|k: int| s.len() - tail_len(s, c) <= k < s.len() ==> s[k] != c,
    decreases s.len(),
{
    if s.len() == 0 || s.last() == c {
    } else {
        lemma_tail_len(s.drop_last(), c);
        assert forall|k: int| s.len() - tail_len(s, c) <= k < s.len() implies s[k] != c by {
            if k < s.len() - 1 {
                assert(s.drop_last()[k] == s[k]);
            }
        }
    }
}

/// Only one length has the properties of `tail_len`.
pub proof fn lemma_tail_len_unique(s: Seq<char>, c: char, n: int)
    requires
        0 <= n <= s.len(),
        n < s.len() ==> s[s.len() - n - 1] == c,
        forall|k: int| s.len() - n <= k < s.len() ==> s[k] != c,
    ensures
        tail_len(s, c) == n,
{
    lemma_tail_len(s, c);
}

/// The part of `s` after its last `c`; all of `s` where it holds none.
pub open spec fn suffix_after(s: Seq<char>, c: char) -> Seq<char> {
    s.skip(s.len() - tail_len(s, c))
}

/// Whether `s` ends with `suffix`.
pub open spec fn has_suffix(s: Seq<char>, suffix: Seq<char>) -> bool {
    suffix.len() <= s.len() && s.skip(s.len() - suffix.len()) == suffix
}

/// Whether `c` is white space: one of the 25 characters that carry the
/// Unicode property `White_Space`.
pub open spec fn is_white_space(c: char) -> bool {
    let u = c as u32;
    ||| 0x09 <= u <= 0x0d
    ||| u == 0x20
    ||| u == 0x85
    ||| u == 0xa0
    ||| u == 0x1680
    ||| 0x2000 <= u <= 0x200a
    ||| u == 0x2028
    ||| u == 0x2029
    ||| u == 0x202f
    ||| u == 0x205f
    ||| u == 0x3000
}

/// How many white-space characters `s` begins with.
pub open spec fn blank_prefix(s: Seq<char>) -> int
    decreases s.len(),
{
    if s.len() > 0 && is_white_space(s[0]) {
        1 + blank_prefix(s.skip(1))
    } else {
        0
    }
}

/// How many white-space characters `s` ends with.
pub open spec fn blank_suffix(s: Seq<char>) -> int
    decreases s.len(),
{
    if s.len() > 0 && is_white_space(s.last()) {
        1 + blank_suffix(s.drop_last())
    } else {
        0
    }
}

/// `s` without the white space it begins and ends with.
pub open spec fn trimmed(s: Seq<char>) -> Seq<char> {
    let rest = s.skip(blank_prefix(s));
    rest.take(rest.len() - blank_suffix(rest))
}

proof fn lemma_blank_prefix(s: Seq<char>, i: int)
    requires
        0 <= i <= s.len(),
        forall|k: int| 0 <= k < i ==> is_white_space(s[k]),
        i < s.len() ==> !is_white_space(s[i]),
    ensures
        blank_prefix(s) == i,
    decreases i,
{
    if i > 0 {
        let t = s.skip(1);
        assert forall|k: int| 0 <= k < i - 1 implies is_white_space(t[k]) by {
            assert(t[k] == s[k + 1]);
        }
        lemma_blank_prefix(t, i - 1);
    }
}

proof fn lemma_blank_suffix(s: Seq<char>, n: int)
    requires
        0 <= n <= s.len(),
        forall|k: int| s.len() - n <= k < s.len() ==> is_white_space(s[k]),
        n < s.len() ==> !is_white_space(s[s.len() - n - 1]),
    ensures
        blank_suffix(s) == n,
    decreases n,
{
    if n > 0 {
        let t = s.drop_last();
        assert forall|k: int| t.len() - (n - 1) <= k < t.len() implies is_white_space(t[k]) by {
            assert(t[k] == s[k]);
        }
        lemma_blank_suffix(t, n - 1);
    }
}

/// `line` without the carriage return it ends with, if it ends with one.
pub open spec fn without_cr(line: Seq<char>) -> Seq<char> {
    if line.len() > 0 && line.last() == '\r' {
        line.drop_last()
    } else {
        line
    }
}

/// The lines of `s` that are not empty, in order.
///
/// A line ends at a line feed; a carriage return just before the line feed
/// belongs to the line ending.  What follows the last line feed is a line
/// too, and keeps a carriage return at its end.
pub open spec fn nonempty_lines(s: Seq<char>) -> Seq<Seq<char>>
    decreases s.len(),
    via nonempty_lines_decreases
{
    if s.len() == 0 {
        Seq::empty()
    } else {
        let end = position(s, '\n');
        if end < s.len() {
            let line = without_cr(s.take(end));
            let rest = nonempty_lines(s.skip(end + 1));
            if line.len() > 0 {
                seq![line] + rest
            } else {
                rest
            }
        } else {
            seq![s]
        }
    }
}

#[via_fn]
proof fn nonempty_lines_decreases(s: Seq<char>) {
    lemma_position(s, '\n');
}

/// The text that `bytes` spell in UTF-8, if they spell one.
pub open spec fn utf8_text(bytes: Seq<u8>) -> Option<Seq<char>> {
    if valid_utf8(bytes) {
        Some(decode_utf8(bytes))
    } else {
        None
    }
}

/// Whether two texts hold the same characters.
pub fn same_text(a: &str, b: &str) -> (same: bool)
    ensures
        same == (a@ == b@),
{
    let x = String::from_str(a);
    let y = String::from_str(b);
    x == y
}

/// `a` followed by `b`.
pub fn join2(a: &str, b: &str) -> (text: String)
    ensures
        text@ == a@ + b@,
{
    let mut text = String::from_str(a);
    text.append(b);
    text
}

/// `a` followed by `b` and `c`.
pub fn join3(a: &str, b: &str, c: &str) -> (text: String)
    ensures
        text@ == a@ + b@ + c@,
{
    let mut text = String::from_str(a);
    text.append(b);
    text.append(c);
    text
}

/// `a` followed by `b`, `c` and `d`.
pub fn join4(a: &str, b: &str, c: &str, d: &str) -> (text: String)
    ensures
        text@ == a@ + b@ + c@ + d@,
{
    let mut text = String::from_str(a);
    text.append(b);
    text.append(c);
    text.append(d);
    text
}

/// The index of the first `c` at or after `from`, or the length of `s`.
pub fn find_from(s: &str, c: char, from: usize) -> (at: usize)
    requires
        from <= s@.len(),
    ensures
        at == from + position(s@.skip(from as int), c),
        from <= at <= s@.len(),
{
    let n = s.unicode_len();
    let mut i: usize = from;
    while i < n && s.get_char(i) != c
        invariant
            n == s@.len(),
            from <= i <= n,
            forall|k: int| from <= k < i ==> s@[k] != c,
        decreases n - i,
    {
        i += 1;
    }
    proof {
        lemma_position_unique(s@.skip(from as int), c, i - from);
    }
    i
}

/// The index of the first `c` in `s`, or the length of `s`.
pub fn find(s: &str, c: char) -> (at: usize)
    ensures
        at == position(s@, c),
{
    assert(s@.skip(0) =~= s@);
    find_from(s, c, 0)
}

/// The part of `s` before its first `c`.
pub fn take_before(s: &str, c: char) -> (head: String)
    ensures
        head@ == prefix_before(s@, c),
{
    let at = find(s, c);
    proof {
        lemma_position(s@, c);
    }
    String::from_str(s.substring_char(0, at))
}

/// The part of `s` after its last `c`.
pub fn take_after_last(s: &str, c: char) -> (tail: String)
    ensures
        tail@ == suffix_after(s@, c),
{
    let n = s.unicode_len();
    let mut i: usize = n;
    while i > 0 && s.get_char(i - 1) != c
        invariant
            n == s@.len(),
            i <= n,
            forall|k: int| i <= k < n ==> s@[k] != c,
        decreases i,
    {
        i -= 1;
    }
    proof {
        lemma_tail_len_unique(s@, c, n - i);
    }
    String::from_str(s.substring_char(i, n))
}

/// Whether `s` ends with `suffix`.
pub fn ends_with(s: &str, suffix: &str) -> (ends: bool)
    ensures
        ends == has_suffix(s@, suffix@),
{
    let n = s.unicode_len();
    let m = suffix.unicode_len();
    if m > n {
        return false;
    }
    let tail = s.substring_char(n - m, n);
    same_text(tail, suffix)
}

/// Whether `c` is white space.
pub fn is_blank(c: char) -> (blank: bool)
    ensures
        blank == is_white_space(c),
{
    let u: u32 = c as u32;
    (0x09 <= u && u <= 0x0d) || u == 0x20 || u == 0x85 || u == 0xa0 || u == 0x1680 || (0x2000
        <= u && u <= 0x200a) || u == 0x2028 || u == 0x2029 || u == 0x202f || u == 0x205f || u
        == 0x3000
}

/// `s` without the white space it begins and ends with.
pub fn trim(s: &str) -> (rest: String)
    ensures
        rest@ == trimmed(s@),
{
    let n = s.unicode_len();
    let mut from: usize = 0;
    while from < n && is_blank(s.get_char(from))
        invariant
            n == s@.len(),
            from <= n,
            forall|k: int| 0 <= k < from ==> is_white_space(s@[k]),
        decreases n - from,
    {
        from += 1;
    }
    let mut to: usize = n;
    while to > from && is_blank(s.get_char(to - 1))
        invariant
            n == s@.len(),
            from <= to <= n,
            forall|k: int| to <= k < n ==> is_white_space(s@[k]),
        decreases to,
    {
        to -= 1;
    }
    proof {
        lemma_blank_prefix(s@, from as int);
        let rest = s@.skip(from as int);
        assert forall|k: int| rest.len() - (n - to) <= k < rest.len() implies is_white_space(
            rest[k],
        ) by {
            assert(rest[k] == s@[k + from]);
        }
        lemma_blank_suffix(rest, n - to);
        assert(rest.take(rest.len() - (n - to)) =~= s@.subrange(from as int, to as int));
    }
    String::from_str(s.substring_char(from, to))
}

/// The lines of `text` that are not empty, in order.
pub fn split_lines(text: &str) -> (lines: Vec<String>)
    ensures
        lines.deep_view() == nonempty_lines(text@),
{
    let n = text.unicode_len();
    let mut lines: Vec<String> = Vec::new();
    let mut start: usize = 0;
    assert(text@.skip(0) =~= text@);
    assert(lines.deep_view() + nonempty_lines(text@) =~= nonempty_lines(text@));
    while start < n
        invariant
            n == text@.len(),
            start <= n,
            lines.deep_view() + nonempty_lines(text@.skip(start as int)) == nonempty_lines(text@),
        decreases n - start,
    {
        let ghost rest = text@.skip(start as int);
        let ghost before = lines.deep_view();
        let end = find_from(text, '\n', start);
        if end < n {
            let mut stop = end;
            if stop > start && text.get_char(stop - 1) == '\r' {
                stop -= 1;
            }
            let ghost line = without_cr(rest.take(end - start));
            assert(rest.take(end - start) =~= text@.subrange(start as int, end as int));
            assert(line =~= text@.subrange(start as int, stop as int));
            assert(rest.skip(end - start + 1) =~= text@.skip(end + 1));
            if stop > start {
                lines.push(String::from_str(text.substring_char(start, stop)));
                assert(lines.deep_view() =~= before.push(line));
                assert(before.push(line) + nonempty_lines(text@.skip(end + 1)) =~= before + (
                seq![line] + nonempty_lines(text@.skip(end + 1))));
            }
            start = end + 1;
        } else {
            lines.push(String::from_str(text.substring_char(start, n)));
            assert(rest =~= text@.subrange(start as int, n as int));
            assert(lines.deep_view() =~= before.push(rest));
            assert(text@.skip(n as int).len() == 0);
            assert(before.push(rest) + nonempty_lines(text@.skip(n as int)) =~= before
                + seq![rest]);
            start = n;
        }
    }
    assert(lines.deep_view() + nonempty_lines(text@.skip(start as int)) =~= lines.deep_view());
    lines
}

/// The text that `bytes` spell in UTF-8.
///
/// Trusted: calls `std::str::from_utf8`.  The contract claims that the call
/// succeeds exactly on well-formed UTF-8, and that the text it gives is the
/// decoding of the bytes.
#[verifier::external_body]
pub(crate) fn decode(bytes: &Vec<u8>) -> (text: Option<String>)
    ensures
        text is Some <==> valid_utf8(bytes@),
        text matches Some(t) ==> t@ == decode_utf8(bytes@),
{
    match std::str::from_utf8(bytes.as_slice()) {
        Ok(text) => Some(text.to_string()),
        Err(_) => None,
    }
}

/// The text that `bytes` spell in UTF-8, if they spell one.
pub fn read_text(bytes: &Vec<u8>) -> (text: Option<String>)
    ensures
        text.deep_view() == utf8_text(bytes@),
{
    decode(bytes)
}

} // verus!
