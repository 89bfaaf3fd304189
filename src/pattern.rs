//! Line-level text matching: splitting the input into lines, and the three
//! fixed regular expressions of the LRC format (lyric line, tag, length value).
//!
//! Matching itself is done by the `regex` crate. For each pattern, the spec
//! functions below state what the crate's documented semantics make of it:
//! the leftmost match wins; at that start, the lazy and greedy repetitions
//! settle the capture groups as a backtracking engine would; `.` is any
//! character but `\n`; `$` is the end of the haystack.

use vstd::prelude::*;
use regex::Regex;

verus! {

#[verifier::external_type_specification]
#[verifier::external_body]
pub struct ExRegex(Regex);

/// A lyric line: `[mm:ss.xx]` and then the rest of the line as its text.
pub const LYRIC_SOURCE: &'static str = r"\[([0-9][0-9]):([0-9][0-9])\.([0-9][0-9])\](.*)$";

/// A tag line: `[key: value]`, the key as short and the value as long as possible.
pub const TAG_SOURCE: &'static str = r"\[(.+?): *(.+)\]$";

/// The value of a `length` tag: one or two digits, a colon, one or two digits.
pub const LENGTH_SOURCE: &'static str = r"([0-9]{1,2}):([0-9]{1,2})$";

/// Which of the three patterns a compiled regex was built from.
#[derive(Clone, Copy, PartialEq, Eq, Debug)]
pub enum PatternKind {
    LyricLine,
    Tag,
    Length,
}

impl PatternKind {
    pub open spec fn source(self) -> Seq<char> {
        match self {
            PatternKind::LyricLine => LYRIC_SOURCE@,
            PatternKind::Tag => TAG_SOURCE@,
            PatternKind::Length => LENGTH_SOURCE@,
        }
    }

    /// The text of the pattern.
    pub fn source_text(self) -> (r: &'static str)
        ensures
            r@ == self.source(),
    {
        match self {
            PatternKind::LyricLine => LYRIC_SOURCE,
            PatternKind::Tag => TAG_SOURCE,
            PatternKind::Length => LENGTH_SOURCE,
        }
    }
}

/// A regex compiled from the source of `kind`; only `compile` builds one.
pub struct LinePattern {
    regex: Regex,
    kind: PatternKind,
}

impl LinePattern {
    pub closed spec fn kind(&self) -> PatternKind {
        self.kind
    }
}

/// Whether `Regex::new` accepts this pattern source.
pub uninterp spec fn regex_compiles(source: Seq<char>) -> bool;

/// Relies on regex::Regex::new: it compiles the pattern, or returns an error
/// (syntax error or size limit), and the outcome depends on the source alone.
#[verifier::external_body]
pub(crate) fn compile(kind: PatternKind, source: &str) -> (r: Option<LinePattern>)
    requires
        source@ == kind.source(),
    ensures
        r is Some <==> regex_compiles(source@),
        r matches Some(p) ==> p.kind() == kind,
{
    match Regex::new(source) {
        Ok(regex) => Some(LinePattern { regex, kind }),
        Err(_) => None,
    }
}

pub open spec fn is_ascii_digit(c: char) -> bool {
    '0' <= c && c <= '9'
}

pub open spec fn all_digits(t: Seq<char>) -> bool {
    forall|j: int| 0 <= j < t.len() ==> is_ascii_digit(#[trigger] t[j])
}

pub open spec fn has_no_newline(t: Seq<char>) -> bool {
    forall|j: int| 0 <= j < t.len() ==> #[trigger] t[j] != '\n'
}

/// Index of the first `c` in `s` at or after `from`; `s.len()` if there is none.
pub open spec fn find_from(s: Seq<char>, c: char, from: int) -> int
    decreases s.len() - from,
{
    if from < 0 || from >= s.len() {
        s.len() as int
    } else if s[from] == c {
        from
    } else {
        find_from(s, c, from + 1)
    }
}

/// The least `i` in `from..end` at which `at` holds.
pub open spec fn leftmost(at: spec_fn(int) -> bool, from: int, end: int) -> Option<int>
    decreases end - from,
{
    if from >= end {
        None
    } else if at(from) {
        Some(from)
    } else {
        leftmost(at, from + 1, end)
    }
}

/// `leftmost` finds the least index at which `at` holds.
pub proof fn lemma_leftmost(at: spec_fn(int) -> bool, from: int, end: int)
    ensures
        leftmost(at, from, end) matches Some(i) ==> from <= i < end && at(i),
        leftmost(at, from, end) is None ==> forall|i: int| from <= i < end ==> !#[trigger] at(i),
    decreases end - from,
{
    if from < end {
        lemma_leftmost(at, from + 1, end);
    }
}

/// `find_from` finds the first `c` at or after `from`.
pub proof fn lemma_find_from(s: Seq<char>, c: char, from: int)
    ensures
        from <= find_from(s, c, from) || find_from(s, c, from) == s.len(),
        find_from(s, c, from) <= s.len(),
        0 <= from <= s.len() ==> from <= find_from(s, c, from),
        find_from(s, c, from) < s.len() ==> s[find_from(s, c, from)] == c,
    decreases s.len() - from,
{
    if !(from < 0 || from >= s.len()) && s[from] != c {
        lemma_find_from(s, c, from + 1);
    }
}

/// The number of spaces at the start of `t`.
pub open spec fn leading_spaces(t: Seq<char>) -> int
    decreases t.len(),
{
    if t.len() > 0 && t[0] == ' ' {
        1 + leading_spaces(t.drop_first())
    } else {
        0
    }
}

/// The lyric pattern matches starting at `i`.
pub open spec fn lyric_match_at(s: Seq<char>, i: int) -> bool {
    &&& 0 <= i && i + 10 <= s.len()
    &&& s[i] == '['
    &&& is_ascii_digit(s[i + 1]) && is_ascii_digit(s[i + 2])
    &&& s[i + 3] == ':'
    &&& is_ascii_digit(s[i + 4]) && is_ascii_digit(s[i + 5])
    &&& s[i + 6] == '.'
    &&& is_ascii_digit(s[i + 7]) && is_ascii_digit(s[i + 8])
    &&& s[i + 9] == ']'
    &&& has_no_newline(s.subrange(i + 10, s.len() as int))
}

pub open spec fn is_lyric_line(s: Seq<char>) -> bool {
    exists|i: int| lyric_match_at(s, i)
}

/// The tag pattern matches starting at `i`: a `[`, a key of at least one
/// character up to a colon, at least two characters after that colon, the
/// last of which is `]`, and no newline on the way.
pub open spec fn tag_match_at(s: Seq<char>, i: int) -> bool {
    &&& 0 <= i < s.len()
    &&& s[i] == '['
    &&& find_from(s, ':', i + 2) + 3 <= s.len()
    &&& s[s.len() - 1] == ']'
    &&& has_no_newline(s.subrange(i + 1, s.len() as int))
}

/// The two groups that the tag pattern captures in `s`, if it matches.
/// The lazy key ends at the first colon; the greedy spaces stop where the
/// value would otherwise be empty.
pub open spec fn tag_groups(s: Seq<char>) -> Option<(Seq<char>, Seq<char>)> {
    match leftmost(|i: int| tag_match_at(s, i), 0, s.len() as int) {
        Some(i) => {
            let c = find_from(s, ':', i + 2);
            let rest = s.subrange(c + 1, s.len() - 1);
            let m = if leading_spaces(rest) < rest.len() - 1 {
                leading_spaces(rest)
            } else {
                rest.len() - 1
            };
            Some((s.subrange(i + 1, c), rest.subrange(m, rest.len() as int)))
        },
        None => None,
    }
}

/// The length pattern matches starting at `i`: one or two digits, a colon,
/// and one or two digits that end the haystack.
pub open spec fn length_match_at(s: Seq<char>, i: int) -> bool {
    let c = find_from(s, ':', i);
    &&& 0 <= i
    &&& i + 1 <= c <= i + 2
    &&& c + 2 <= s.len() <= c + 3
    &&& all_digits(s.subrange(i, c))
    &&& all_digits(s.subrange(c + 1, s.len() as int))
}

/// The two groups that the length pattern captures in `s`, if it matches.
pub open spec fn length_groups(s: Seq<char>) -> Option<(Seq<char>, Seq<char>)> {
    match leftmost(|i: int| length_match_at(s, i), 0, s.len() as int) {
        Some(i) => {
            let c = find_from(s, ':', i);
            Some((s.subrange(i, c), s.subrange(c + 1, s.len() as int)))
        },
        None => None,
    }
}

pub open spec fn groups_view(r: Option<(String, String)>) -> Option<(Seq<char>, Seq<char>)> {
    match r {
        Some((a, b)) => Some((a@, b@)),
        None => None,
    }
}

/// Relies on regex::Regex::captures, which finds the leftmost-first match,
/// and on indexing the captures by group number (groups 1 and 2 take part
/// in every match of the three patterns).
#[verifier::external_body]
pub(crate) fn first_two_groups(pattern: &LinePattern, hay: &str) -> (r: Option<(String, String)>)
    ensures
        pattern.kind() == PatternKind::LyricLine ==> (r is Some <==> is_lyric_line(hay@)),
        pattern.kind() == PatternKind::Tag ==> groups_view(r) == tag_groups(hay@),
        pattern.kind() == PatternKind::Length ==> groups_view(r) == length_groups(hay@),
{
    pattern.regex.captures(hay).map(|caps| (caps[1].to_string(), caps[2].to_string()))
}

/// The pieces of `s` between newline characters, in order; there is always
/// at least one, and a trailing newline gives an empty last piece.
pub open spec fn split_on_newline(s: Seq<char>) -> Seq<Seq<char>>
    decreases s.len(),
{
    if s.len() == 0 {
        seq![Seq::<char>::empty()]
    } else {
        let init = split_on_newline(s.drop_last());
        if s.last() == '\n' {
            init.push(Seq::<char>::empty())
        } else {
            init.update(init.len() - 1, init.last().push(s.last()))
        }
    }
}

pub open spec fn lines_view(v: Seq<String>) -> Seq<Seq<char>> {
    v.map_values(|l: String| l@)
}

/// Relies on str::split with the pattern "\n".
#[verifier::external_body]
pub(crate) fn split_lines(text: &str) -> (r: Vec<String>)
    ensures
        lines_view(r@) == split_on_newline(text@),
{
    text.split("\n").map(|l| l.to_string()).collect()
}

/// The number written by the decimal digits `t`.
pub open spec fn decimal_value(t: Seq<char>) -> nat
    decreases t.len(),
{
    if t.len() == 0 {
        0
    } else {
        decimal_value(t.drop_last()) * 10 + ((t.last() as int - '0' as int) as nat)
    }
}

/// The value of one or two decimal digits.
pub fn small_decimal(t: &str) -> (r: u32)
    requires
        1 <= t@.len() <= 2,
        all_digits(t@),
    ensures
        r == decimal_value(t@),
        r < 100,
{
    let n = t.unicode_len();
    let first = t.get_char(0);
    let d0: u32 = (first as u32) - ('0' as u32);
    assert(d0 as int == first as int - '0' as int);
    assert(decimal_value(Seq::<char>::empty()) == 0);
    if n == 1 {
        assert(t@.drop_last() =~= Seq::<char>::empty());
        assert(t@.last() == first);
        d0
    } else {
        let second = t.get_char(1);
        let d1: u32 = (second as u32) - ('0' as u32);
        let ghost head = t@.drop_last();
        assert(head.drop_last() =~= Seq::<char>::empty());
        assert(head.last() == first);
        assert(decimal_value(head) == d0);
        assert(t@.last() == second);
        d0 * 10 + d1
    }
}

} // verus!
