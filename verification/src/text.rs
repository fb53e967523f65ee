//! Character-level text utilities shared by the whole crate.
//!
//! All string processing in this crate works over `Vec<char>` so that every
//! transformation can be specified over `Seq<char>`. The only places where
//! `String` appears are at the public API boundary and inside the trusted
//! wrappers that convert between the two representations.

use vstd::prelude::*;

verus! {

/// ASCII whitespace as this crate's trimming rule understands it.
pub open spec fn is_space_char(c: char) -> bool {
    c == ' ' || c == '\t' || c == '\n' || c == '\r' || c == '\u{b}' || c == '\u{c}'
}

pub fn space_char(c: char) -> (r: bool)
    ensures
        r == is_space_char(c),
{
    c == ' ' || c == '\t' || c == '\n' || c == '\r' || c == '\u{b}' || c == '\u{c}'
}

/// The input with leading whitespace characters removed.
pub open spec fn trim_front(s: Seq<char>) -> Seq<char>
    decreases s.len(),
{
    if s.len() > 0 && is_space_char(s[0]) {
        trim_front(s.skip(1))
    } else {
        s
    }
}

/// The input with trailing whitespace characters removed.
pub open spec fn trim_back(s: Seq<char>) -> Seq<char>
    decreases s.len(),
{
    if s.len() > 0 && is_space_char(s[s.len() - 1]) {
        trim_back(s.take(s.len() - 1))
    } else {
        s
    }
}

/// The input with whitespace removed from both ends.
pub open spec fn trim_spec(s: Seq<char>) -> Seq<char> {
    trim_back(trim_front(s))
}

/// Removes leading and trailing whitespace characters.
pub fn trim_chars(s: &Vec<char>) -> (r: Vec<char>)
    ensures
        r@ == trim_spec(s@),
        r@.len() > 0 ==> !is_space_char(r@[0]),
        r@.len() > 0 ==> !is_space_char(r@[r@.len() - 1]),
{
    let n = s.len();
    let mut i: usize = 0;
    proof {
        assert(s@.skip(0) =~= s@);
    }
    while i < n && space_char(s[i])
        invariant
            n == s@.len(),
            i <= n,
            trim_front(s@) == trim_front(s@.skip(i as int)),
        decreases n - i,
    {
        proof {
            assert(s@.skip(i as int).skip(1) =~= s@.skip(i as int + 1));
        }
        i = i + 1;
    }
    proof {
        assert(trim_front(s@.skip(i as int)) == s@.skip(i as int));
    }
    let mut j: usize = n;
    while j > i && space_char(s[j - 1])
        invariant
            n == s@.len(),
            i <= j <= n,
            trim_front(s@) == s@.skip(i as int),
            trim_back(s@.subrange(i as int, n as int)) == trim_back(s@.subrange(i as int, j as int)),
        decreases j,
    {
        proof {
            let u = s@.subrange(i as int, j as int);
            assert(u.take(u.len() - 1) =~= s@.subrange(i as int, j as int - 1));
        }
        j = j - 1;
    }
    proof {
        assert(s@.skip(i as int) =~= s@.subrange(i as int, n as int));
        assert(trim_back(s@.subrange(i as int, j as int)) == s@.subrange(i as int, j as int));
    }
    let mut r: Vec<char> = Vec::new();
    let mut k: usize = i;
    while k < j
        invariant
            i <= k <= j <= n,
            n == s@.len(),
            r@ == s@.subrange(i as int, k as int),
        decreases j - k,
    {
        r.push(s[k]);
        proof {
            assert(s@.subrange(i as int, k as int).push(s@[k as int]) =~= s@.subrange(
                i as int,
                k as int + 1,
            ));
        }
        k = k + 1;
    }
    r
}

/// True when the character occurs in the sequence.
pub open spec fn contains_char(s: Seq<char>, c: char) -> bool {
    exists|i: int| 0 <= i < s.len() && s[i] == c
}

pub fn find_char_at(s: &Vec<char>, c: char) -> (r: Option<usize>)
    ensures
        match r {
            Some(i) => i < s@.len() && s@[i as int] == c && forall|k: int|
                0 <= k < i ==> s@[k] != c,
            None => !contains_char(s@, c),
        },
{
    let mut i: usize = 0;
    while i < s.len()
        invariant
            i <= s@.len(),
            forall|k: int| 0 <= k < i ==> s@[k] != c,
        decreases s@.len() - i,
    {
        if s[i] == c {
            return Some(i);
        }
        i = i + 1;
    }
    None
}

pub fn has_char(s: &Vec<char>, c: char) -> (r: bool)
    ensures
        r == contains_char(s@, c),
{
    match find_char_at(s, c) {
        Some(_) => true,
        None => false,
    }
}

/// True when `p` is a prefix of `s`.
pub open spec fn has_prefix(s: Seq<char>, p: Seq<char>) -> bool {
    p.len() <= s.len() && s.subrange(0, p.len() as int) == p
}

/// True when `p` is a suffix of `s`.
pub open spec fn has_suffix(s: Seq<char>, p: Seq<char>) -> bool {
    p.len() <= s.len() && s.subrange(s.len() - p.len(), s.len() as int) == p
}

/// Appends every character of `src` to `out`.
pub fn extend_chars(out: &mut Vec<char>, src: &Vec<char>)
    ensures
        final(out)@ == old(out)@ + src@,
{
    let mut k: usize = 0;
    while k < src.len()
        invariant
            k <= src@.len(),
            out@ == old(out)@ + src@.subrange(0, k as int),
        decreases src@.len() - k,
    {
        out.push(src[k]);
        proof {
            assert(old(out)@ + src@.subrange(0, k as int + 1) =~= (old(out)@ + src@.subrange(
                0,
                k as int,
            )).push(src@[k as int]));
        }
        k = k + 1;
    }
    proof {
        assert(src@.subrange(0, src@.len() as int) =~= src@);
    }
}

/// Copies the characters of `s` between `from` and `to`.
pub fn copy_range(s: &Vec<char>, from: usize, to: usize) -> (r: Vec<char>)
    requires
        from <= to <= s@.len(),
    ensures
        r@ == s@.subrange(from as int, to as int),
{
    let mut r: Vec<char> = Vec::new();
    let mut k: usize = from;
    while k < to
        invariant
            from <= k <= to <= s@.len(),
            r@ == s@.subrange(from as int, k as int),
        decreases to - k,
    {
        r.push(s[k]);
        proof {
            assert(s@.subrange(from as int, k as int).push(s@[k as int]) =~= s@.subrange(
                from as int,
                k as int + 1,
            ));
        }
        k = k + 1;
    }
    r
}

/// The index of the first occurrence of `c` in `s`, or `s.len()` when absent.
pub open spec fn index_of_char(s: Seq<char>, c: char) -> int
    decreases s.len(),
{
    if s.len() == 0 {
        0
    } else if s[0] == c {
        0
    } else {
        1 + index_of_char(s.skip(1), c)
    }
}

pub proof fn lemma_index_of_char(s: Seq<char>, c: char)
    ensures
        0 <= index_of_char(s, c) <= s.len(),
        index_of_char(s, c) < s.len() ==> s[index_of_char(s, c)] == c,
        forall|k: int| 0 <= k < index_of_char(s, c) ==> s[k] != c,
    decreases s.len(),
{
    if s.len() > 0 && s[0] != c {
        lemma_index_of_char(s.skip(1), c);
        assert forall|k: int| 0 <= k < index_of_char(s, c) implies s[k] != c by {
            if k > 0 {
                assert(s.skip(1)[k - 1] == s[k]);
            }
        }
    }
}

/// The segments of `s` between newline characters. Always at least one
/// segment; a trailing newline yields a trailing empty segment.
pub open spec fn split_nl(s: Seq<char>) -> Seq<Seq<char>>
    decreases s.len(),
{
    let i = index_of_char(s, '\n');
    if 0 <= i && i < s.len() {
        seq![s.take(i)] + split_nl(s.skip(i + 1))
    } else {
        seq![s]
    }
}

/// The number of leading space or tab characters, or `None` when the line
/// consists of nothing else.
pub open spec fn line_indent(line: Seq<char>) -> Option<int>
    decreases line.len(),
{
    if line.len() == 0 {
        None
    } else if line[0] != ' ' && line[0] != '\t' {
        Some(0int)
    } else {
        match line_indent(line.skip(1)) {
            None => None,
            Some(k) => Some(1 + k),
        }
    }
}

/// The smallest `line_indent` over the given lines, ignoring lines made of
/// spaces and tabs only.
pub open spec fn min_indent(lines: Seq<Seq<char>>) -> Option<int>
    decreases lines.len(),
{
    if lines.len() == 0 {
        None
    } else {
        let rest = min_indent(lines.skip(1));
        match (line_indent(lines[0]), rest) {
            (None, r) => r,
            (Some(k), None) => Some(k),
            (Some(k), Some(m)) => if k <= m {
                Some(k)
            } else {
                Some(m)
            },
        }
    }
}

/// A line with its first `n` characters removed, or the empty line when it is
/// no longer than `n`.
pub open spec fn strip_indent(line: Seq<char>, n: int) -> Seq<char> {
    if line.len() > n {
        line.skip(n)
    } else {
        Seq::empty()
    }
}

pub open spec fn unindent_rest(lines: Seq<Seq<char>>, n: int) -> Seq<char>
    decreases lines.len(),
{
    if lines.len() == 0 {
        Seq::empty()
    } else {
        seq!['\n'] + strip_indent(lines[0], n) + unindent_rest(lines.skip(1), n)
    }
}

/// What `unindent::unindent` computes on a string that does not begin with a
/// carriage return or newline: the first line is kept as it is, and every
/// later line loses the largest indentation shared by all later lines that
/// hold more than spaces and tabs.
pub open spec fn unindent_spec(s: Seq<char>) -> Seq<char> {
    let lines = split_nl(s);
    let n = match min_indent(lines.skip(1)) {
        None => 0int,
        Some(k) => k,
    };
    lines[0] + unindent_rest(lines.skip(1), n)
}

/// A line with its trailing carriage return removed, if any.
pub open spec fn strip_cr(line: Seq<char>) -> Seq<char> {
    if line.len() > 0 && line[line.len() - 1] == '\r' {
        line.take(line.len() - 1)
    } else {
        line
    }
}

/// What `str::lines` yields: segments split at newlines, a terminating
/// newline producing no extra segment, and each newline-terminated segment
/// losing a trailing carriage return.
pub open spec fn std_lines(s: Seq<char>) -> Seq<Seq<char>> {
    if s.len() == 0 {
        Seq::empty()
    } else {
        let parts = split_nl(s);
        let terminated = parts.take(parts.len() - 1).map_values(|seg: Seq<char>| strip_cr(seg));
        if s[s.len() - 1] == '\n' {
            terminated
        } else {
            terminated.push(parts[parts.len() - 1])
        }
    }
}

/// `n` spaces.
pub open spec fn spaces(n: int) -> Seq<char> {
    Seq::new(n as nat, |i: int| ' ')
}

/// A line indented by `n` spaces, except that an empty line stays empty.
pub open spec fn indent_line(line: Seq<char>, n: int) -> Seq<char> {
    if line.len() == 0 {
        line
    } else {
        spaces(n) + line
    }
}

pub open spec fn indent_rest(lines: Seq<Seq<char>>, n: int) -> Seq<char>
    decreases lines.len(),
{
    if lines.len() == 0 {
        Seq::empty()
    } else {
        seq!['\n'] + indent_line(lines[0], n) + indent_rest(lines.skip(1), n)
    }
}

/// What the `indent` crate computes: every non-empty line of `s` gains `n`
/// leading spaces — the first line only when `all` is set — and a trailing
/// newline of `s` is kept.
pub open spec fn indent_spec(s: Seq<char>, n: int, all: bool) -> Seq<char> {
    let lines = std_lines(s);
    let body = if lines.len() == 0 {
        Seq::<char>::empty()
    } else {
        (if all {
            indent_line(lines[0], n)
        } else {
            lines[0]
        }) + indent_rest(lines.skip(1), n)
    };
    body + (if s.len() > 0 && s[s.len() - 1] == '\n' {
        seq!['\n']
    } else {
        Seq::<char>::empty()
    })
}

/// De-indents a block of text.
///
/// Relies on `unindent::unindent`: it splits at newlines, takes the smallest
/// count of leading spaces and tabs over the lines after the first that hold
/// anything else, and removes that many leading characters from every line
/// after the first. The requires-clause keeps out inputs whose first line the
/// crate would treat as an opening quote's empty remainder.
#[verifier::external_body]
pub fn unindent_chars(s: &Vec<char>) -> (r: Vec<char>)
    requires
        s@.len() == 0 || (s@[0] != '\n' && s@[0] != '\r'),
    ensures
        r@ == unindent_spec(s@),
{
    let t: String = s.iter().collect();
    unindent::unindent(&t).chars().collect()
}

/// Indents every non-empty line but the first by `n` spaces.
///
/// Relies on `indent::indent_by`: it walks `str::lines`, prefixes every
/// non-empty line except the first with `n` spaces, and restores a trailing
/// newline.
#[verifier::external_body]
pub fn indent_by_chars(n: usize, s: &Vec<char>) -> (r: Vec<char>)
    ensures
        r@ == indent_spec(s@, n as int, false),
{
    let t: String = s.iter().collect();
    indent::indent_by(n, t.as_str()).chars().collect()
}

/// Indents every non-empty line by `n` spaces.
///
/// Relies on `indent::indent_all_by`: it walks `str::lines`, prefixes every
/// non-empty line with `n` spaces, and restores a trailing newline.
#[verifier::external_body]
pub fn indent_all_by_chars(n: usize, s: &Vec<char>) -> (r: Vec<char>)
    ensures
        r@ == indent_spec(s@, n as int, true),
{
    let t: String = s.iter().collect();
    indent::indent_all_by(n, t.as_str()).chars().collect()
}

/// The characters of a string, in order.
///
/// Relies on `str::chars`, which yields the characters of the string from
/// front to back.
#[verifier::external_body]
pub fn chars_of(s: &str) -> (r: Vec<char>)
    ensures
        r@ == s@,
{
    s.chars().collect()
}

/// A string made of the given characters, in order.
///
/// Relies on `String`'s `FromIterator<char>` implementation, which collects
/// the characters from front to back.
#[verifier::external_body]
pub fn string_of(s: &Vec<char>) -> (r: String)
    ensures
        r@ == s@,
{
    s.iter().collect()
}

} // verus!
