//! Character-level text helpers: equality, prefixes, line splitting,
//! decimal numbers and path joining, each stated over `Seq<char>`.

use vstd::prelude::*;
use crate::error::IntErrorKind;

verus! {

/// Appends one character to a string (std's `String::push`).
/// Claimed: the string afterwards is the old one followed by `c`.
#[verifier::external_body]
pub(crate) fn push_char(s: &mut String, c: char)
    ensures
        final(s)@ == old(s)@.push(c),
{
    s.push(c)
}

/// The characters of a string slice, in order.
pub fn chars_of(s: &str) -> (v: Vec<char>)
    ensures
        v@ == s@,
{
    let mut v: Vec<char> = Vec::new();
    for c in it: s.chars()
        invariant
            v@ == it.seq().take(it.index()),
            it.seq() == s@,
    {
        v.push(c);
    }
    v
}

/// Builds a string holding exactly the given characters.
pub fn string_from_chars(cs: &[char]) -> (s: String)
    ensures
        s@ == cs@,
{
    let mut s = String::new();
    let mut i: usize = 0;
    while i < cs.len()
        invariant
            i <= cs@.len(),
            s@ == cs@.take(i as int),
        decreases cs@.len() - i,
    {
        push_char(&mut s, cs[i]);
        i = i + 1;
        assert(s@ == cs@.take(i as int));
    }
    assert(cs@.take(cs@.len() as int) == cs@);
    s
}

/// Appends the characters of `cs` to `s`.
pub fn push_chars(s: &mut String, cs: &[char])
    ensures
        final(s)@ == old(s)@ + cs@,
{
    let ghost start = s@;
    let mut i: usize = 0;
    while i < cs.len()
        invariant
            i <= cs@.len(),
            s@ == start + cs@.take(i as int),
        decreases cs@.len() - i,
    {
        push_char(s, cs[i]);
        i = i + 1;
        assert(s@ == start + cs@.take(i as int));
    }
    assert(cs@.take(cs@.len() as int) == cs@);
}

/// Whether two character sequences are equal.
pub fn chars_eq(a: &[char], b: &[char]) -> (r: bool)
    ensures
        r == (a@ == b@),
{
    if a.len() != b.len() {
        return false;
    }
    let mut i: usize = 0;
    while i < a.len()
        invariant
            a@.len() == b@.len(),
            i <= a@.len(),
            forall|j: int| 0 <= j < i ==> a@[j] == b@[j],
        decreases a@.len() - i,
    {
        if a[i] != b[i] {
            return false;
        }
        i = i + 1;
    }
    assert(a@ =~= b@);
    true
}

/// Whether two string slices hold the same characters.
pub fn str_eq(a: &str, b: &str) -> (r: bool)
    ensures
        r == (a@ == b@),
{
    let ca = chars_of(a);
    let cb = chars_of(b);
    chars_eq(ca.as_slice(), cb.as_slice())
}

/// Whether `prefix` is a prefix of `s`.
pub fn has_prefix(s: &[char], prefix: &[char]) -> (r: bool)
    ensures
        r == prefix@.is_prefix_of(s@),
{
    if prefix.len() > s.len() {
        return false;
    }
    let mut i: usize = 0;
    while i < prefix.len()
        invariant
            prefix@.len() <= s@.len(),
            i <= prefix@.len(),
            forall|j: int| 0 <= j < i ==> prefix@[j] == s@[j],
        decreases prefix@.len() - i,
    {
        if prefix[i] != s[i] {
            return false;
        }
        i = i + 1;
    }
    true
}

/// What `str::trim_start_matches` leaves of `s` when the pattern is the
/// string `p`: every leading copy of `p` is removed.
pub open spec fn trim_leading(s: Seq<char>, p: Seq<char>) -> Seq<char>
    decreases s.len(),
{
    if p.len() > 0 && p.is_prefix_of(s) {
        trim_leading(s.skip(p.len() as int), p)
    } else {
        s
    }
}

/// The characters of `s` after every leading copy of `p` has been removed.
pub fn trim_leading_copies(s: &[char], p: &[char]) -> (r: Vec<char>)
    ensures
        r@ == trim_leading(s@, p@),
{
    let mut start: usize = 0;
    if p.len() == 0 {
        return vstd::slice::slice_to_vec(s);
    }
    assert(s@.skip(0) =~= s@);
    while p.len() <= s.len() - start && has_prefix(&s[start..s.len()], p)
        invariant
            p@.len() > 0,
            start <= s@.len(),
            trim_leading(s@, p@) == trim_leading(s@.skip(start as int), p@),
        decreases s@.len() - start,
    {
        assert(s@.skip(start as int).skip(p@.len() as int) =~= s@.skip(start + p@.len()));
        start = start + p.len();
    }
    assert(!p@.is_prefix_of(s@.skip(start as int))) by {
        if start + p@.len() <= s@.len() {
            assert(s@.subrange(start as int, s@.len() as int) =~= s@.skip(start as int));
        }
    }
    let rest = &s[start..s.len()];
    assert(rest@ =~= s@.skip(start as int));
    vstd::slice::slice_to_vec(rest)
}

/// A line as `str::lines` yields it: a `"\r"` just before the `'\n'` that
/// ended the line is dropped.
pub open spec fn strip_cr(line: Seq<char>) -> Seq<char> {
    if line.len() > 0 && line.last() == '\r' {
        line.drop_last()
    } else {
        line
    }
}

/// The lines of `s` given that `cur` has already been read on the current
/// line: a `'\n'` ends a line; the last line needs no `'\n'`, and text that
/// ends with `'\n'` has no empty line after it.
pub open spec fn lines_after(s: Seq<char>, cur: Seq<char>) -> Seq<Seq<char>>
    decreases s.len(),
{
    if s.len() == 0 {
        if cur.len() == 0 {
            Seq::empty()
        } else {
            seq![cur]
        }
    } else if s[0] == '\n' {
        seq![strip_cr(cur)] + lines_after(s.drop_first(), Seq::empty())
    } else {
        lines_after(s.drop_first(), cur.push(s[0]))
    }
}

/// The lines of `s`, as `str::lines` yields them.
pub open spec fn lines(s: Seq<char>) -> Seq<Seq<char>> {
    lines_after(s, Seq::empty())
}

/// Splits text into its lines, as `str::lines` does.
pub fn split_lines(s: &[char]) -> (out: Vec<Vec<char>>)
    ensures
        out@.len() == lines(s@).len(),
        forall|i: int| 0 <= i < out@.len() ==> #[trigger] out@[i]@ == lines(s@)[i],
{
    let mut out: Vec<Vec<char>> = Vec::new();
    let mut cur: Vec<char> = Vec::new();
    let mut i: usize = 0;
    let ghost mut done: Seq<Seq<char>> = Seq::empty();
    assert(s@.skip(0) =~= s@);
    assert(done + lines(s@) =~= lines(s@));
    while i < s.len()
        invariant
            i <= s@.len(),
            out@.len() == done.len(),
            forall|k: int| 0 <= k < out@.len() ==> #[trigger] out@[k]@ == done[k],
            done + lines_after(s@.skip(i as int), cur@) == lines(s@),
        decreases s@.len() - i,
    {
        let c = s[i];
        assert(s@.skip(i as int).drop_first() =~= s@.skip(i + 1));
        if c == '\n' {
            let mut line = cur;
            if line.len() > 0 && line[line.len() - 1] == '\r' {
                line.pop();
            }
            assert(line@ == strip_cr(cur@));
            proof {
                assert(done + lines_after(s@.skip(i as int), cur@) == done + (seq![strip_cr(cur@)]
                    + lines_after(s@.skip(i + 1), Seq::empty())));
                assert(done + (seq![strip_cr(cur@)] + lines_after(s@.skip(i + 1), Seq::empty()))
                    =~= done.push(strip_cr(cur@)) + lines_after(s@.skip(i + 1), Seq::empty()));
                done = done.push(strip_cr(cur@));
            }
            out.push(line);
            cur = Vec::new();
            assert(cur@ =~= Seq::<char>::empty());
        } else {
            cur.push(c);
        }
        i = i + 1;
    }
    assert(s@.skip(i as int) =~= Seq::<char>::empty());
    if cur.len() > 0 {
        proof {
            assert(done + seq![cur@] =~= done.push(cur@));
            done = done.push(cur@);
        }
        out.push(cur);
    } else {
        assert(done + Seq::<Seq<char>>::empty() =~= done);
    }
    out
}

/// The decimal digit character for `d < 10`.
pub open spec fn digit_char(d: nat) -> char {
    if d == 0 { '0' }
    else if d == 1 { '1' }
    else if d == 2 { '2' }
    else if d == 3 { '3' }
    else if d == 4 { '4' }
    else if d == 5 { '5' }
    else if d == 6 { '6' }
    else if d == 7 { '7' }
    else if d == 8 { '8' }
    else { '9' }
}

/// The value of a decimal digit character, if it is one.
pub open spec fn digit_value(c: char) -> Option<nat> {
    if '0' <= c && c <= '9' {
        Some((c as nat - '0' as nat) as nat)
    } else {
        None
    }
}

/// The decimal notation of `n`, without leading zeros.
pub open spec fn decimal(n: nat) -> Seq<char>
    decreases n,
{
    if n < 10 {
        seq![digit_char(n)]
    } else {
        decimal(n / 10).push(digit_char(n % 10))
    }
}

fn digit_to_char(d: u64) -> (c: char)
    requires
        d < 10,
    ensures
        c == digit_char(d as nat),
{
    if d == 0 { '0' }
    else if d == 1 { '1' }
    else if d == 2 { '2' }
    else if d == 3 { '3' }
    else if d == 4 { '4' }
    else if d == 5 { '5' }
    else if d == 6 { '6' }
    else if d == 7 { '7' }
    else if d == 8 { '8' }
    else { '9' }
}

/// Appends the decimal notation of `n` to `s`.
pub fn push_decimal(s: &mut String, n: u64)
    ensures
        final(s)@ == old(s)@ + decimal(n as nat),
    decreases n,
{
    if n >= 10 {
        push_decimal(s, n / 10);
    }
    push_char(s, digit_to_char(n % 10));
    proof {
        if n >= 10 {
            assert(old(s)@ + decimal((n / 10) as nat) + seq![digit_char((n % 10) as nat)]
                =~= old(s)@ + decimal(n as nat));
        } else {
            assert(old(s)@ + seq![digit_char(n as nat)] =~= old(s)@ + decimal(n as nat));
        }
    }
}

/// The value of `acc` followed by the decimal digits `s`, read left to
/// right as `str::parse::<usize>` reads them: the first character that is
/// not a digit, or the first digit that takes the value past `usize::MAX`,
/// ends the parse with that error.
pub open spec fn digits_from(s: Seq<char>, acc: nat) -> Result<usize, IntErrorKind>
    decreases s.len(),
{
    if s.len() == 0 {
        Ok(acc as usize)
    } else {
        match digit_value(s[0]) {
            None => Err(IntErrorKind::InvalidDigit),
            Some(d) => if acc * 10 + d > usize::MAX {
                Err(IntErrorKind::PosOverflow)
            } else {
                digits_from(s.drop_first(), acc * 10 + d)
            },
        }
    }
}

/// What `str::parse::<usize>` gives: an empty string is `Empty`; a lone
/// sign is `InvalidDigit`; one leading `'+'` is dropped; the rest must be
/// decimal digits whose value fits in a `usize`.
pub open spec fn parse_usize_spec(s: Seq<char>) -> Result<usize, IntErrorKind> {
    if s.len() == 0 {
        Err(IntErrorKind::Empty)
    } else if (s[0] == '+' || s[0] == '-') && s.len() == 1 {
        Err(IntErrorKind::InvalidDigit)
    } else if s[0] == '+' {
        digits_from(s.drop_first(), 0)
    } else {
        digits_from(s, 0)
    }
}

/// Parses a decimal `usize` as `str::parse::<usize>` does.
pub fn parse_usize(s: &[char]) -> (r: Result<usize, IntErrorKind>)
    ensures
        r == parse_usize_spec(s@),
{
    if s.len() == 0 {
        return Err(IntErrorKind::Empty);
    }
    if (s[0] == '+' || s[0] == '-') && s.len() == 1 {
        return Err(IntErrorKind::InvalidDigit);
    }
    let mut i: usize = if s[0] == '+' { 1 } else { 0 };
    assert(parse_usize_spec(s@) == digits_from(s@.skip(i as int), 0)) by {
        assert(s@.skip(0) =~= s@);
        assert(s@.skip(1) =~= s@.drop_first());
    }
    let mut value: usize = 0;
    while i < s.len()
        invariant
            i <= s@.len(),
            parse_usize_spec(s@) == digits_from(s@.skip(i as int), value as nat),
        decreases s@.len() - i,
    {
        let c = s[i];
        assert(s@.skip(i as int)[0] == c);
        assert(s@.skip(i as int).drop_first() =~= s@.skip(i + 1));
        if c < '0' || c > '9' {
            return Err(IntErrorKind::InvalidDigit);
        }
        let d = (c as u32 - '0' as u32) as usize;
        assert(digit_value(c) == Some(d as nat));
        match value.checked_mul(10) {
            Some(v10) => match v10.checked_add(d) {
                Some(next) => {
                    value = next;
                },
                None => {
                    return Err(IntErrorKind::PosOverflow);
                },
            },
            None => {
                return Err(IntErrorKind::PosOverflow);
            },
        }
        i = i + 1;
    }
    assert(s@.skip(i as int) =~= Seq::<char>::empty());
    Ok(value)
}

/// Whether `c` has the Unicode `White_Space` property, which
/// `char::is_whitespace` tests and `str::trim` removes.
pub open spec fn is_white_space(c: char) -> bool {
    ||| c == '\t'
    ||| c == '\n'
    ||| c == '\u{0B}'
    ||| c == '\u{0C}'
    ||| c == '\r'
    ||| c == ' '
    ||| c == '\u{85}'
    ||| c == '\u{A0}'
    ||| c == '\u{1680}'
    ||| ('\u{2000}' <= c && c <= '\u{200A}')
    ||| c == '\u{2028}'
    ||| c == '\u{2029}'
    ||| c == '\u{202F}'
    ||| c == '\u{205F}'
    ||| c == '\u{3000}'
}

fn white_space(c: char) -> (r: bool)
    ensures
        r == is_white_space(c),
{
    c == '\t' || c == '\n' || c == '\u{0B}' || c == '\u{0C}' || c == '\r' || c == ' ' || c == '\u{85}'
        || c == '\u{A0}' || c == '\u{1680}' || ('\u{2000}' <= c && c <= '\u{200A}') || c == '\u{2028}'
        || c == '\u{2029}' || c == '\u{202F}' || c == '\u{205F}' || c == '\u{3000}'
}

/// Whether the text is empty once trimmed: every character is white space.
pub open spec fn is_blank(s: Seq<char>) -> bool {
    forall|i: int| 0 <= i < s.len() ==> is_white_space(#[trigger] s[i])
}

/// Whether `s.trim()` is empty.
pub fn blank(s: &str) -> (r: bool)
    ensures
        r == is_blank(s@),
{
    let cs = chars_of(s);
    let mut i: usize = 0;
    while i < cs.len()
        invariant
            i <= cs@.len(),
            cs@ == s@,
            forall|k: int| 0 <= k < i ==> is_white_space(#[trigger] s@[k]),
        decreases cs@.len() - i,
    {
        if !white_space(cs[i]) {
            return false;
        }
        i = i + 1;
    }
    true
}

} // verus!
