//! Character-level helpers shared by the other modules.

use vstd::prelude::*;

verus! {

/// The characters of `s`, in order.
pub fn str_chars(s: &str) -> (r: Vec<char>)
    ensures
        r@ == s@,
{
    let mut r: Vec<char> = Vec::new();
    for c in it: s.chars()
        invariant
            r@ == it.seq().take(it.index()),
    {
        r.push(c);
    }
    r
}

/// Appends one character to a `String` (`String::push`).
#[verifier::external_body]
pub(crate) fn push_char(s: &mut String, c: char)
    ensures
        final(s)@ == old(s)@.push(c),
{
    s.push(c);
}

/// A `String` holding exactly the characters of `cs`.
pub fn string_from_chars(cs: &[char]) -> (r: String)
    ensures
        r@ == cs@,
{
    let mut r = String::new();
    let mut i: usize = 0;
    while i < cs.len()
        invariant
            i <= cs@.len(),
            r@ == cs@.take(i as int),
        decreases cs@.len() - i,
    {
        push_char(&mut r, cs[i]);
        i += 1;
        assert(cs@.take(i as int) =~= cs@.take(i - 1).push(cs@[i - 1]));
    }
    assert(cs@.take(cs@.len() as int) =~= cs@);
    r
}

/// Whether `a[lo..hi]` holds exactly the characters of `b`.
pub fn range_eq(a: &[char], lo: usize, hi: usize, b: &[char]) -> (r: bool)
    requires
        lo <= hi <= a@.len(),
    ensures
        r == (a@.subrange(lo as int, hi as int) == b@),
{
    if hi - lo != b.len() {
        return false;
    }
    let mut i: usize = 0;
    while i < b.len()
        invariant
            hi - lo == b@.len(),
            lo <= hi <= a@.len(),
            i <= b@.len(),
            forall|k: int| 0 <= k < i ==> a@[lo + k] == b@[k],
        decreases b@.len() - i,
    {
        if a[lo + i] != b[i] {
            assert(a@.subrange(lo as int, hi as int)[i as int] != b@[i as int]);
            return false;
        }
        i += 1;
    }
    assert(a@.subrange(lo as int, hi as int) =~= b@);
    true
}

/// Whether two character slices are equal.
pub fn chars_eq(a: &[char], b: &[char]) -> (r: bool)
    ensures
        r == (a@ == b@),
{
    let r = range_eq(a, 0, a.len(), b);
    assert(a@.subrange(0, a@.len() as int) =~= a@);
    r
}

/// Whether two strings hold the same characters.
pub fn str_eq(a: &str, b: &str) -> (r: bool)
    ensures
        r == (a@ == b@),
{
    let ca = str_chars(a);
    let cb = str_chars(b);
    chars_eq(ca.as_slice(), cb.as_slice())
}

/// Unicode `White_Space`, as `char::is_whitespace` documents it.
pub open spec fn is_space(c: char) -> bool {
    ||| '\u{9}' <= c <= '\u{d}'
    ||| c == ' '
    ||| c == '\u{85}'
    ||| c == '\u{a0}'
    ||| c == '\u{1680}'
    ||| '\u{2000}' <= c <= '\u{200a}'
    ||| c == '\u{2028}'
    ||| c == '\u{2029}'
    ||| c == '\u{202f}'
    ||| c == '\u{205f}'
    ||| c == '\u{3000}'
}

/// Executable form of [`is_space`].
pub fn char_is_space(c: char) -> (r: bool)
    ensures
        r == is_space(c),
{
    ('\u{9}' <= c && c <= '\u{d}') || c == ' ' || c == '\u{85}' || c == '\u{a0}' || c
        == '\u{1680}' || ('\u{2000}' <= c && c <= '\u{200a}') || c == '\u{2028}' || c
        == '\u{2029}' || c == '\u{202f}' || c == '\u{205f}' || c == '\u{3000}'
}

/// `s` without its leading whitespace.
pub open spec fn trim_start(s: Seq<char>) -> Seq<char>
    decreases s.len(),
{
    if s.len() > 0 && is_space(s[0]) {
        trim_start(s.drop_first())
    } else {
        s
    }
}

/// `s` without its trailing whitespace.
pub open spec fn trim_end(s: Seq<char>) -> Seq<char>
    decreases s.len(),
{
    if s.len() > 0 && is_space(s.last()) {
        trim_end(s.drop_last())
    } else {
        s
    }
}

/// `s` without leading and trailing whitespace (`str::trim`).
pub open spec fn trim(s: Seq<char>) -> Seq<char> {
    trim_end(trim_start(s))
}

/// `s` without its trailing carriage returns (`str::trim_end_matches('\r')`).
pub open spec fn trim_end_cr(s: Seq<char>) -> Seq<char>
    decreases s.len(),
{
    if s.len() > 0 && s.last() == '\r' {
        trim_end_cr(s.drop_last())
    } else {
        s
    }
}

/// The bounds `(lo, hi)` of `cs[lo0..hi0]` without its trailing carriage
/// returns and then without leading and trailing whitespace.
pub fn cr_and_trim_bounds(cs: &[char], lo0: usize, hi0: usize) -> (r: (usize, usize, usize))
    requires
        lo0 <= hi0 <= cs@.len(),
    ensures
        lo0 <= r.1 <= r.2 <= r.0 <= hi0,
        cs@.subrange(lo0 as int, r.0 as int) == trim_end_cr(cs@.subrange(lo0 as int, hi0 as int)),
        cs@.subrange(r.1 as int, r.2 as int) == trim(
            trim_end_cr(cs@.subrange(lo0 as int, hi0 as int)),
        ),
{
    let ghost line = cs@.subrange(lo0 as int, hi0 as int);
    let mut end = hi0;
    while end > lo0 && cs[end - 1] == '\r'
        invariant
            lo0 <= end <= hi0 <= cs@.len(),
            line == cs@.subrange(lo0 as int, hi0 as int),
            trim_end_cr(line) == trim_end_cr(cs@.subrange(lo0 as int, end as int)),
        decreases end,
    {
        proof {
            let cur = cs@.subrange(lo0 as int, end as int);
            assert(cur.drop_last() =~= cs@.subrange(lo0 as int, end - 1));
        }
        end -= 1;
    }
    proof {
        let cur = cs@.subrange(lo0 as int, end as int);
        assert(!(cur.len() > 0 && cur.last() == '\r'));
    }
    let ghost body = cs@.subrange(lo0 as int, end as int);
    let mut lo = lo0;
    while lo < end && char_is_space(cs[lo])
        invariant
            lo0 <= lo <= end <= cs@.len(),
            body == cs@.subrange(lo0 as int, end as int),
            trim_start(body) == trim_start(cs@.subrange(lo as int, end as int)),
        decreases end - lo,
    {
        proof {
            let cur = cs@.subrange(lo as int, end as int);
            assert(cur.drop_first() =~= cs@.subrange(lo + 1, end as int));
        }
        lo += 1;
    }
    proof {
        let cur = cs@.subrange(lo as int, end as int);
        assert(!(cur.len() > 0 && is_space(cur[0])));
    }
    let ghost front = cs@.subrange(lo as int, end as int);
    let mut hi = end;
    while hi > lo && char_is_space(cs[hi - 1])
        invariant
            lo <= hi <= end <= cs@.len(),
            front == cs@.subrange(lo as int, end as int),
            trim_end(front) == trim_end(cs@.subrange(lo as int, hi as int)),
        decreases hi,
    {
        proof {
            let cur = cs@.subrange(lo as int, hi as int);
            assert(cur.drop_last() =~= cs@.subrange(lo as int, hi - 1));
        }
        hi -= 1;
    }
    proof {
        let cur = cs@.subrange(lo as int, hi as int);
        assert(!(cur.len() > 0 && is_space(cur.last())));
    }
    (end, lo, hi)
}

/// Appends the characters of `s` to `out`.
pub fn append_str(out: &mut String, s: &str)
    ensures
        final(out)@ == old(out)@ + s@,
{
    let cs = str_chars(s);
    let ghost start = out@;
    let mut i: usize = 0;
    while i < cs.len()
        invariant
            i <= cs@.len(),
            cs@ == s@,
            out@ == start + cs@.take(i as int),
        decreases cs@.len() - i,
    {
        push_char(out, cs[i]);
        i += 1;
        assert(cs@.take(i as int) =~= cs@.take(i - 1).push(cs@[i - 1]));
    }
    assert(cs@.take(cs@.len() as int) =~= cs@);
}

/// A `String` holding the characters of `s`.
pub fn string_of(s: &str) -> (r: String)
    ensures
        r@ == s@,
{
    let mut r = String::new();
    append_str(&mut r, s);
    r
}

/// Whether `s` ends with a newline.
pub open spec fn ends_with_newline(s: Seq<char>) -> bool {
    s.len() > 0 && s.last() == '\n'
}

/// Whether `s` ends with a newline.
pub fn str_ends_with_newline(s: &str) -> (r: bool)
    ensures
        r == ends_with_newline(s@),
{
    let cs = str_chars(s);
    cs.len() > 0 && cs[cs.len() - 1] == '\n'
}

} // verus!
