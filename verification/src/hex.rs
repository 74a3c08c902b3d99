//! Upper-case hexadecimal rendering of integers, as `{:0wX}` formats them.

use vstd::prelude::*;
use crate::text::{push_char, str_chars};

verus! {

/// The upper-case hexadecimal digit for `d < 16`.
pub open spec fn hex_digit(d: nat) -> char {
    if d < 10 {
        (('0' as nat) + d) as char
    } else {
        (('A' as nat) + (d - 10)) as char
    }
}

/// The upper-case hexadecimal digits of `v`, most significant first, with
/// no leading zeros (`"0"` for zero).
pub open spec fn hex_text(v: nat) -> Seq<char>
    decreases v,
{
    if v < 16 {
        seq![hex_digit(v)]
    } else {
        hex_text(v / 16).push(hex_digit(v % 16))
    }
}

/// `hex_text(v)` left-padded with zeros to at least `width` characters.
pub open spec fn padded_hex(v: nat, width: nat) -> Seq<char> {
    let digits = hex_text(v);
    if digits.len() < width {
        Seq::new((width - digits.len()) as nat, |_i: int| '0') + digits
    } else {
        digits
    }
}

fn digit_char(d: u32) -> (c: char)
    requires
        d < 16,
    ensures
        c == hex_digit(d as nat),
{
    let table = str_chars("0123456789ABCDEF");
    proof {
        reveal_strlit("0123456789ABCDEF");
    }
    table[d as usize]
}

/// `v` in upper-case hexadecimal, left-padded with zeros to at least
/// `width` digits (what `format!("{:0width$X}", v)` prints).
pub fn hex_upper(v: u32, width: usize) -> (r: String)
    ensures
        r@ == padded_hex(v as nat, width as nat),
{
    let mut rest = v;
    let mut tail: Vec<char> = Vec::new();
    while rest >= 16
        invariant
            hex_text(v as nat) == hex_text(rest as nat) + tail@,
        decreases rest,
    {
        let d = digit_char(rest % 16);
        proof {
            assert(hex_text(rest as nat) == hex_text((rest / 16) as nat).push(d));
            assert(hex_text((rest / 16) as nat) + (seq![d] + tail@) =~= hex_text((rest / 16) as nat).push(d) + tail@);
        }
        tail.insert(0, d);
        rest = rest / 16;
    }
    let first = digit_char(rest);
    tail.insert(0, first);
    proof {
        assert(hex_text(rest as nat) == seq![first]);
        assert(tail@ =~= hex_text(v as nat));
    }
    let mut out = String::new();
    let mut k = tail.len();
    while k < width
        invariant
            tail@ == hex_text(v as nat),
            tail@.len() <= k,
            k <= width || k == tail@.len(),
            out@ == Seq::new((k - tail@.len()) as nat, |_i: int| '0'),
        decreases width - k,
    {
        push_char(&mut out, '0');
        k += 1;
        assert(out@ =~= Seq::new((k - tail@.len()) as nat, |_i: int| '0'));
    }
    let ghost zeros = out@;
    let mut i: usize = 0;
    while i < tail.len()
        invariant
            i <= tail@.len(),
            out@ == zeros + tail@.take(i as int),
        decreases tail@.len() - i,
    {
        push_char(&mut out, tail[i]);
        i += 1;
        assert(tail@.take(i as int) =~= tail@.take(i - 1).push(tail@[i - 1]));
    }
    proof {
        assert(tail@.take(tail@.len() as int) =~= tail@);
        if tail@.len() < width {
            assert(out@ =~= padded_hex(v as nat, width as nat));
        } else {
            assert(zeros =~= Seq::<char>::empty());
            assert(out@ =~= padded_hex(v as nat, width as nat));
        }
    }
    out
}

} // verus!
