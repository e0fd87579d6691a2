//! Decimal and hexadecimal text for unsigned integers: parsing with the
//! `str::parse::<u64>` rules and the `{}` / `{:0N}` / `{:0Nx}` renderings.

use vstd::prelude::*;
use crate::text::{all_digits, char_is_digit, is_ascii_digit, string_of};

verus! {

pub open spec fn digit_value(c: char) -> nat {
    ((c as u32) - ('0' as u32)) as nat
}

/// Value of a run of decimal digits, most significant first.
pub open spec fn digits_value(s: Seq<char>) -> nat
    decreases s.len(),
{
    if s.len() == 0 {
        0
    } else {
        digits_value(s.drop_last()) * 10 + digit_value(s.last())
    }
}

/// The digits `str::parse` reads: one optional leading `+`, then the rest.
pub open spec fn unsigned_body(s: Seq<char>) -> Seq<char> {
    if s.len() > 0 && s[0] == '+' {
        s.drop_first()
    } else {
        s
    }
}

/// `str::parse::<u64>`: an optional `+`, at least one ASCII digit, no
/// other char, and a value that fits.
pub open spec fn parse_u64_spec(s: Seq<char>) -> Option<u64> {
    let d = unsigned_body(s);
    if d.len() > 0 && all_digits(d) && digits_value(d) <= u64::MAX {
        Some(digits_value(d) as u64)
    } else {
        None
    }
}

/// `str::parse::<usize>`, same grammar as [`parse_u64_spec`].
pub open spec fn parse_usize_spec(s: Seq<char>) -> Option<usize> {
    let d = unsigned_body(s);
    if d.len() > 0 && all_digits(d) && digits_value(d) <= usize::MAX {
        Some(digits_value(d) as usize)
    } else {
        None
    }
}

pub open spec fn dec_digit(n: nat) -> char {
    (('0' as u32) + n) as char
}

/// Shortest decimal rendering of `n` (`format!("{n}")`).
pub open spec fn dec(n: nat) -> Seq<char>
    decreases n,
{
    if n < 10 {
        seq![dec_digit(n)]
    } else {
        dec(n / 10).push(dec_digit(n % 10))
    }
}

/// `s` left-padded with `c` up to `width` chars (`{:0width}`).
pub open spec fn pad_left(s: Seq<char>, width: nat, c: char) -> Seq<char> {
    if s.len() >= width {
        s
    } else {
        Seq::new((width - s.len()) as nat, |i: int| c) + s
    }
}

pub open spec fn hex_digit_lower(n: nat) -> char {
    if n < 10 {
        dec_digit(n)
    } else {
        (('a' as u32) + (n - 10)) as char
    }
}

pub open spec fn hex_digit_upper(n: nat) -> char {
    if n < 10 {
        dec_digit(n)
    } else {
        (('A' as u32) + (n - 10)) as char
    }
}

/// The low `k` hex digits of `n`, most significant first.
pub open spec fn hex_fixed(n: nat, k: nat, upper: bool) -> Seq<char>
    decreases k,
{
    if k == 0 {
        Seq::empty()
    } else {
        hex_fixed(n / 16, (k - 1) as nat, upper).push(
            if upper {
                hex_digit_upper(n % 16)
            } else {
                hex_digit_lower(n % 16)
            },
        )
    }
}

proof fn lemma_digits_value_grows(s: Seq<char>, i: int)
    requires
        0 <= i <= s.len(),
    ensures
        digits_value(s.take(i)) <= digits_value(s),
    decreases s.len() - i,
{
    if i < s.len() {
        assert(s.drop_last().take(i) =~= s.take(i));
        lemma_digits_value_grows(s.drop_last(), i);
    } else {
        assert(s.take(i) =~= s);
    }
}

/// Digits of `v[from..]` as a value no larger than `limit`, if they are all
/// digits, there is at least one, and the value fits.
fn digits_upto(v: &Vec<char>, from: usize, limit: u64) -> (r: Option<u64>)
    requires
        from <= v.len(),
    ensures
        ({
            let d = v@.skip(from as int);
            match r {
                Some(x) => d.len() > 0 && all_digits(d) && digits_value(d) <= limit && x
                    == digits_value(d),
                None => !(d.len() > 0 && all_digits(d) && digits_value(d) <= limit),
            }
        }),
{
    let ghost d = v@.skip(from as int);
    if from == v.len() {
        return None;
    }
    let mut acc: u64 = 0;
    let mut i: usize = from;
    while i < v.len()
        invariant
            from <= i <= v.len(),
            d == v@.skip(from as int),
            all_digits(d.take(i - from)),
            acc == digits_value(d.take(i - from)),
            acc <= limit,
        decreases v.len() - i,
    {
        let c = v[i];
        if !char_is_digit(c) {
            assert(!is_ascii_digit(d[i - from]));
            return None;
        }
        let dv: u64 = ((c as u32) - ('0' as u32)) as u64;
        proof {
            assert(d.take(i - from + 1).drop_last() =~= d.take(i - from));
            assert(d.take(i - from + 1).last() == c);
        }
        if dv > limit || acc > (limit - dv) / 10 {
            proof {
                assert(digits_value(d.take(i - from + 1)) == acc * 10 + dv);
                lemma_digits_value_grows(d, i - from + 1);
            }
            return None;
        }
        acc = acc * 10 + dv;
        i += 1;
    }
    assert(d.take(i - from) =~= d);
    Some(acc)
}

pub fn parse_u64(v: &Vec<char>) -> (r: Option<u64>)
    ensures
        r == parse_u64_spec(v@),
{
    let from: usize = if v.len() > 0 && v[0] == '+' {
        1
    } else {
        0
    };
    proof {
        assert(v@.skip(from as int) =~= unsigned_body(v@));
    }
    digits_upto(v, from, u64::MAX)
}

pub fn parse_usize(v: &Vec<char>) -> (r: Option<usize>)
    ensures
        r == parse_usize_spec(v@),
{
    let from: usize = if v.len() > 0 && v[0] == '+' {
        1
    } else {
        0
    };
    proof {
        assert(v@.skip(from as int) =~= unsigned_body(v@));
    }
    match digits_upto(v, from, usize::MAX as u64) {
        Some(x) => Some(x as usize),
        None => None,
    }
}

fn digit_char(n: u64) -> (c: char)
    requires
        n < 10,
    ensures
        c == dec_digit(n as nat),
{
    let b: u8 = (n as u8) + 48;
    b as char
}

/// `format!("{n}")`.
pub fn dec_chars(n: u64) -> (r: Vec<char>)
    ensures
        r@ == dec(n as nat),
    decreases n,
{
    if n < 10 {
        let mut r: Vec<char> = Vec::new();
        r.push(digit_char(n));
        assert(r@ =~= seq![dec_digit(n as nat)]);
        r
    } else {
        let mut r = dec_chars(n / 10);
        r.push(digit_char(n % 10));
        r
    }
}

pub fn dec_string(n: u64) -> (r: String)
    ensures
        r@ == dec(n as nat),
{
    let v = dec_chars(n);
    string_of(v.as_slice())
}

pub fn pad_left_vec(v: &Vec<char>, width: usize, c: char) -> (r: Vec<char>)
    ensures
        r@ == pad_left(v@, width as nat, c),
{
    if v.len() >= width {
        return v.clone();
    }
    let mut r: Vec<char> = Vec::new();
    let fill: usize = width - v.len();
    let mut i: usize = 0;
    while i < fill
        invariant
            i <= fill,
            r@ == Seq::new(i as nat, |j: int| c),
        decreases fill - i,
    {
        r.push(c);
        i += 1;
        assert(r@ =~= Seq::new(i as nat, |j: int| c));
    }
    let mut k: usize = 0;
    while k < v.len()
        invariant
            k <= v.len(),
            r@ == Seq::new(fill as nat, |j: int| c) + v@.take(k as int),
        decreases v.len() - k,
    {
        r.push(v[k]);
        proof {
            assert(v@.take(k + 1) =~= v@.take(k as int).push(v@[k as int]));
        }
        k += 1;
        assert(r@ =~= Seq::new(fill as nat, |j: int| c) + v@.take(k as int));
    }
    assert(v@.take(v.len() as int) =~= v@);
    r
}

fn hex_char(n: u64, upper: bool) -> (c: char)
    requires
        n < 16,
    ensures
        c == (if upper {
            hex_digit_upper(n as nat)
        } else {
            hex_digit_lower(n as nat)
        }),
{
    if n < 10 {
        digit_char(n)
    } else if upper {
        let b: u8 = (n as u8) + 55;
        b as char
    } else {
        let b: u8 = (n as u8) + 87;
        b as char
    }
}

/// The low `k` hex digits of `n`: `{n:0kx}` / `{n:0kX}` when `n < 16^k`.
pub fn hex_fixed_chars(n: u64, k: usize, upper: bool) -> (r: Vec<char>)
    ensures
        r@ == hex_fixed(n as nat, k as nat, upper),
    decreases k,
{
    if k == 0 {
        let r: Vec<char> = Vec::new();
        assert(r@ =~= Seq::<char>::empty());
        r
    } else {
        let mut r = hex_fixed_chars(n / 16, k - 1, upper);
        r.push(hex_char(n % 16, upper));
        r
    }
}


proof fn lemma_digit_roundtrip(k: nat)
    requires
        k < 10,
    ensures
        digit_value(dec_digit(k)) == k,
        is_ascii_digit(dec_digit(k)),
        dec_digit(k) != '+',
{
    let c = dec_digit(k);
    assert(c as u32 == 48 + k);
}

/// The decimal rendering is a non-empty run of digits worth `n`.
pub proof fn lemma_dec_digits(n: nat)
    ensures
        dec(n).len() > 0,
        all_digits(dec(n)),
        digits_value(dec(n)) == n,
        dec(n)[0] != '+',
    decreases n,
{
    if n < 10 {
        lemma_digit_roundtrip(n);
        assert(dec(n) == seq![dec_digit(n)]);
        assert(dec(n).drop_last() =~= Seq::<char>::empty());
        assert(digits_value(Seq::<char>::empty()) == 0);
        assert(dec(n).last() == dec_digit(n));
    } else {
        lemma_digit_roundtrip(n % 10);
        lemma_dec_digits(n / 10);
        let p = dec(n / 10);
        assert(dec(n) == p.push(dec_digit(n % 10)));
        assert(dec(n).drop_last() =~= p);
        assert(dec(n)[0] == p[0]);
        assert(dec(n).last() == dec_digit(n % 10));
        assert(digits_value(dec(n)) == (n / 10) * 10 + n % 10);
        assert forall|i: int| 0 <= i < dec(n).len() implies is_ascii_digit(#[trigger] dec(n)[i]) by {
            if i < p.len() {
                assert(dec(n)[i] == p[i]);
            }
        }
    }
}

} // verus!
