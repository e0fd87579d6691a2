//! Proleptic Gregorian calendar arithmetic for UTC timestamps: which day,
//! month and year a count of days since 1970-01-01 falls on.

use vstd::prelude::*;
use crate::num::{dec, dec_chars, dec_digit, pad_left, pad_left_vec};
use crate::text::{string_of};
use vstd::seq_lib::lemma_concat_associative;

verus! {

pub open spec fn is_leap(y: int) -> bool {
    (y % 4 == 0 && y % 100 != 0) || y % 400 == 0
}

pub open spec fn year_days(y: int) -> int {
    if is_leap(y) {
        366
    } else {
        365
    }
}

pub open spec fn month_days(y: int, m: int) -> int {
    if m == 2 {
        if is_leap(y) {
            29
        } else {
            28
        }
    } else if m == 4 || m == 6 || m == 9 || m == 11 {
        30
    } else {
        31
    }
}

/// Days from 1970-01-01 to January 1st of `y`.
pub open spec fn days_before_year(y: int) -> int
    decreases y - 1970,
{
    if y <= 1970 {
        0
    } else {
        days_before_year(y - 1) + year_days(y - 1)
    }
}

/// Days from January 1st to the first day of month `m` of year `y`.
pub open spec fn days_before_month(y: int, m: int) -> int
    decreases m,
{
    if m <= 1 {
        0
    } else {
        days_before_month(y, m - 1) + month_days(y, m - 1)
    }
}

pub open spec fn valid_date(y: int, m: int, d: int) -> bool {
    y >= 1970 && 1 <= m <= 12 && 1 <= d <= month_days(y, m)
}

/// The day number (0 = 1970-01-01) of a date.
pub open spec fn day_number(y: int, m: int, d: int) -> int {
    days_before_year(y) + days_before_month(y, m) + d - 1
}

/// Leap years in `1..=n`.
pub open spec fn leaps_through(n: int) -> int {
    n / 4 - n / 100 + n / 400
}

proof fn lemma_leap_step(y: int)
    requires
        y >= 1,
    ensures
        leaps_through(y) - leaps_through(y - 1) == (if is_leap(y) {
            1int
        } else {
            0
        }),
{
    assert(y / 4 - (y - 1) / 4 == (if y % 4 == 0 {
        1int
    } else {
        0
    })) by (nonlinear_arith)
        requires
            y >= 1,
    ;
    assert(y / 100 - (y - 1) / 100 == (if y % 100 == 0 {
        1int
    } else {
        0
    })) by (nonlinear_arith)
        requires
            y >= 1,
    ;
    assert(y / 400 - (y - 1) / 400 == (if y % 400 == 0 {
        1int
    } else {
        0
    })) by (nonlinear_arith)
        requires
            y >= 1,
    ;
    if y % 400 == 0 {
        assert(y % 100 == 0 && y % 4 == 0) by (nonlinear_arith)
            requires
                y % 400 == 0,
        ;
    } else if y % 100 == 0 {
        assert(y % 4 == 0) by (nonlinear_arith)
            requires
                y % 100 == 0,
        ;
    }
}

/// The closed form: 365 days a year plus the leap days in between.
pub proof fn lemma_days_before_year(y: int)
    requires
        y >= 1970,
    ensures
        days_before_year(y) == 365 * (y - 1970) + leaps_through(y - 1) - leaps_through(1969),
    decreases y - 1970,
{
    if y > 1970 {
        lemma_days_before_year(y - 1);
        lemma_leap_step(y - 1);
    }
}

/// Any 400 consecutive years hold 146097 days.
pub proof fn lemma_four_centuries(y: int)
    requires
        y >= 1970,
    ensures
        days_before_year(y + 400) == days_before_year(y) + 146097,
{
    lemma_days_before_year(y);
    lemma_days_before_year(y + 400);
    let n = y - 1;
    assert((n + 400) / 4 == n / 4 + 100 && (n + 400) / 100 == n / 100 + 4 && (n + 400) / 400 == n
        / 400 + 1) by (nonlinear_arith)
        requires
            n >= 0,
    ;
}

pub proof fn lemma_eras(q: nat)
    ensures
        days_before_year(1970 + 400 * q as int) == 146097 * q,
    decreases q,
{
    if q > 0 {
        lemma_eras((q - 1) as nat);
        lemma_four_centuries(1970 + 400 * (q - 1));
        assert(1970 + 400 * (q - 1) + 400 == 1970 + 400 * q as int);
    }
}

proof fn lemma_months(y: int)
    ensures
        days_before_month(y, 12) + 31 == year_days(y),
        forall|m: int| 1 <= m <= 12 ==> 28 <= #[trigger] month_days(y, m) <= 31,
{
    reveal_with_fuel(days_before_month, 13);
}

proof fn lemma_months_nonneg(y: int, m: int)
    ensures
        days_before_month(y, m) >= 0,
    decreases m,
{
    if m > 1 {
        lemma_months_nonneg(y, m - 1);
    }
}

proof fn lemma_months_ordered(y: int, m1: int, m2: int)
    requires
        1 <= m1 < m2,
    ensures
        days_before_month(y, m1) + month_days(y, m1) <= days_before_month(y, m2),
    decreases m2,
{
    if m2 > m1 + 1 {
        lemma_months_ordered(y, m1, m2 - 1);
    }
}

proof fn lemma_years_ordered(y1: int, y2: int)
    requires
        1970 <= y1 < y2,
    ensures
        days_before_year(y1) + year_days(y1) <= days_before_year(y2),
    decreases y2,
{
    if y2 > y1 + 1 {
        lemma_years_ordered(y1, y2 - 1);
    }
}

/// A valid date lies within its year: its day number is below the first
/// day of the next year.
proof fn lemma_within_year(y: int, m: int, d: int)
    requires
        valid_date(y, m, d),
    ensures
        day_number(y, m, d) < days_before_year(y) + year_days(y),
{
    lemma_months(y);
    if m < 12 {
        lemma_months_ordered(y, m, 12);
    }
}

/// Each day number names one calendar date: two valid dates with the same
/// day number are the same date. So the date `civil_from_days` gives, and
/// the text `epoch_to_iso8601` prints, are the only ones their contracts
/// allow.
pub proof fn lemma_day_number_injective(y1: int, m1: int, d1: int, y2: int, m2: int, d2: int)
    requires
        valid_date(y1, m1, d1),
        valid_date(y2, m2, d2),
        day_number(y1, m1, d1) == day_number(y2, m2, d2),
    ensures
        y1 == y2,
        m1 == m2,
        d1 == d2,
{
    lemma_months_nonneg(y1, m1);
    lemma_months_nonneg(y2, m2);
    if y1 < y2 {
        lemma_within_year(y1, m1, d1);
        lemma_years_ordered(y1, y2);
    } else if y2 < y1 {
        lemma_within_year(y2, m2, d2);
        lemma_years_ordered(y2, y1);
    } else if m1 < m2 {
        lemma_months_ordered(y1, m1, m2);
    } else if m2 < m1 {
        lemma_months_ordered(y1, m2, m1);
    }
}

fn leap(y: u64) -> (r: bool)
    ensures
        r == is_leap(y as int),
{
    (y % 4 == 0 && y % 100 != 0) || y % 400 == 0
}

fn year_len(y: u64) -> (r: u64)
    ensures
        r as int == year_days(y as int),
{
    if leap(y) {
        366
    } else {
        365
    }
}

fn month_len(y: u64, m: u64) -> (r: u64)
    ensures
        r as int == month_days(y as int, m as int),
{
    if m == 2 {
        if leap(y) {
            29
        } else {
            28
        }
    } else if m == 4 || m == 6 || m == 9 || m == 11 {
        30
    } else {
        31
    }
}

/// The date of day number `days`.
pub fn civil_from_days(days: u64) -> (r: (u64, u64, u64))
    ensures
        valid_date(r.0 as int, r.1 as int, r.2 as int),
        day_number(r.0 as int, r.1 as int, r.2 as int) == days,
{
    let q = days / 146097;
    let rem0 = days % 146097;
    proof {
        lemma_eras(q as nat);
        assert(q * 400 <= 0xffff_ffff_ffff_ffffu64 / 146097 * 400) by (nonlinear_arith)
            requires
                q == days / 146097,
                days <= 0xffff_ffff_ffff_ffff,
        ;
    }
    let y0: u64 = 1970 + 400 * q;
    let mut year: u64 = y0;
    let mut rem: u64 = rem0;
    while rem >= year_len(year)
        invariant
            y0 == 1970 + 400 * q,
            y0 <= year,
            days_before_year(y0 as int) == 146097 * q,
            days_before_year(year as int) + rem == days_before_year(y0 as int) + rem0,
            rem <= rem0 < 146097,
            (year - y0) * 365 <= rem0 - rem,
            y0 <= 1970 + 400 * (0xffff_ffff_ffff_ffffu64 / 146097),
            q * 146097 + rem0 == days,
        decreases rem,
    {
        let n = year_len(year);
        rem = rem - n;
        year = year + 1;
    }
    proof {
        lemma_months(year as int);
    }
    let mut month: u64 = 1;
    let rem_y = rem;
    while rem >= month_len(year, month)
        invariant
            1 <= month <= 12,
            days_before_month(year as int, month as int) + rem == rem_y,
            rem_y < year_days(year as int),
            days_before_month(year as int, 12) + 31 == year_days(year as int),
            forall|m: int| 1 <= m <= 12 ==> 28 <= #[trigger] month_days(year as int, m) <= 31,
        decreases rem,
    {
        let n = month_len(year, month);
        if month == 12 {
            assert(false);
        }
        rem = rem - n;
        month = month + 1;
    }
    (year, month, rem + 1)
}

/// `YYYY-MM-DDTHH:MM:SSZ`, each field zero-padded (the year to at least
/// four digits).
pub open spec fn iso_text(y: nat, mo: nat, d: nat, h: nat, mi: nat, s: nat) -> Seq<char> {
    pad_left(dec(y), 4, '0') + "-"@ + pad_left(dec(mo), 2, '0') + "-"@ + pad_left(dec(d), 2, '0')
        + "T"@ + pad_left(dec(h), 2, '0') + ":"@ + pad_left(dec(mi), 2, '0') + ":"@ + pad_left(
        dec(s),
        2,
        '0',
    ) + "Z"@
}

pub fn padded(n: u64, width: usize) -> (r: String)
    ensures
        r@ == pad_left(dec(n as nat), width as nat, '0'),
{
    let v = pad_left_vec(&dec_chars(n), width, '0');
    string_of(v.as_slice())
}


/// `a` sorts before `b` as text: at the first position where they differ,
/// `a` holds the smaller char.
pub open spec fn text_before(a: Seq<char>, b: Seq<char>) -> bool {
    exists|i: int|
        0 <= i < a.len() && i < b.len() && a.take(i) == b.take(i) && (a[i] as u32) < (#[trigger] b[i] as u32)
}

/// Calendar order of two dates.
pub open spec fn date_before(y1: int, m1: int, d1: int, y2: int, m2: int, d2: int) -> bool {
    y1 < y2 || (y1 == y2 && (m1 < m2 || (m1 == m2 && d1 < d2)))
}

/// Dates in calendar order have day numbers in that order.
pub proof fn lemma_date_order(y1: int, m1: int, d1: int, y2: int, m2: int, d2: int)
    requires
        valid_date(y1, m1, d1),
        valid_date(y2, m2, d2),
        date_before(y1, m1, d1, y2, m2, d2),
    ensures
        day_number(y1, m1, d1) < day_number(y2, m2, d2),
{
    lemma_months_nonneg(y2, m2);
    if y1 < y2 {
        lemma_within_year(y1, m1, d1);
        lemma_years_ordered(y1, y2);
    } else if m1 < m2 {
        lemma_months_ordered(y1, m1, m2);
    }
}

/// A valid date numbered at most 2932896 (9999-12-31) has a four-digit year.
pub proof fn lemma_four_digit_year(y: int, m: int, d: int)
    requires
        valid_date(y, m, d),
        day_number(y, m, d) <= 2932896,
    ensures
        y <= 9999,
{
    if y > 9999 {
        lemma_days_before_year(10000);
        if y > 10000 {
            lemma_years_ordered(10000, y);
        }
        lemma_months_nonneg(y, m);
    }
}

pub open spec fn p10(w: nat) -> nat
    decreases w,
{
    if w == 0 {
        1
    } else {
        10 * p10((w - 1) as nat)
    }
}

/// The last `w` decimal digits of `n`, most significant first.
pub open spec fn fixed(n: nat, w: nat) -> Seq<char>
    decreases w,
{
    if w == 0 {
        Seq::empty()
    } else {
        fixed(n / 10, (w - 1) as nat).push(dec_digit(n % 10))
    }
}

proof fn lemma_fixed_len(n: nat, w: nat)
    ensures
        fixed(n, w).len() == w,
    decreases w,
{
    if w > 0 {
        lemma_fixed_len(n / 10, (w - 1) as nat);
    }
}

proof fn lemma_fixed_zero(w: nat)
    ensures
        fixed(0, w) == Seq::new(w, |i: int| '0'),
    decreases w,
{
    if w > 0 {
        lemma_fixed_zero((w - 1) as nat);
        assert(fixed(0, w) =~= Seq::new(w, |i: int| '0'));
    }
}

proof fn lemma_dec_len(n: nat, k: nat)
    requires
        n < p10(k),
        k >= 1,
    ensures
        dec(n).len() <= k,
    decreases n,
{
    if n >= 10 {
        let k1 = (k - 1) as nat;
        assert(p10(k) == 10 * p10(k1));
        assert(n / 10 < p10(k1)) by (nonlinear_arith)
            requires
                n < 10 * p10(k1),
        ;
        if k1 == 0 {
            assert(p10(1) == 10) by {
                reveal_with_fuel(p10, 2);
            }
        }
        lemma_dec_len(n / 10, k1);
    }
}

/// Zero-padding a number below `10^w` to `w` digits gives its last `w`
/// digits.
proof fn lemma_fixed_pad(n: nat, w: nat)
    requires
        n < p10(w),
        w >= 1,
    ensures
        pad_left(dec(n), w, '0') == fixed(n, w),
    decreases w,
{
    let w1 = (w - 1) as nat;
    if n < 10 {
        lemma_fixed_zero(w1);
        assert(pad_left(dec(n), w, '0') =~= fixed(n, w));
    } else {
        assert(p10(w) == 10 * p10(w1));
        assert(n / 10 < p10(w1)) by (nonlinear_arith)
            requires
                n < 10 * p10(w1),
        ;
        if w1 == 0 {
            assert(p10(1) == 10) by {
                reveal_with_fuel(p10, 2);
            }
        }
        lemma_fixed_pad(n / 10, w1);
        lemma_dec_len(n / 10, w1);
        assert(pad_left(dec(n), w, '0') =~= fixed(n, w));
    }
}

/// Pushing onto two texts keeps the order of the texts.
proof fn lemma_before_push(a: Seq<char>, b: Seq<char>, x: char, y: char)
    requires
        text_before(a, b),
    ensures
        text_before(a.push(x), b.push(y)),
{
    let i = choose|i: int|
        0 <= i < a.len() && i < b.len() && a.take(i) == b.take(i) && (a[i] as u32) < (#[trigger] b[i] as u32);
    assert(a.push(x).take(i) =~= a.take(i));
    assert(b.push(y).take(i) =~= b.take(i));
    assert(a.push(x)[i] == a[i] && b.push(y)[i] == b[i]);
}

/// Fixed-width digits sort as the numbers do.
proof fn lemma_fixed_order(n1: nat, n2: nat, w: nat)
    requires
        n1 < n2 < p10(w),
    ensures
        text_before(fixed(n1, w), fixed(n2, w)),
    decreases w,
{
    if w == 0 {
        assert(false);
    } else {
        let w1 = (w - 1) as nat;
        assert(p10(w) == 10 * p10(w1));
        assert(n1 / 10 <= n2 / 10 && n2 / 10 < p10(w1)) by (nonlinear_arith)
            requires
                n1 < n2 < 10 * p10(w1),
        ;
        if n1 / 10 < n2 / 10 {
            lemma_fixed_order(n1 / 10, n2 / 10, w1);
            lemma_before_push(fixed(n1 / 10, w1), fixed(n2 / 10, w1), dec_digit(n1 % 10), dec_digit(n2 % 10));
        } else {
            assert(n1 % 10 < n2 % 10) by (nonlinear_arith)
                requires
                    n1 < n2,
                    n1 / 10 == n2 / 10,
            ;
            lemma_fixed_len(n1 / 10, w1);
            let a = fixed(n1, w);
            let b = fixed(n2, w);
            assert(a.take(w1 as int) =~= b.take(w1 as int));
            assert((a[w1 as int] as u32) < (b[w1 as int] as u32));
        }
    }
}

/// Zero-padded numbers below `10^w` sort as the numbers do.
proof fn lemma_padded_order(n1: nat, n2: nat, w: nat)
    requires
        n1 < n2 < p10(w),
        w >= 1,
    ensures
        text_before(pad_left(dec(n1), w, '0'), pad_left(dec(n2), w, '0')),
        pad_left(dec(n1), w, '0').len() == w,
        pad_left(dec(n2), w, '0').len() == w,
{
    lemma_fixed_pad(n1, w);
    lemma_fixed_pad(n2, w);
    lemma_fixed_len(n1, w);
    lemma_fixed_len(n2, w);
    lemma_fixed_order(n1, n2, w);
}

/// Order decided in the first parts (of equal length) carries over.
proof fn lemma_before_then(a1: Seq<char>, a2: Seq<char>, b1: Seq<char>, b2: Seq<char>)
    requires
        a1.len() == a2.len(),
        text_before(a1, a2),
    ensures
        text_before(a1 + b1, a2 + b2),
{
    let i = choose|i: int|
        0 <= i < a1.len() && i < a2.len() && a1.take(i) == a2.take(i) && (a1[i] as u32) < (#[trigger] a2[i] as u32);
    assert((a1 + b1).take(i) =~= a1.take(i));
    assert((a2 + b2).take(i) =~= a2.take(i));
    assert((a1 + b1)[i] == a1[i] && (a2 + b2)[i] == a2[i]);
}

/// A common first part keeps the order of the rest.
proof fn lemma_same_then(a: Seq<char>, b1: Seq<char>, b2: Seq<char>)
    requires
        text_before(b1, b2),
    ensures
        text_before(a + b1, a + b2),
{
    let i = choose|i: int|
        0 <= i < b1.len() && i < b2.len() && b1.take(i) == b2.take(i) && (b1[i] as u32) < (#[trigger] b2[i] as u32);
    let j = a.len() + i;
    assert((a + b1).take(j) =~= a + b1.take(i));
    assert((a + b2).take(j) =~= a + b2.take(i));
    assert((a + b1)[j] == b1[i] && (a + b2)[j] == b2[i]);
}

pub open spec fn two(n: nat) -> Seq<char> {
    pad_left(dec(n), 2, '0')
}

pub open spec fn time_tail(h: nat, mi: nat, s: nat) -> Seq<char> {
    two(h) + (":"@ + (two(mi) + (":"@ + (two(s) + "Z"@))))
}

pub open spec fn date_tail(mo: nat, d: nat, h: nat, mi: nat, s: nat) -> Seq<char> {
    two(mo) + ("-"@ + (two(d) + ("T"@ + time_tail(h, mi, s))))
}

proof fn lemma_time_order(h1: nat, mi1: nat, s1: nat, h2: nat, mi2: nat, s2: nat)
    requires
        h1 < 100 && mi1 < 100 && s1 < 100 && h2 < 100 && mi2 < 100 && s2 < 100,
        h1 < h2 || (h1 == h2 && (mi1 < mi2 || (mi1 == mi2 && s1 < s2))),
    ensures
        text_before(time_tail(h1, mi1, s1), time_tail(h2, mi2, s2)),
{
    assert(p10(2) == 100) by {
        reveal_with_fuel(p10, 3);
    }
    if h1 < h2 {
        lemma_padded_order(h1, h2, 2);
        lemma_before_then(two(h1), two(h2), ":"@ + (two(mi1) + (":"@ + (two(s1) + "Z"@))), ":"@ + (
        two(mi2) + (":"@ + (two(s2) + "Z"@))));
    } else {
        let m_tail1 = two(mi1) + (":"@ + (two(s1) + "Z"@));
        let m_tail2 = two(mi2) + (":"@ + (two(s2) + "Z"@));
        if mi1 < mi2 {
            lemma_padded_order(mi1, mi2, 2);
            lemma_before_then(two(mi1), two(mi2), ":"@ + (two(s1) + "Z"@), ":"@ + (two(s2) + "Z"@));
        } else {
            lemma_padded_order(s1, s2, 2);
            lemma_before_then(two(s1), two(s2), "Z"@, "Z"@);
            lemma_same_then(":"@, two(s1) + "Z"@, two(s2) + "Z"@);
            lemma_same_then(two(mi1), ":"@ + (two(s1) + "Z"@), ":"@ + (two(s2) + "Z"@));
        }
        lemma_same_then(":"@, m_tail1, m_tail2);
        lemma_same_then(two(h1), ":"@ + m_tail1, ":"@ + m_tail2);
    }
}

proof fn lemma_date_tail_order(
    mo1: nat,
    d1: nat,
    h1: nat,
    mi1: nat,
    s1: nat,
    mo2: nat,
    d2: nat,
    h2: nat,
    mi2: nat,
    s2: nat,
)
    requires
        mo1 < 100 && d1 < 100 && h1 < 100 && mi1 < 100 && s1 < 100,
        mo2 < 100 && d2 < 100 && h2 < 100 && mi2 < 100 && s2 < 100,
        mo1 < mo2 || (mo1 == mo2 && (d1 < d2 || (d1 == d2 && (h1 < h2 || (h1 == h2 && (mi1 < mi2 || (
        mi1 == mi2 && s1 < s2))))))),
    ensures
        text_before(date_tail(mo1, d1, h1, mi1, s1), date_tail(mo2, d2, h2, mi2, s2)),
{
    assert(p10(2) == 100) by {
        reveal_with_fuel(p10, 3);
    }
    let t1 = time_tail(h1, mi1, s1);
    let t2 = time_tail(h2, mi2, s2);
    if mo1 < mo2 {
        lemma_padded_order(mo1, mo2, 2);
        lemma_before_then(two(mo1), two(mo2), "-"@ + (two(d1) + ("T"@ + t1)), "-"@ + (two(d2) + ("T"@ + t2)));
    } else {
        if d1 < d2 {
            lemma_padded_order(d1, d2, 2);
            lemma_before_then(two(d1), two(d2), "T"@ + t1, "T"@ + t2);
        } else {
            lemma_time_order(h1, mi1, s1, h2, mi2, s2);
            lemma_same_then("T"@, t1, t2);
            lemma_same_then(two(d1), "T"@ + t1, "T"@ + t2);
        }
        lemma_same_then("-"@, two(d1) + ("T"@ + t1), two(d2) + ("T"@ + t2));
        lemma_same_then(two(mo1), "-"@ + (two(d1) + ("T"@ + t1)), "-"@ + (two(d2) + ("T"@ + t2)));
    }
}

/// The timestamp text, read as the year and the rest.
proof fn lemma_iso_shape(y: nat, mo: nat, d: nat, h: nat, mi: nat, s: nat)
    ensures
        iso_text(y, mo, d, h, mi, s) == pad_left(dec(y), 4, '0') + ("-"@ + date_tail(mo, d, h, mi, s)),
{
    let a = pad_left(dec(y), 4, '0');
    let l1 = a + "-"@;
    let l2 = l1 + two(mo);
    let l3 = l2 + "-"@;
    let l4 = l3 + two(d);
    let l5 = l4 + "T"@;
    let l6 = l5 + two(h);
    let l7 = l6 + ":"@;
    let l8 = l7 + two(mi);
    let l9 = l8 + ":"@;
    let l10 = l9 + two(s);
    let r1 = two(s) + "Z"@;
    lemma_concat_associative(l9, two(s), "Z"@);
    let r2 = ":"@ + r1;
    lemma_concat_associative(l8, ":"@, r1);
    let r3 = two(mi) + r2;
    lemma_concat_associative(l7, two(mi), r2);
    let r4 = ":"@ + r3;
    lemma_concat_associative(l6, ":"@, r3);
    let r5 = two(h) + r4;
    lemma_concat_associative(l5, two(h), r4);
    let r6 = "T"@ + r5;
    lemma_concat_associative(l4, "T"@, r5);
    let r7 = two(d) + r6;
    lemma_concat_associative(l3, two(d), r6);
    let r8 = "-"@ + r7;
    lemma_concat_associative(l2, "-"@, r7);
    let r9 = two(mo) + r8;
    lemma_concat_associative(l1, two(mo), r8);
    lemma_concat_associative(a, "-"@, r9);
}

/// Timestamp texts with four-digit years sort as their fields do, read
/// from the year down to the second.
pub proof fn lemma_iso_text_order(
    y1: nat,
    mo1: nat,
    d1: nat,
    h1: nat,
    mi1: nat,
    s1: nat,
    y2: nat,
    mo2: nat,
    d2: nat,
    h2: nat,
    mi2: nat,
    s2: nat,
)
    requires
        y1 < 10000 && mo1 < 100 && d1 < 100 && h1 < 100 && mi1 < 100 && s1 < 100,
        y2 < 10000 && mo2 < 100 && d2 < 100 && h2 < 100 && mi2 < 100 && s2 < 100,
        y1 < y2 || (y1 == y2 && (mo1 < mo2 || (mo1 == mo2 && (d1 < d2 || (d1 == d2 && (h1 < h2 || (h1
            == h2 && (mi1 < mi2 || (mi1 == mi2 && s1 < s2))))))))),
    ensures
        text_before(iso_text(y1, mo1, d1, h1, mi1, s1), iso_text(y2, mo2, d2, h2, mi2, s2)),
{
    assert(p10(4) == 10000) by {
        reveal_with_fuel(p10, 5);
    }
    let four1 = pad_left(dec(y1), 4, '0');
    let four2 = pad_left(dec(y2), 4, '0');
    let t1 = date_tail(mo1, d1, h1, mi1, s1);
    let t2 = date_tail(mo2, d2, h2, mi2, s2);
    lemma_iso_shape(y1, mo1, d1, h1, mi1, s1);
    lemma_iso_shape(y2, mo2, d2, h2, mi2, s2);
    if y1 < y2 {
        lemma_padded_order(y1, y2, 4);
        lemma_before_then(four1, four2, "-"@ + t1, "-"@ + t2);
    } else {
        lemma_date_tail_order(mo1, d1, h1, mi1, s1, mo2, d2, h2, mi2, s2);
        lemma_same_then("-"@, t1, t2);
        lemma_same_then(four1, "-"@ + t1, "-"@ + t2);
    }
}
} // verus!
