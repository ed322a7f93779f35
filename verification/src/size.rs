//! Sizes as the operator writes them: `100M`, `2.5GB`, `1T`, `4096`.

use vstd::prelude::*;
use vstd::arithmetic::power::lemma_pow_adds;
use crate::error::{fail, ErrorKind, OpError};
use crate::number::{
    all_digits, digit, digit_value, digits_only, lemma_number_bound, lemma_number_concat,
    lemma_pow10, number_of, parse_u64, pow10, value_of_digit,
};
use crate::text::{chars_of, field_end, find_either, is_digit, slice_of, trim, trimmed};

verus! {

/// The power of ten that a unit letter stands for: `K` is 3, `M` is 6, `G`
/// is 9, `T` is 12, in either case.
pub open spec fn unit_exponent(c: char) -> Option<nat> {
    if c == 'K' || c == 'k' {
        Some(3)
    } else if c == 'M' || c == 'm' {
        Some(6)
    } else if c == 'G' || c == 'g' {
        Some(9)
    } else if c == 'T' || c == 't' {
        Some(12)
    } else {
        None
    }
}

/// A decimal numeral taken apart: its sign, the digits before and after
/// the point, and the power of ten written behind an `e`.
pub struct Numeral {
    pub negative: bool,
    pub whole: Seq<char>,
    pub fraction: Seq<char>,
    pub exponent: int,
}

/// The digits before and after the point.
pub struct Mantissa {
    pub whole: Seq<char>,
    pub fraction: Seq<char>,
}

/// `s` without a sign at its beginning.
pub open spec fn unsigned_part(s: Seq<char>) -> Seq<char> {
    if s.len() > 0 && (s[0] == '-' || s[0] == '+') {
        s.skip(1)
    } else {
        s
    }
}

/// Whether `s` begins with a minus sign.
pub open spec fn has_minus(s: Seq<char>) -> bool {
    s.len() > 0 && s[0] == '-'
}

/// The digits before and after the point of a mantissa: digits, and at most
/// one point among or beside them. At least one digit is needed.
pub open spec fn mantissa_of(s: Seq<char>) -> Option<Mantissa> {
    let k = field_end(s, '.', '.');
    let whole = s.take(k as int);
    let fraction = if k < s.len() {
        s.skip(k as int + 1)
    } else {
        Seq::empty()
    };
    if all_digits(whole) && all_digits(fraction) && whole.len() + fraction.len() > 0 {
        Some(Mantissa { whole, fraction })
    } else {
        None
    }
}

/// The power of ten written behind an `e`: an optional sign and at least
/// one digit.
pub open spec fn exponent_of(s: Seq<char>) -> Option<int> {
    let digits = unsigned_part(s);
    if digits.len() > 0 && all_digits(digits) {
        Some(
            if has_minus(s) {
                -(number_of(digits) as int)
            } else {
                number_of(digits) as int
            },
        )
    } else {
        None
    }
}

/// Reads a decimal numeral: an optional sign, a mantissa, and an optional
/// exponent behind an `e` or `E`. Nothing else is a numeral: no word for
/// infinity, and none for what is not a number.
pub open spec fn numeral_of(s: Seq<char>) -> Option<Numeral> {
    let body = unsigned_part(s);
    let k = field_end(body, 'e', 'E');
    let mantissa = mantissa_of(body.take(k as int));
    let exponent = if k < body.len() {
        exponent_of(body.skip(k as int + 1))
    } else {
        Some(0int)
    };
    if mantissa is Some && exponent is Some {
        Some(
            Numeral {
                negative: has_minus(s),
                whole: mantissa->0.whole,
                fraction: mantissa->0.fraction,
                exponent: exponent->0,
            },
        )
    } else {
        None
    }
}

/// By how many places the exponent `e` moves the point to the right.
pub open spec fn places_up(e: int) -> nat {
    if e > 0 {
        e as nat
    } else {
        0
    }
}

/// By how many places the exponent `e` moves the point to the left.
pub open spec fn places_down(e: int) -> nat {
    if e < 0 {
        (-e) as nat
    } else {
        0
    }
}

/// The integer nearest to `whole.fraction` times ten to the `e`; a value
/// halfway between two integers goes to the larger.
pub open spec fn scaled_value(whole: Seq<char>, fraction: Seq<char>, e: int) -> nat {
    ((2 * number_of(whole + fraction) * pow10(places_up(e)) + pow10(
        fraction.len() + places_down(e),
    )) / (2 * pow10(fraction.len() + places_down(e)))) as nat
}

/// `n` divided by ten to the `m`, rounded to the nearest integer; a value
/// halfway between two integers goes to the larger.
pub open spec fn rounded_shift(n: nat, m: nat) -> nat {
    ((2 * n + pow10(m)) / (2 * pow10(m))) as nat
}

/// `n` with the point moved by `s` places: to the right for a positive `s`,
/// to the left, with rounding, for a negative one.
pub open spec fn shifted(n: nat, s: int) -> nat {
    if s >= 0 {
        n * pow10(s as nat)
    } else {
        rounded_shift(n, (-s) as nat)
    }
}

/// The number with the given sign and magnitude.
pub open spec fn signed(negative: bool, magnitude: nat) -> int {
    if negative {
        -(magnitude as int)
    } else {
        magnitude as int
    }
}

/// Whether `c` is the letter that may follow a unit letter.
pub open spec fn is_b(c: char) -> bool {
    c == 'B' || c == 'b'
}

/// The numeral and the unit's power of ten in a size without surrounding
/// white space. The unit is one of `K`, `M`, `G`, `T`, alone or followed by
/// one `B`, in either case of each letter; without a unit the numeral counts
/// bytes.
pub open spec fn numeral_and_unit(s: Seq<char>) -> (Seq<char>, nat) {
    if s.len() >= 2 && is_b(s.last()) && unit_exponent(s[s.len() - 2]) is Some {
        (s.take(s.len() - 2), unit_exponent(s[s.len() - 2])->0)
    } else if s.len() >= 1 && unit_exponent(s.last()) is Some {
        (s.drop_last(), unit_exponent(s.last())->0)
    } else {
        (s, 0)
    }
}

/// `v` as a byte count: capped at the largest 64-bit number.
pub open spec fn capped(v: nat) -> u64 {
    if v > u64::MAX {
        u64::MAX
    } else {
        v as u64
    }
}

/// The byte count that a size text stands for, if it stands for one. White
/// space around the text is dropped; a unit multiplies by a power of 1000;
/// what stands before the unit must be a decimal numeral. The value is
/// rounded to the nearest byte, and a value beyond 64 bits counts as the
/// largest 64-bit number. A negative value has no byte count; a zero with a
/// minus sign is zero.
pub open spec fn size_of_text(input: Seq<char>) -> Option<u64> {
    let (num, unit) = numeral_and_unit(trimmed(input));
    match numeral_of(num) {
        None => None,
        Some(n) => if n.negative && number_of(n.whole + n.fraction) != 0 {
            None
        } else {
            Some(capped(scaled_value(n.whole, n.fraction, n.exponent + unit)))
        },
    }
}

/// What is said of a size that cannot be read.
pub open spec fn size_fault() -> Seq<char> {
    "Invalid size format. Use format like: 100M, 2.5GB, 1TB"@
}

pub proof fn lemma_pow10_adds(a: nat, b: nat)
    ensures
        pow10(a + b) == pow10(a) * pow10(b),
{
    lemma_pow_adds(10, a, b);
    vstd::arithmetic::power::lemma_pow_positive(10, a);
    vstd::arithmetic::power::lemma_pow_positive(10, b);
    vstd::arithmetic::power::lemma_pow_positive(10, a + b);
}

/// A quotient is known once the dividend lies between two neighbouring
/// multiples of the divisor.
pub proof fn lemma_quotient(a: int, d: int, x: int)
    requires
        d > 0,
        d * x <= a < d * (x + 1),
    ensures
        a / d == x,
{
    assert(a == x * d + (a - d * x)) by (nonlinear_arith);
    assert(d * (x + 1) == d * x + d) by (nonlinear_arith);
    vstd::arithmetic::div_mod::lemma_fundamental_div_mod_converse(a, d, x, a - d * x);
}

/// Rounding `n * e / f` where `f` is `m * e` and `n` is `q * m + r`: the
/// result is `q`, or `q + 1` where `r` is at least half of `m`.
pub proof fn lemma_round_down_shift(n: int, q: int, r: int, m: int, e: int, f: int)
    requires
        n == q * m + r,
        0 <= r < m,
        0 <= q,
        e >= 1,
        f == m * e,
    ensures
        (2 * n * e + f) / (2 * f) == if 2 * r >= m {
            q + 1
        } else {
            q
        },
{
    let x: int = if 2 * r >= m {
        q + 1
    } else {
        q
    };
    let a: int = 2 * n * e + f;
    let d: int = 2 * f;
    assert(d * x <= a < d * (x + 1)) by (nonlinear_arith)
        requires
            n == q * m + r,
            0 <= r < m,
            0 <= q,
            e >= 1,
            f == m * e,
            a == 2 * n * e + f,
            d == 2 * f,
            x == if 2 * r >= m {
                q + 1
            } else {
                q
            },
    ;
    assert(d > 0) by (nonlinear_arith)
        requires
            d == 2 * (m * e),
            m > 0,
            e >= 1,
    ;
    lemma_quotient(a, d, x);
}

/// Rounding `n * e / f` where `e` is `f * k`: the result is `n * k`.
pub proof fn lemma_round_up_shift(n: int, k: int, e: int, f: int)
    requires
        0 <= n,
        f >= 1,
        e == f * k,
    ensures
        (2 * n * e + f) / (2 * f) == n * k,
{
    let x: int = n * k;
    let a: int = 2 * n * e + f;
    let d: int = 2 * f;
    assert(d * x <= a < d * (x + 1)) by (nonlinear_arith)
        requires
            0 <= n,
            f >= 1,
            e == f * k,
            a == 2 * n * e + f,
            d == 2 * f,
            x == n * k,
    ;
    lemma_quotient(a, d, x);
}

/// A digit string of at least one digit is at least half of the next power
/// of ten exactly when its first digit is 5 or more.
pub proof fn lemma_leading_digit(s: Seq<char>)
    requires
        s.len() >= 1,
        all_digits(s),
    ensures
        2 * number_of(s) >= pow10(s.len()) <==> digit_value(s[0]) >= 5,
{
    let head = seq![s[0]];
    let tail = s.skip(1);
    assert(s == head + tail);
    lemma_number_concat(head, tail);
    assert(head.drop_last() == Seq::<char>::empty());
    assert(number_of(head) == digit_value(s[0])) by {
        assert(number_of(head.drop_last()) == 0);
        assert(head.last() == s[0]);
    }
    assert forall|i: int| 0 <= i < tail.len() implies is_digit(#[trigger] tail[i]) by {
        assert(tail[i] == s[i + 1]);
    }
    lemma_number_bound(tail);
    lemma_pow10(tail.len());
    assert(is_digit(s[0]));
    let d = digit_value(s[0]);
    let p = pow10(tail.len());
    let t = number_of(tail);
    assert(number_of(s) == d * p + t);
    assert(pow10(s.len()) == 10 * p);
    assert(2 * (d * p + t) >= 10 * p <==> d >= 5) by (nonlinear_arith)
        requires
            t < p,
            p >= 1,
            d <= 9,
    ;
}

pub proof fn lemma_pow10_monotone(a: nat, b: nat)
    requires
        a <= b,
    ensures
        pow10(a) <= pow10(b),
{
    lemma_pow10_adds(a, (b - a) as nat);
    lemma_pow10(a);
    lemma_pow10((b - a) as nat);
    assert(pow10(a) * pow10((b - a) as nat) >= pow10(a)) by (nonlinear_arith)
        requires
            pow10((b - a) as nat) >= 1,
    ;
}

/// Ten to the 19th still fits 64 bits; ten to the 20th does not.
pub proof fn lemma_pow10_19()
    ensures
        pow10(19) == 10_000_000_000_000_000_000,
        pow10(20) == 100_000_000_000_000_000_000,
{
    lemma_pow10(0);
    lemma_pow10(1);
    lemma_pow10(2);
    lemma_pow10(3);
    lemma_pow10(4);
    lemma_pow10(5);
    lemma_pow10(6);
    lemma_pow10(7);
    lemma_pow10(8);
    lemma_pow10(9);
    lemma_pow10(10);
    lemma_pow10(11);
    lemma_pow10(12);
    lemma_pow10(13);
    lemma_pow10(14);
    lemma_pow10(15);
    lemma_pow10(16);
    lemma_pow10(17);
    lemma_pow10(18);
    lemma_pow10(19);
    assert(pow10(1) == 10);
    assert(pow10(2) == 100);
    assert(pow10(3) == 1_000);
    assert(pow10(4) == 10_000);
    assert(pow10(5) == 100_000);
    assert(pow10(6) == 1_000_000);
    assert(pow10(7) == 10_000_000);
    assert(pow10(8) == 100_000_000);
    assert(pow10(9) == 1_000_000_000);
    assert(pow10(10) == 10_000_000_000);
    assert(pow10(11) == 100_000_000_000);
    assert(pow10(12) == 1_000_000_000_000);
    assert(pow10(13) == 10_000_000_000_000);
    assert(pow10(14) == 100_000_000_000_000);
    assert(pow10(15) == 1_000_000_000_000_000);
    assert(pow10(16) == 10_000_000_000_000_000);
    assert(pow10(17) == 100_000_000_000_000_000);
    assert(pow10(18) == 1_000_000_000_000_000_000);
}

/// The scaled value of a numeral is its digits with the point moved by the
/// exponent less the number of fraction digits.
pub proof fn lemma_scaled_is_shifted(whole: Seq<char>, fraction: Seq<char>, e: int)
    ensures
        scaled_value(whole, fraction, e) == shifted(
            number_of(whole + fraction),
            e - fraction.len(),
        ),
{
    let n = number_of(whole + fraction);
    let up = places_up(e);
    let down = fraction.len() + places_down(e);
    let s = e - fraction.len();
    lemma_pow10(up);
    lemma_pow10(down);
    if s >= 0 {
        assert(up == down + s);
        lemma_pow10_adds(down, s as nat);
        lemma_round_up_shift(n as int, pow10(s as nat) as int, pow10(up) as int, pow10(down) as int);
    } else {
        let m = (-s) as nat;
        assert(down == m + up);
        lemma_pow10_adds(m, up);
        lemma_pow10(m);
        let q = n / pow10(m);
        let r = n % pow10(m);
        assert(n == q * pow10(m) + r && 0 <= r < pow10(m)) by {
            vstd::arithmetic::div_mod::lemma_fundamental_div_mod(n as int, pow10(m) as int);
            vstd::arithmetic::div_mod::lemma_mod_bound(n as int, pow10(m) as int);
            assert(pow10(m) * q == q * pow10(m)) by (nonlinear_arith);
        }
        lemma_round_down_shift(
            n as int,
            q as int,
            r as int,
            pow10(m) as int,
            pow10(up) as int,
            pow10(down) as int,
        );
        assert(pow10(m) == pow10(m) * 1) by (nonlinear_arith);
        lemma_round_down_shift(n as int, q as int, r as int, pow10(m) as int, 1, pow10(m) as int);
        assert(2 * n * 1 + pow10(m) == 2 * n + pow10(m));
    }
}

/// A number of at most `k` digits, divided by ten to a power above `k`,
/// rounds to zero.
pub proof fn lemma_rounds_to_zero(digits: Seq<char>, m: nat)
    requires
        all_digits(digits),
        m > digits.len(),
    ensures
        rounded_shift(number_of(digits), m) == 0,
{
    let n = number_of(digits);
    lemma_number_bound(digits);
    lemma_pow10_monotone(digits.len(), (m - 1) as nat);
    lemma_pow10((m - 1) as nat);
    lemma_pow10(m);
    assert(pow10(m) == 10 * pow10((m - 1) as nat));
    lemma_quotient((2 * n + pow10(m)) as int, (2 * pow10(m)) as int, 0);
}

/// A number that is not zero, times ten to the 20th or more, exceeds 64
/// bits.
pub proof fn lemma_shift_overflows(n: nat, s: nat)
    requires
        n >= 1,
        s >= 20,
    ensures
        n * pow10(s) > u64::MAX,
{
    lemma_pow10_19();
    lemma_pow10_monotone(20, s);
    assert(n * pow10(s) >= pow10(s)) by (nonlinear_arith)
        requires
            n >= 1,
    ;
}

/// Ten to the power `k`.
pub fn ten_to(k: u64) -> (r: u128)
    requires
        k <= 19,
    ensures
        r == pow10(k as nat),
        1 <= r <= 10_000_000_000_000_000_000,
{
    let mut r: u128 = 1;
    let mut i: u64 = 0;
    proof {
        lemma_pow10(0);
        lemma_pow10_19();
        lemma_pow10_monotone(0, 19);
    }
    while i < k
        invariant
            i <= k <= 19,
            r == pow10(i as nat),
            1 <= r <= 10_000_000_000_000_000_000,
            pow10(19) == 10_000_000_000_000_000_000,
        decreases k - i,
    {
        proof {
            lemma_pow10(i as nat);
            lemma_pow10_monotone((i + 1) as nat, 19);
        }
        r = r * 10;
        i = i + 1;
    }
    r
}

/// The value of the digits `v[from..to]`, or `None` where it exceeds 64
/// bits.
fn read_digits(v: &Vec<char>, from: usize, to: usize) -> (r: Option<u64>)
    requires
        from <= to <= v.len(),
        all_digits(v@.subrange(from as int, to as int)),
    ensures
        r is Some <==> number_of(v@.subrange(from as int, to as int)) <= u64::MAX,
        r matches Some(n) ==> n == number_of(v@.subrange(from as int, to as int)),
{
    if from == to {
        assert(v@.subrange(from as int, to as int).len() == 0);
        return Some(0);
    }
    let part = slice_of(v, from, to);
    parse_u64(&part)
}

/// Whether the digits write zero.
fn writes_zero(digits: &Vec<char>) -> (b: bool)
    requires
        all_digits(digits@),
    ensures
        b == (number_of(digits@) == 0),
{
    let mut i: usize = 0;
    assert(digits@.take(0) == Seq::<char>::empty());
    while i < digits.len()
        invariant
            i <= digits.len(),
            all_digits(digits@),
            number_of(digits@.take(i as int)) == 0,
        decreases digits.len() - i,
    {
        proof {
            let t = digits@.take(i + 1);
            assert(t.drop_last() == digits@.take(i as int));
            assert(t.last() == digits@[i as int]);
            assert(is_digit(digits@[i as int]));
        }
        if digits[i] != '0' {
            proof {
                let t = digits@.take(i + 1);
                let rest = digits@.skip(i + 1);
                assert(number_of(t) >= 1);
                assert(digits@ == t + rest);
                lemma_number_concat(t, rest);
                lemma_pow10(rest.len());
                assert(number_of(t) * pow10(rest.len()) >= 1) by (nonlinear_arith)
                    requires
                        number_of(t) >= 1,
                        pow10(rest.len()) >= 1,
                ;
            }
            return false;
        }
        i = i + 1;
    }
    assert(digits@.take(digits.len() as int) == digits@);
    true
}

/// The largest power of ten that an exponent is read exactly up to.
pub const EXPONENT_CAP: u128 = 1_000_000_000_000_000_000_000_000;

/// The value of the digits, or `None` where it exceeds [`EXPONENT_CAP`].
fn read_exponent(digits: &Vec<char>) -> (r: Option<u128>)
    requires
        all_digits(digits@),
    ensures
        r is Some <==> number_of(digits@) <= EXPONENT_CAP,
        r matches Some(n) ==> n == number_of(digits@),
{
    let mut n: u128 = 0;
    let mut i: usize = 0;
    assert(digits@.take(0) == Seq::<char>::empty());
    while i < digits.len()
        invariant
            i <= digits.len(),
            all_digits(digits@),
            n == number_of(digits@.take(i as int)),
            n <= EXPONENT_CAP,
        decreases digits.len() - i,
    {
        let d: u64 = value_of_digit(digits[i]);
        proof {
            let t = digits@.take(i + 1);
            let rest = digits@.skip(i + 1);
            assert(t.drop_last() == digits@.take(i as int));
            assert(t.last() == digits@[i as int]);
            assert(number_of(t) == n * 10 + d);
            assert(digits@ == t + rest);
            lemma_number_concat(t, rest);
            lemma_pow10(rest.len());
            assert(number_of(t) <= number_of(digits@)) by (nonlinear_arith)
                requires
                    number_of(digits@) == number_of(t) * pow10(rest.len()) + number_of(rest),
                    pow10(rest.len()) >= 1,
            ;
        }
        let next: u128 = n * 10 + d as u128;
        if next > EXPONENT_CAP {
            return None;
        }
        n = next;
        i = i + 1;
    }
    assert(digits@.take(digits.len() as int) == digits@);
    Some(n)
}

/// The power of ten that a unit letter stands for.
fn unit_of(c: char) -> (r: Option<u64>)
    ensures
        match r {
            Some(e) => unit_exponent(c) == Some(e as nat) && e <= 12,
            None => unit_exponent(c) is None,
        },
{
    if c == 'K' || c == 'k' {
        Some(3)
    } else if c == 'M' || c == 'm' {
        Some(6)
    } else if c == 'G' || c == 'g' {
        Some(9)
    } else if c == 'T' || c == 't' {
        Some(12)
    } else {
        None
    }
}

/// Finds where the numeral of a trimmed size ends and which power of ten
/// its unit stands for.
fn numeral_end(t: &Vec<char>) -> (r: (usize, u64))
    ensures
        r.0 <= t.len(),
        r.1 <= 12,
        numeral_and_unit(t@) == (t@.take(r.0 as int), r.1 as nat),
{
    let len: usize = t.len();
    assert(t@.take(len as int) == t@);
    if len >= 2 && (t[len - 1] == 'B' || t[len - 1] == 'b') {
        match unit_of(t[len - 2]) {
            Some(e) => {
                return (len - 2, e);
            },
            None => {},
        }
    }
    if len >= 1 {
        match unit_of(t[len - 1]) {
            Some(e) => {
                assert(t@.drop_last() == t@.take(len - 1));
                return (len - 1, e);
            },
            None => {},
        }
    }
    (len, 0)
}

/// The digits before and after the point, as characters.
struct MantissaChars {
    whole: Vec<char>,
    fraction: Vec<char>,
}

/// Takes a mantissa apart.
fn read_mantissa(text: &Vec<char>) -> (r: Option<MantissaChars>)
    ensures
        match r {
            Some(m) => mantissa_of(text@) == Some(
                Mantissa { whole: m.whole@, fraction: m.fraction@ },
            ),
            None => mantissa_of(text@) is None,
        },
{
    let stop: usize = text.len();
    assert(text@.skip(0) == text@);
    let point: usize = find_either(text, 0, '.', '.');
    let frac_from: usize = if point < stop {
        point + 1
    } else {
        stop
    };
    let w = slice_of(text, 0, point);
    let f = slice_of(text, frac_from, stop);
    proof {
        let k = field_end(text@, '.', '.');
        assert(k == point);
        assert(w@ == text@.take(k as int));
        if k < text@.len() {
            assert(f@ == text@.skip(k as int + 1));
        } else {
            assert(f@ == Seq::<char>::empty());
        }
    }
    if !digits_only(&w) || !digits_only(&f) || (w.len() == 0 && f.len() == 0) {
        return None;
    }
    Some(MantissaChars { whole: w, fraction: f })
}

/// A numeral taken apart, as characters. The exponent is kept as its sign
/// and its digits; no digits stand for the exponent zero.
struct NumeralChars {
    negative: bool,
    whole: Vec<char>,
    fraction: Vec<char>,
    exponent_negative: bool,
    exponent_digits: Vec<char>,
}

/// Takes a numeral apart.
fn read_numeral(num: &Vec<char>) -> (r: Option<NumeralChars>)
    ensures
        match r {
            None => numeral_of(num@) is None,
            Some(n) => all_digits(n.whole@) && all_digits(n.fraction@) && all_digits(
                n.exponent_digits@,
            ) && numeral_of(num@) == Some(
                Numeral {
                    negative: n.negative,
                    whole: n.whole@,
                    fraction: n.fraction@,
                    exponent: signed(n.exponent_negative, number_of(n.exponent_digits@)),
                },
            ),
        },
{
    let len: usize = num.len();
    let negative = len > 0 && num[0] == '-';
    let start: usize = if len > 0 && (num[0] == '-' || num[0] == '+') {
        1
    } else {
        0
    };
    let body = slice_of(num, start, len);
    assert(body@ == unsigned_part(num@)) by {
        assert(num@.subrange(0, len as int) == num@);
        assert(num@.subrange(1, len as int) == num@.skip(1));
    }
    assert(body@.skip(0) == body@);
    let mark: usize = find_either(&body, 0, 'e', 'E');
    let head = slice_of(&body, 0, mark);
    assert(head@ == body@.take(mark as int));
    let mantissa = match read_mantissa(&head) {
        None => {
            return None;
        },
        Some(m) => m,
    };
    if mark >= body.len() {
        let none: Vec<char> = Vec::new();
        assert(number_of(none@) == 0);
        return Some(
            NumeralChars {
                negative,
                whole: mantissa.whole,
                fraction: mantissa.fraction,
                exponent_negative: false,
                exponent_digits: none,
            },
        );
    }
    let tail = slice_of(&body, mark + 1, body.len());
    assert(tail@ == body@.skip(mark as int + 1));
    let tlen: usize = tail.len();
    let exponent_negative = tlen > 0 && tail[0] == '-';
    let from: usize = if tlen > 0 && (tail[0] == '-' || tail[0] == '+') {
        1
    } else {
        0
    };
    let digits = slice_of(&tail, from, tlen);
    assert(digits@ == unsigned_part(tail@)) by {
        assert(tail@.subrange(0, tlen as int) == tail@);
        assert(tail@.subrange(1, tlen as int) == tail@.skip(1));
    }
    if digits.len() == 0 || !digits_only(&digits) {
        return None;
    }
    Some(
        NumeralChars {
            negative,
            whole: mantissa.whole,
            fraction: mantissa.fraction,
            exponent_negative,
            exponent_digits: digits,
        },
    )
}

/// The digits times ten to the `shift`, capped at 64 bits.
fn shift_up(digits: &Vec<char>, shift: u64) -> (r: u64)
    requires
        all_digits(digits@),
        shift <= 19,
    ensures
        r == capped(number_of(digits@) * pow10(shift as nat)),
{
    let factor: u128 = ten_to(shift);
    let ghost n = number_of(digits@);
    assert(digits@.subrange(0, digits.len() as int) == digits@);
    match read_digits(digits, 0, digits.len()) {
        None => {
            assert(n * pow10(shift as nat) > u64::MAX) by (nonlinear_arith)
                requires
                    n > u64::MAX,
                    pow10(shift as nat) >= 1,
            ;
            u64::MAX
        },
        Some(v) => {
            assert(v as u128 * factor <= u64::MAX as u128 * 10_000_000_000_000_000_000)
                by (nonlinear_arith)
                requires
                    v <= u64::MAX,
                    factor <= 10_000_000_000_000_000_000,
            ;
            let product: u128 = v as u128 * factor;
            if product > u64::MAX as u128 {
                u64::MAX
            } else {
                product as u64
            }
        },
    }
}

/// The digits without their last `drop`, rounded by the first of those, and
/// capped at 64 bits.
fn shift_down(digits: &Vec<char>, drop: usize) -> (r: u64)
    requires
        all_digits(digits@),
        1 <= drop <= digits.len(),
    ensures
        r == capped(rounded_shift(number_of(digits@), drop as nat)),
{
    let total: usize = digits.len();
    let keep: usize = total - drop;
    let ghost n = number_of(digits@);
    let ghost head = digits@.subrange(0, keep as int);
    let ghost tail = digits@.subrange(keep as int, total as int);
    proof {
        assert(digits@ == head + tail);
        lemma_number_concat(head, tail);
        assert forall|i: int| 0 <= i < tail.len() implies is_digit(#[trigger] tail[i]) by {
            assert(tail[i] == digits@[i + keep]);
        }
        assert forall|i: int| 0 <= i < head.len() implies is_digit(#[trigger] head[i]) by {
            assert(head[i] == digits@[i]);
        }
        lemma_number_bound(tail);
        lemma_leading_digit(tail);
        lemma_pow10(drop as nat);
        assert(pow10(drop as nat) == pow10(drop as nat) * 1) by (nonlinear_arith);
        lemma_round_down_shift(
            n as int,
            number_of(head) as int,
            number_of(tail) as int,
            pow10(drop as nat) as int,
            1,
            pow10(drop as nat) as int,
        );
        assert(2 * n * 1 + pow10(drop as nat) == 2 * n + pow10(drop as nat));
        assert(tail[0] == digits@[keep as int]);
    }
    let up: bool = value_of_digit(digits[keep]) >= 5;
    match read_digits(digits, 0, keep) {
        None => u64::MAX,
        Some(q) => {
            if up {
                if q == u64::MAX {
                    u64::MAX
                } else {
                    q + 1
                }
            } else {
                q
            }
        },
    }
}

/// The digits with the point moved by `s` places, capped at 64 bits.
fn shift_by(digits: &Vec<char>, s: i128) -> (r: u64)
    requires
        all_digits(digits@),
    ensures
        r == capped(shifted(number_of(digits@), s as int)),
{
    if s >= 20 {
        if writes_zero(digits) {
            assert(0 * pow10(s as nat) == 0) by (nonlinear_arith);
            0
        } else {
            proof {
                lemma_shift_overflows(number_of(digits@), s as nat);
            }
            u64::MAX
        }
    } else if s >= 0 {
        shift_up(digits, s as u64)
    } else if s == i128::MIN || -s > digits.len() as i128 {
        proof {
            lemma_rounds_to_zero(digits@, (-s) as nat);
        }
        0
    } else {
        shift_down(digits, (-s) as usize)
    }
}

/// The value of `whole.fraction` times ten to the exponent and to the
/// unit's power, rounded to the nearest integer and capped at 64 bits.
fn scale(
    whole: &Vec<char>,
    fraction: &Vec<char>,
    exponent_negative: bool,
    exponent_digits: &Vec<char>,
    unit: u64,
) -> (r: u64)
    requires
        unit <= 12,
        all_digits(whole@),
        all_digits(fraction@),
        all_digits(exponent_digits@),
    ensures
        r == capped(
            scaled_value(
                whole@,
                fraction@,
                signed(exponent_negative, number_of(exponent_digits@)) + unit,
            ),
        ),
{
    let mut digits: Vec<char> = Vec::new();
    crate::text::push_all(&mut digits, whole);
    crate::text::push_all(&mut digits, fraction);
    let ghost e = signed(exponent_negative, number_of(exponent_digits@)) + unit;
    proof {
        assert(digits@ == whole@ + fraction@);
        assert forall|i: int| 0 <= i < digits@.len() implies is_digit(#[trigger] digits@[i]) by {
            if i < whole@.len() {
                assert(digits@[i] == whole@[i]);
            } else {
                assert(digits@[i] == fraction@[i - whole@.len()]);
            }
        }
        lemma_scaled_is_shifted(whole@, fraction@, e);
    }
    match read_exponent(exponent_digits) {
        None => {
            // An exponent beyond anything that digits could make up for.
            assert(number_of(exponent_digits@) > EXPONENT_CAP);
            assert(digits.len() <= usize::MAX <= 0xffff_ffff_ffff_ffff);
            assert(fraction.len() <= usize::MAX);
            if exponent_negative {
                proof {
                    assert(e <= 12 - EXPONENT_CAP);
                    lemma_rounds_to_zero(digits@, (fraction@.len() - e) as nat);
                }
                0
            } else if writes_zero(&digits) {
                assert(0 * pow10((e - fraction@.len()) as nat) == 0) by (nonlinear_arith);
                0
            } else {
                proof {
                    assert(e >= EXPONENT_CAP);
                    lemma_shift_overflows(number_of(digits@), (e - fraction@.len()) as nat);
                }
                u64::MAX
            }
        },
        Some(magnitude) => {
            let exponent: i128 = if exponent_negative {
                -(magnitude as i128)
            } else {
                magnitude as i128
            };
            let s: i128 = exponent + unit as i128 - fraction.len() as i128;
            shift_by(&digits, s)
        },
    }
}

/// Whether `whole.fraction` writes zero.
fn is_zero(whole: &Vec<char>, fraction: &Vec<char>) -> (b: bool)
    requires
        all_digits(whole@),
        all_digits(fraction@),
    ensures
        b == (number_of(whole@ + fraction@) == 0),
{
    proof {
        lemma_number_concat(whole@, fraction@);
        lemma_pow10(fraction@.len());
        if number_of(whole@) > 0 {
            assert(number_of(whole@) * pow10(fraction@.len()) >= 1) by (nonlinear_arith)
                requires
                    number_of(whole@) >= 1,
                    pow10(fraction@.len()) >= 1,
            ;
        } else {
            assert(number_of(whole@) * pow10(fraction@.len()) == 0) by (nonlinear_arith)
                requires
                    number_of(whole@) == 0,
            ;
        }
    }
    writes_zero(whole) && writes_zero(fraction)
}

/// Reads a size as the operator writes it: `100M` is 100,000,000 bytes,
/// `2.5GB` is 2,500,000,000, `4096` is 4096. A text that is no size, or
/// that stands for less than nothing, is refused.
pub fn parse_size(input: &str) -> (r: Result<u64, OpError>)
    ensures
        r is Ok <==> size_of_text(input@) is Some,
        r matches Ok(n) ==> Some(n) == size_of_text(input@),
        r matches Err(e) ==> e.kind == ErrorKind::Validation && e.message@ == size_fault(),
{
    let raw = chars_of(input);
    let t = trim(&raw);
    let (stop, unit) = numeral_end(&t);
    let num = slice_of(&t, 0, stop);
    assert(num@ == t@.take(stop as int));
    match read_numeral(&num) {
        None => Err(
            fail(
                ErrorKind::Validation,
                String::from_str("Invalid size format. Use format like: 100M, 2.5GB, 1TB"),
            ),
        ),
        Some(n) => {
            if n.negative && !is_zero(&n.whole, &n.fraction) {
                Err(
                    fail(
                        ErrorKind::Validation,
                        String::from_str("Invalid size format. Use format like: 100M, 2.5GB, 1TB"),
                    ),
                )
            } else {
                Ok(scale(&n.whole, &n.fraction, n.exponent_negative, &n.exponent_digits, unit))
            }
        },
    }
}

} // verus!
