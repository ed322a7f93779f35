//! Decimal numerals: how a natural number is written and how a digit string
//! is read.

use vstd::prelude::*;
use vstd::arithmetic::power::*;
use crate::text::{is_digit, string_of};

verus! {

/// The character that writes the digit `d`.
pub open spec fn digit_char(d: nat) -> char {
    if d == 0 {
        '0'
    } else if d == 1 {
        '1'
    } else if d == 2 {
        '2'
    } else if d == 3 {
        '3'
    } else if d == 4 {
        '4'
    } else if d == 5 {
        '5'
    } else if d == 6 {
        '6'
    } else if d == 7 {
        '7'
    } else if d == 8 {
        '8'
    } else {
        '9'
    }
}

/// The value of a decimal digit character.
pub open spec fn digit_value(c: char) -> nat {
    (c as u32 - '0' as u32) as nat
}

/// The decimal numeral of `n`, without leading zeros.
pub open spec fn decimal(n: nat) -> Seq<char>
    decreases n,
{
    if n < 10 {
        seq![digit_char(n)]
    } else {
        decimal(n / 10).push(digit_char(n % 10))
    }
}

/// Every character of `s` is a decimal digit.
pub open spec fn all_digits(s: Seq<char>) -> bool {
    forall|i: int| 0 <= i < s.len() ==> is_digit(#[trigger] s[i])
}

/// The number that the digit string `s` writes; zero for the empty string.
pub open spec fn number_of(s: Seq<char>) -> nat
    decreases s.len(),
{
    if s.len() == 0 {
        0
    } else {
        number_of(s.drop_last()) * 10 + digit_value(s.last())
    }
}

/// Ten to the power `k`.
pub open spec fn pow10(k: nat) -> nat {
    pow(10, k) as nat
}

pub proof fn lemma_pow10(k: nat)
    ensures
        pow10(k) >= 1,
        pow10(0) == 1,
        pow10(k + 1) == 10 * pow10(k),
{
    lemma_pow_positive(10, k);
    lemma_pow_positive(10, k + 1);
    reveal(pow);
    assert(pow(10, 0) == 1);
    assert(pow(10, k + 1) == 10 * pow(10, k));
}

/// Writing a number and reading the numeral gives the number back: the
/// numeral of `n` consists of digits, has at least one, and writes `n`.
pub proof fn law_numeral_round_trip(n: nat)
    ensures
        all_digits(decimal(n)),
        decimal(n).len() >= 1,
        number_of(decimal(n)) == n,
    decreases n,
{
    if n < 10 {
        let s = decimal(n);
        assert(s.drop_last() == Seq::<char>::empty());
        assert(number_of(s.drop_last()) == 0);
    } else {
        law_numeral_round_trip(n / 10);
        let s = decimal(n);
        assert(s.drop_last() == decimal(n / 10));
        assert(s.last() == digit_char(n % 10));
        assert forall|i: int| 0 <= i < s.len() implies is_digit(#[trigger] s[i]) by {
            if i < s.len() - 1 {
                assert(s[i] == decimal(n / 10)[i]);
            }
        }
    }
}

/// A digit string of `k` digits writes a number below ten to the `k`.
pub proof fn lemma_number_bound(s: Seq<char>)
    requires
        all_digits(s),
    ensures
        number_of(s) < pow10(s.len()),
    decreases s.len(),
{
    if s.len() == 0 {
        lemma_pow10(0);
    } else {
        let t = s.drop_last();
        assert forall|i: int| 0 <= i < t.len() implies is_digit(#[trigger] t[i]) by {
            assert(t[i] == s[i]);
        }
        lemma_number_bound(t);
        lemma_pow10(t.len());
        assert(is_digit(s[s.len() - 1]));
        assert(digit_value(s.last()) <= 9);
    }
}

/// Reading a concatenation: the first part is shifted left by the length of
/// the second.
pub proof fn lemma_number_concat(a: Seq<char>, b: Seq<char>)
    ensures
        number_of(a + b) == number_of(a) * pow10(b.len()) + number_of(b),
    decreases b.len(),
{
    if b.len() == 0 {
        assert(a + b == a);
        lemma_pow10(0);
        assert(number_of(a) * pow10(b.len()) == number_of(a)) by (nonlinear_arith)
            requires
                pow10(b.len()) == 1,
        ;
    } else {
        let t = b.drop_last();
        assert((a + b).drop_last() == a + t);
        assert((a + b).last() == b.last());
        lemma_number_concat(a, t);
        lemma_pow10(t.len());
        let x = number_of(a);
        let y = number_of(t);
        let p = pow10(t.len());
        assert(number_of(a + b) == (x * p + y) * 10 + digit_value(b.last()));
        assert(b.len() == t.len() + 1);
        assert(pow10(b.len()) == 10 * p);
        assert((x * p + y) * 10 == x * pow10(b.len()) + y * 10) by (nonlinear_arith)
            requires
                pow10(b.len()) == 10 * p,
        ;
    }
}

/// The character that writes the digit `d`.
pub fn digit_to_char(d: u64) -> (c: char)
    requires
        d < 10,
    ensures
        c == digit_char(d as nat),
        is_digit(c),
        digit_value(c) == d,
{
    if d == 0 {
        '0'
    } else if d == 1 {
        '1'
    } else if d == 2 {
        '2'
    } else if d == 3 {
        '3'
    } else if d == 4 {
        '4'
    } else if d == 5 {
        '5'
    } else if d == 6 {
        '6'
    } else if d == 7 {
        '7'
    } else if d == 8 {
        '8'
    } else {
        '9'
    }
}

/// Whether `c` is a decimal digit.
pub fn digit(c: char) -> (b: bool)
    ensures
        b == is_digit(c),
{
    '0' <= c && c <= '9'
}

/// The value of the digit `c`.
pub fn value_of_digit(c: char) -> (d: u64)
    requires
        is_digit(c),
    ensures
        d == digit_value(c),
        d <= 9,
{
    (c as u32 - '0' as u32) as u64
}

/// Appends the decimal numeral of `n` to `out`.
pub fn push_decimal(out: &mut Vec<char>, n: u64)
    ensures
        final(out)@ == old(out)@ + decimal(n as nat),
    decreases n,
{
    if n < 10 {
        out.push(digit_to_char(n));
        assert(old(out)@.push(digit_char(n as nat)) == old(out)@ + decimal(n as nat));
    } else {
        push_decimal(out, n / 10);
        out.push(digit_to_char(n % 10));
        assert((old(out)@ + decimal((n / 10) as nat)).push(digit_char((n % 10) as nat)) == old(
            out,
        )@ + decimal(n as nat));
    }
}

/// The decimal numeral of `n` as characters.
pub fn decimal_chars(n: u64) -> (v: Vec<char>)
    ensures
        v@ == decimal(n as nat),
{
    let mut v: Vec<char> = Vec::new();
    push_decimal(&mut v, n);
    assert(Seq::<char>::empty() + decimal(n as nat) == decimal(n as nat));
    v
}

/// The decimal numeral of `n` as a string.
pub fn decimal_string(n: u64) -> (s: String)
    ensures
        s@ == decimal(n as nat),
{
    let v = decimal_chars(n);
    string_of(&v)
}

/// Whether every character of `s` is a decimal digit.
pub fn digits_only(s: &Vec<char>) -> (b: bool)
    ensures
        b == all_digits(s@),
{
    let mut i: usize = 0;
    while i < s.len()
        invariant
            i <= s.len(),
            forall|j: int| 0 <= j < i ==> is_digit(#[trigger] s@[j]),
        decreases s.len() - i,
    {
        if !digit(s[i]) {
            return false;
        }
        i = i + 1;
    }
    true
}

/// Reads an unsigned decimal number: a non-empty string of digits whose
/// value fits 64 bits.
pub fn parse_u64(s: &Vec<char>) -> (r: Option<u64>)
    ensures
        r is Some <==> (s@.len() > 0 && all_digits(s@) && number_of(s@) <= u64::MAX),
        r matches Some(n) ==> n == number_of(s@),
{
    if s.len() == 0 || !digits_only(s) {
        return None;
    }
    let mut n: u64 = 0;
    let mut i: usize = 0;
    while i < s.len()
        invariant
            i <= s.len(),
            all_digits(s@),
            n == number_of(s@.take(i as int)),
        decreases s.len() - i,
    {
        let d: u64 = value_of_digit(s[i]);
        proof {
            let t = s@.take(i + 1);
            assert(t.drop_last() == s@.take(i as int));
            assert(t.last() == s@[i as int]);
            assert(number_of(t) == n * 10 + d);
            // The value never shrinks as more digits are read.
            assert(s@ == t + s@.skip(i + 1));
            lemma_number_concat(t, s@.skip(i + 1));
            lemma_pow10((s@.len() - i - 1) as nat);
            assert(number_of(t) <= number_of(s@)) by (nonlinear_arith)
                requires
                    number_of(s@) == number_of(t) * pow10((s@.len() - i - 1) as nat) + number_of(
                        s@.skip(i + 1),
                    ),
                    pow10((s@.len() - i - 1) as nat) >= 1,
            ;
        }
        if n > (u64::MAX - d) / 10 {
            return None;
        }
        n = n * 10 + d;
        i = i + 1;
    }
    assert(s@.take(s.len() as int) == s@);
    Some(n)
}

/// The number that a word writes: digits, with or without a plus sign
/// before them.
pub open spec fn unsigned_of(word: Seq<char>) -> Option<nat> {
    let digits = if word.len() > 0 && word[0] == '+' {
        word.skip(1)
    } else {
        word
    };
    if digits.len() > 0 && all_digits(digits) {
        Some(number_of(digits))
    } else {
        None
    }
}

/// Reads an unsigned decimal number that may have a plus sign before it.
pub fn parse_unsigned(word: &Vec<char>) -> (r: Option<u64>)
    ensures
        r is Some <==> (unsigned_of(word@) is Some && unsigned_of(word@)->0 <= u64::MAX),
        r matches Some(n) ==> unsigned_of(word@) == Some(n as nat),
{
    if word.len() > 0 && word[0] == '+' {
        let digits = crate::text::slice_of(word, 1, word.len());
        assert(digits@ == word@.skip(1));
        parse_u64(&digits)
    } else {
        parse_u64(word)
    }
}

} // verus!
