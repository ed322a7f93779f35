//! Human-readable byte counts.

use vstd::prelude::*;
use crate::number::{decimal, push_decimal};
use crate::text::{chars_of, push_all, string_of};

verus! {

pub const KB: u64 = 1_000;

pub const MB: u64 = 1_000_000;

pub const GB: u64 = 1_000_000_000;

pub const TB: u64 = 1_000_000_000_000;

/// `num / den` rounded to the nearest integer, a tie going to the even
/// neighbour.
pub open spec fn round_half_even(num: nat, den: nat) -> nat {
    let q = num / den;
    let r = num % den;
    if 2 * r > den || (2 * r == den && q % 2 == 1) {
        q + 1
    } else {
        q
    }
}

/// A byte count in the given unit: a whole number where the count is a
/// multiple of the unit, otherwise with one decimal place.
pub open spec fn in_unit(bytes: nat, unit: nat, suffix: Seq<char>) -> Seq<char> {
    if bytes % unit == 0 {
        decimal(bytes / unit) + suffix
    } else {
        let t = round_half_even(bytes * 10, unit);
        decimal(t / 10) + seq!['.'] + decimal(t % 10) + suffix
    }
}

/// A byte count in the largest decimal unit that it reaches.
pub open spec fn bytes_text(bytes: nat) -> Seq<char> {
    if bytes >= TB {
        in_unit(bytes, TB as nat, "TB"@)
    } else if bytes >= GB {
        in_unit(bytes, GB as nat, "GB"@)
    } else if bytes >= MB {
        in_unit(bytes, MB as nat, "MB"@)
    } else if bytes >= KB {
        in_unit(bytes, KB as nat, "KB"@)
    } else {
        decimal(bytes) + "B"@
    }
}

fn write_in_unit(bytes: u64, unit: u64, suffix: &str) -> (s: String)
    requires
        unit >= 1000,
    ensures
        s@ == in_unit(bytes as nat, unit as nat, suffix@),
{
    let mut v: Vec<char> = Vec::new();
    let tail = chars_of(suffix);
    if bytes % unit == 0 {
        push_decimal(&mut v, bytes / unit);
        push_all(&mut v, &tail);
        assert(v@ == decimal((bytes / unit) as nat) + suffix@);
    } else {
        let num: u128 = bytes as u128 * 10;
        let den: u128 = unit as u128;
        let q: u128 = num / den;
        let r: u128 = num % den;
        assert(q <= num);
        let t: u128 = if 2 * r > den || (2 * r == den && q % 2 == 1) {
            q + 1
        } else {
            q
        };
        assert(t == round_half_even((bytes * 10) as nat, unit as nat));
        assert(q * den <= num) by (nonlinear_arith)
            requires
                q == num / den,
                den > 0,
        ;
        assert(q <= u64::MAX) by (nonlinear_arith)
            requires
                q * den <= num,
                den >= 1000,
                num <= 10 * u64::MAX,
        ;
        let whole: u64 = (t / 10) as u64;
        let tenth: u64 = (t % 10) as u64;
        push_decimal(&mut v, whole);
        v.push('.');
        push_decimal(&mut v, tenth);
        push_all(&mut v, &tail);
        assert(v@ == decimal((t / 10) as nat) + seq!['.'] + decimal((t % 10) as nat) + suffix@);
    }
    string_of(&v)
}

/// Writes a byte count for the operator: `1500` is `1.5KB`, `2000000` is
/// `2MB`, `999` is `999B`.
pub fn format_bytes(bytes: u64) -> (s: String)
    ensures
        s@ == bytes_text(bytes as nat),
{
    if bytes >= TB {
        write_in_unit(bytes, TB, "TB")
    } else if bytes >= GB {
        write_in_unit(bytes, GB, "GB")
    } else if bytes >= MB {
        write_in_unit(bytes, MB, "MB")
    } else if bytes >= KB {
        write_in_unit(bytes, KB, "KB")
    } else {
        let mut v: Vec<char> = Vec::new();
        push_decimal(&mut v, bytes);
        let tail = chars_of("B");
        push_all(&mut v, &tail);
        assert(v@ == decimal(bytes as nat) + "B"@);
        string_of(&v)
    }
}

} // verus!
