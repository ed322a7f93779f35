//! Device names: which are safe to hand to a tool, which path a name stands
//! for, and how a partition's name divides into disk and index.

use vstd::prelude::*;
use vstd::string::*;
use crate::error::{fail, join2, ErrorKind, OpError};
use crate::number::{all_digits, digit};
use crate::text::{chars_of, has_prefix, has_sub, is_digit, starts_with, string_of_range};

verus! {

/// The longest device name that is accepted.
pub const MAX_NAME_LEN: usize = 32;

/// A character that may stand in a device name: an ASCII letter or digit, a
/// hyphen or an underscore.
pub open spec fn name_char(c: char) -> bool {
    ('a' <= c <= 'z') || ('A' <= c <= 'Z') || is_digit(c) || c == '-' || c == '_'
}

/// Every character of `s` may stand in a device name.
pub open spec fn name_chars_only(s: Seq<char>) -> bool {
    forall|i: int| 0 <= i < s.len() ==> name_char(#[trigger] s[i])
}

/// A name that may be interpolated into a command: not empty, at most 32
/// characters, all of them name characters.
pub open spec fn valid_device_name(s: Seq<char>) -> bool {
    0 < s.len() <= MAX_NAME_LEN && name_chars_only(s)
}

/// What is wrong with a device name, if anything. The checks are made in
/// this order: emptiness, characters, length.
pub open spec fn name_fault(s: Seq<char>) -> Option<Seq<char>> {
    if s.len() == 0 {
        Some("Device name cannot be empty"@)
    } else if !name_chars_only(s) {
        Some("Invalid device name: contains illegal characters"@)
    } else if s.len() > MAX_NAME_LEN {
        Some("Invalid device name: too long"@)
    } else {
        None
    }
}

/// A name that holds a slash, two dots in a row, any character other than a
/// letter, digit, hyphen or underscore, or more than 32 characters is not
/// valid.
pub proof fn law_unsafe_names_are_refused(s: Seq<char>)
    requires
        has_sub(s, "/"@) || has_sub(s, ".."@) || (exists|i: int|
            0 <= i < s.len() && !name_char(#[trigger] s[i])) || s.len() > 32,
    ensures
        !valid_device_name(s),
        name_fault(s) is Some,
{
    reveal_strlit("/");
    reveal_strlit("..");
    if has_sub(s, "/"@) {
        let i = choose|i: int| crate::text::found_at(s, "/"@, i);
        assert(s.subrange(i, i + 1)[0] == '/');
        assert(!name_char(s[i]));
    } else if has_sub(s, ".."@) {
        let i = choose|i: int| crate::text::found_at(s, ".."@, i);
        assert(s.subrange(i, i + 2)[0] == '.');
        assert(!name_char(s[i]));
    }
}

/// Whether `c` may stand in a device name.
pub fn is_name_char(c: char) -> (b: bool)
    ensures
        b == name_char(c),
{
    ('a' <= c && c <= 'z') || ('A' <= c && c <= 'Z') || digit(c) || c == '-' || c == '_'
}

/// Checks a device name before it reaches any command line.
pub fn validate_device_name(name: &str) -> (r: Result<(), OpError>)
    ensures
        r is Ok <==> valid_device_name(name@),
        r is Ok <==> name_fault(name@) is None,
        r matches Err(e) ==> e.kind == ErrorKind::Validation && Some(e.message@) == name_fault(
            name@,
        ),
{
    let v = chars_of(name);
    if v.len() == 0 {
        return Err(fail(ErrorKind::Validation, String::from_str("Device name cannot be empty")));
    }
    let mut i: usize = 0;
    while i < v.len()
        invariant
            i <= v.len(),
            v@ == name@,
            v.len() > 0,
            forall|j: int| 0 <= j < i ==> name_char(#[trigger] v@[j]),
        decreases v.len() - i,
    {
        if !is_name_char(v[i]) {
            assert(!name_char(name@[i as int]));
            return Err(
                fail(
                    ErrorKind::Validation,
                    String::from_str("Invalid device name: contains illegal characters"),
                ),
            );
        }
        i = i + 1;
    }
    if v.len() > MAX_NAME_LEN {
        return Err(fail(ErrorKind::Validation, String::from_str("Invalid device name: too long")));
    }
    Ok(())
}

/// The node of an unlocked mapping of the given name.
pub open spec fn mapper_path(name: Seq<char>) -> Seq<char> {
    "/dev/mapper/"@ + name
}

/// The node of a disk or partition of the given name.
pub open spec fn raw_path(name: Seq<char>) -> Seq<char> {
    "/dev/"@ + name
}

/// The path that a logical device name stands for. Where a mapping of that
/// name exists, it is the mapping's node. Otherwise it is the raw node; a
/// name that begins with `luks-` then falls back to the device it was
/// derived from.
pub open spec fn device_path(name: Seq<char>, mapper_exists: bool) -> Seq<char> {
    if mapper_exists {
        mapper_path(name)
    } else if has_prefix(name, "luks-"@) {
        raw_path(name.skip(5))
    } else {
        raw_path(name)
    }
}

/// The node of an unlocked mapping of the given name.
pub fn mapper_node(name: &str) -> (p: String)
    ensures
        p@ == mapper_path(name@),
{
    join2("/dev/mapper/", name)
}

/// The node of a disk or partition of the given name.
pub fn raw_node(name: &str) -> (p: String)
    ensures
        p@ == raw_path(name@),
{
    join2("/dev/", name)
}

/// Resolves a logical device name to a path, given whether a mapping of
/// that name exists.
pub fn get_device_path(device_name: &str, mapper_exists: bool) -> (p: String)
    ensures
        p@ == device_path(device_name@, mapper_exists),
{
    if mapper_exists {
        return mapper_node(device_name);
    }
    let v = chars_of(device_name);
    let prefix = chars_of("luks-");
    proof {
        reveal_strlit("luks-");
    }
    if starts_with(&v, &prefix) {
        let base = string_of_range(&v, 5, v.len());
        assert(v@.subrange(5, v.len() as int) == v@.skip(5));
        raw_node(base.as_str())
    } else {
        raw_node(device_name)
    }
}

/// The number of decimal digits at the end of `s`.
pub open spec fn trailing_digits(s: Seq<char>) -> nat
    decreases s.len(),
{
    if s.len() > 0 && is_digit(s.last()) {
        1 + trailing_digits(s.drop_last())
    } else {
        0
    }
}

pub proof fn lemma_trailing_digits(s: Seq<char>)
    ensures
        trailing_digits(s) <= s.len(),
        all_digits(s.skip(s.len() - trailing_digits(s))),
        trailing_digits(s) < s.len() ==> !is_digit(s[s.len() - trailing_digits(s) - 1]),
    decreases s.len(),
{
    let d = trailing_digits(s);
    if s.len() > 0 && is_digit(s.last()) {
        let t = s.drop_last();
        lemma_trailing_digits(t);
        let a = s.skip(s.len() - d);
        let b = t.skip(t.len() - trailing_digits(t));
        assert forall|i: int| 0 <= i < a.len() implies is_digit(#[trigger] a[i]) by {
            if i < a.len() - 1 {
                assert(a[i] == b[i]);
            }
        }
        if d < s.len() {
            assert(s[s.len() - d - 1] == t[t.len() - trailing_digits(t) - 1]);
        }
    }
}

pub proof fn lemma_trailing_digits_unique(s: Seq<char>, k: int)
    requires
        0 <= k <= s.len(),
        forall|i: int| s.len() - k <= i < s.len() ==> is_digit(#[trigger] s[i]),
        k < s.len() ==> !is_digit(s[s.len() - k - 1]),
    ensures
        trailing_digits(s) == k,
{
    lemma_trailing_digits(s);
    let n = trailing_digits(s) as int;
    let a = s.skip(s.len() - n);
    if n < k {
        assert(is_digit(s[s.len() - n - 1]));
    } else if k < n {
        assert(a[n - k - 1] == s[s.len() - k - 1]);
        assert(is_digit(a[n - k - 1]));
    }
}

/// Disks whose partitions are named with a `p` between disk and index.
pub open spec fn uses_p_separator(s: Seq<char>) -> bool {
    has_prefix(s, "nvme"@) || has_prefix(s, "mmcblk"@)
}

/// A partition name divided into the disk's name and the partition's index.
/// The index is the run of digits at the end and must not be empty. For
/// `nvme` and `mmcblk` devices a `p` stands between the two and belongs to
/// neither.
pub open spec fn partition_split(s: Seq<char>) -> Option<(Seq<char>, Seq<char>)> {
    let d = trailing_digits(s);
    let n = s.len();
    if d == 0 {
        None
    } else if uses_p_separator(s) {
        if n - d >= 1 && s[n - d - 1] == 'p' {
            Some((s.take(n - d - 1), s.skip(n - d)))
        } else {
            None
        }
    } else {
        Some((s.take(n - d), s.skip(n - d)))
    }
}

/// The disk's name in a partition name; empty where the name does not
/// divide.
pub open spec fn disk_part(s: Seq<char>) -> Seq<char> {
    match partition_split(s) {
        Some((disk, index)) => disk,
        None => Seq::empty(),
    }
}

/// The partition's index in a partition name, as digits; empty where the
/// name does not divide.
pub open spec fn index_part(s: Seq<char>) -> Seq<char> {
    match partition_split(s) {
        Some((disk, index)) => index,
        None => Seq::empty(),
    }
}

/// Divides a partition name into disk and index.
pub fn split_partition_name(partition: &str) -> (r: Option<(String, String)>)
    ensures
        r is Some <==> partition_split(partition@) is Some,
        r matches Some(parts) ==> partition_split(partition@) == Some((parts.0@, parts.1@)),
{
    let v = chars_of(partition);
    let n: usize = v.len();
    let mut b: usize = n;
    while b > 0 && digit(v[b - 1])
        invariant
            b <= n,
            n == v.len(),
            forall|i: int| b <= i < n ==> is_digit(#[trigger] v@[i]),
        decreases b,
    {
        b = b - 1;
    }
    proof {
        lemma_trailing_digits_unique(v@, n - b);
        reveal_strlit("nvme");
        reveal_strlit("mmcblk");
    }
    if b == n {
        return None;
    }
    let nvme = chars_of("nvme");
    let mmc = chars_of("mmcblk");
    if starts_with(&v, &nvme) || starts_with(&v, &mmc) {
        if b >= 1 && v[b - 1] == 'p' {
            let disk = string_of_range(&v, 0, b - 1);
            let index = string_of_range(&v, b, n);
            assert(v@.subrange(0, b - 1) == v@.take(b - 1));
            assert(v@.subrange(b as int, n as int) == v@.skip(b as int));
            Some((disk, index))
        } else {
            None
        }
    } else {
        let disk = string_of_range(&v, 0, b);
        let index = string_of_range(&v, b, n);
        assert(v@.subrange(0, b as int) == v@.take(b as int));
        assert(v@.subrange(b as int, n as int) == v@.skip(b as int));
        Some((disk, index))
    }
}

} // verus!
