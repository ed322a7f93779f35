//! A partition as the inventory reports it.

use vstd::prelude::*;
use crate::number::{decimal, push_decimal};
use crate::text::{chars_of, opt_text, push_all, string_of};
use crate::utils::{bytes_text, format_bytes};

verus! {

/// One partition of a disk, or a filesystem that covers a whole disk.
#[derive(Debug, Clone, PartialEq, Eq)]
pub struct Partition {
    pub name: String,
    pub size: u64,
    pub filesystem: Option<String>,
    pub mount_point: Option<String>,
    pub is_mounted: bool,
    pub label: Option<String>,
    pub used_bytes: Option<u64>,
    pub available_bytes: Option<u64>,
    pub is_encrypted: bool,
    pub encryption_type: Option<String>,
    pub luks_uuid: Option<String>,
    pub mapper_device: Option<String>,
}

/// The mathematical content of a [`Partition`].
pub struct PartitionView {
    pub name: Seq<char>,
    pub size: nat,
    pub filesystem: Option<Seq<char>>,
    pub mount_point: Option<Seq<char>>,
    pub is_mounted: bool,
    pub label: Option<Seq<char>>,
    pub used_bytes: Option<u64>,
    pub available_bytes: Option<u64>,
    pub is_encrypted: bool,
    pub encryption_type: Option<Seq<char>>,
    pub luks_uuid: Option<Seq<char>>,
    pub mapper_device: Option<Seq<char>>,
}

impl View for Partition {
    type V = PartitionView;

    open spec fn view(&self) -> PartitionView {
        PartitionView {
            name: self.name@,
            size: self.size as nat,
            filesystem: opt_text(self.filesystem),
            mount_point: opt_text(self.mount_point),
            is_mounted: self.is_mounted,
            label: opt_text(self.label),
            used_bytes: self.used_bytes,
            available_bytes: self.available_bytes,
            is_encrypted: self.is_encrypted,
            encryption_type: opt_text(self.encryption_type),
            luks_uuid: opt_text(self.luks_uuid),
            mapper_device: opt_text(self.mapper_device),
        }
    }
}

/// The share of the used bytes in used plus available bytes, in whole
/// percent, rounded down; zero where both are zero.
pub open spec fn usage_percent(used: nat, available: nat) -> nat {
    if used + available > 0 {
        used * 100 / (used + available)
    } else {
        0
    }
}

/// `n` copies of `s` in a row.
pub open spec fn repeated(s: Seq<char>, n: nat) -> Seq<char>
    decreases n,
{
    if n == 0 {
        Seq::empty()
    } else {
        repeated(s, (n - 1) as nat) + s
    }
}

/// How many cells of a bar of `length` cells are filled at `percentage`.
pub open spec fn filled_cells(percentage: nat, length: nat) -> nat {
    if percentage * length / 100 < length {
        percentage * length / 100
    } else {
        length
    }
}

/// A usage bar: the filled cells, the empty cells, and the percentage.
pub open spec fn bar_text(
    percentage: nat,
    filled: Seq<char>,
    empty: Seq<char>,
    length: nat,
) -> Seq<char> {
    let f = filled_cells(percentage, length);
    seq!['['] + repeated(filled, f) + repeated(empty, (length - f) as nat) + seq![']', ' ']
        + decimal(percentage) + seq!['%']
}

/// Used and total bytes followed by the usage bar.
pub open spec fn usage_text(
    used: nat,
    available: nat,
    filled: Seq<char>,
    empty: Seq<char>,
    length: nat,
) -> Seq<char> {
    bytes_text(used) + seq!['/'] + bytes_text(used + available) + seq![' '] + bar_text(
        usage_percent(used, available),
        filled,
        empty,
        length,
    )
}

fn push_repeated(out: &mut Vec<char>, s: &Vec<char>, n: usize)
    ensures
        final(out)@ == old(out)@ + repeated(s@, n as nat),
{
    let mut i: usize = 0;
    assert(old(out)@ + repeated(s@, 0) == old(out)@);
    while i < n
        invariant
            i <= n,
            out@ == old(out)@ + repeated(s@, i as nat),
        decreases n - i,
    {
        push_all(out, s);
        i = i + 1;
        assert(old(out)@ + repeated(s@, (i - 1) as nat) + s@ == old(out)@ + repeated(
            s@,
            i as nat,
        ));
    }
}

/// What was found out about a partition's encryption: the header's version
/// and UUID where the header could be read, and the mapping as which the
/// partition is unlocked, with the place where that mapping is mounted.
#[derive(Debug, Clone, PartialEq, Eq)]
pub struct Encryption {
    pub version: Option<String>,
    pub uuid: Option<String>,
    pub mapper_device: Option<String>,
    pub mapper_mount_point: Option<String>,
}

/// The mathematical content of an [`Encryption`].
pub struct EncryptionView {
    pub version: Option<Seq<char>>,
    pub uuid: Option<Seq<char>>,
    pub mapper_device: Option<Seq<char>>,
    pub mapper_mount_point: Option<Seq<char>>,
}

impl View for Encryption {
    type V = EncryptionView;

    open spec fn view(&self) -> EncryptionView {
        EncryptionView {
            version: opt_text(self.version),
            uuid: opt_text(self.uuid),
            mapper_device: opt_text(self.mapper_device),
            mapper_mount_point: opt_text(self.mapper_mount_point),
        }
    }
}

/// The content of an optional [`Encryption`].
pub open spec fn opt_encryption(o: Option<Encryption>) -> Option<EncryptionView> {
    match o {
        Some(e) => Some(e@),
        None => None,
    }
}

/// The bytes that a mounted filesystem uses and has left.
#[derive(Debug, Clone, Copy, PartialEq, Eq, Structural)]
pub struct Usage {
    pub used: u64,
    pub available: u64,
}

/// Where the active device of a partition is mounted: for a partition that
/// is unlocked, the mount point of its mapping if it has one, else the
/// partition's own; for any other partition, its own.
pub open spec fn active_mount_point(
    own: Option<Seq<char>>,
    encryption: Option<EncryptionView>,
) -> Option<Seq<char>> {
    if encryption is Some && encryption->0.mapper_device is Some
        && encryption->0.mapper_mount_point is Some {
        encryption->0.mapper_mount_point
    } else {
        own
    }
}

/// The record of a partition, put together from what the inventory found.
/// A partition is encrypted where an encryption was found; it counts as
/// mounted where its active device has a mount point; and its usage is kept
/// only where it is mounted.
pub open spec fn assembled(
    name: Seq<char>,
    size: u64,
    filesystem: Option<Seq<char>>,
    mount_point: Option<Seq<char>>,
    label: Option<Seq<char>>,
    encryption: Option<EncryptionView>,
    usage: Option<Usage>,
) -> PartitionView {
    let at = active_mount_point(mount_point, encryption);
    PartitionView {
        name,
        size: size as nat,
        filesystem,
        mount_point: at,
        is_mounted: at is Some,
        label,
        used_bytes: if at is Some && usage is Some {
            Some(usage->0.used)
        } else {
            None
        },
        available_bytes: if at is Some && usage is Some {
            Some(usage->0.available)
        } else {
            None
        },
        is_encrypted: encryption is Some,
        encryption_type: if encryption is Some {
            encryption->0.version
        } else {
            None
        },
        luks_uuid: if encryption is Some {
            encryption->0.uuid
        } else {
            None
        },
        mapper_device: if encryption is Some {
            encryption->0.mapper_device
        } else {
            None
        },
    }
}

/// Finds where the active device of a partition is mounted.
pub fn active_mount(mount_point: &Option<String>, encryption: &Option<Encryption>) -> (r: Option<
    String,
>)
    ensures
        opt_text(r) == active_mount_point(opt_text(*mount_point), opt_encryption(*encryption)),
{
    match encryption {
        Some(e) => {
            if e.mapper_device.is_some() && e.mapper_mount_point.is_some() {
                crate::text::copy_opt(&e.mapper_mount_point)
            } else {
                crate::text::copy_opt(mount_point)
            }
        },
        None => crate::text::copy_opt(mount_point),
    }
}

impl Partition {
    /// A partition never reports a mapping unless it is encrypted, and it
    /// counts as mounted exactly when it has a mount point.
    pub open spec fn wf(&self) -> bool {
        &&& self.mapper_device is Some ==> self.is_encrypted
        &&& self.is_mounted == (self.mount_point is Some)
    }

    /// Puts together the record of a partition from what the inventory
    /// found. `encryption` is `None` for a partition that is no encrypted
    /// container.
    pub fn assemble(
        name: String,
        size: u64,
        filesystem: Option<String>,
        mount_point: Option<String>,
        label: Option<String>,
        encryption: Option<Encryption>,
        usage: Option<Usage>,
    ) -> (p: Partition)
        ensures
            p.wf(),
            p@ == assembled(
                name@,
                size,
                opt_text(filesystem),
                opt_text(mount_point),
                opt_text(label),
                opt_encryption(encryption),
                usage,
            ),
    {
        let is_encrypted = encryption.is_some();
        let (encryption_type, luks_uuid, mapper_device, mapper_mount) = match encryption {
            Some(e) => (e.version, e.uuid, e.mapper_device, e.mapper_mount_point),
            None => (None, None, None, None),
        };
        let actual = if mapper_device.is_some() && mapper_mount.is_some() {
            mapper_mount
        } else {
            mount_point
        };
        let is_mounted = actual.is_some();
        let (used_bytes, available_bytes) = match usage {
            Some(u) => {
                if is_mounted {
                    (Some(u.used), Some(u.available))
                } else {
                    (None, None)
                }
            },
            None => (None, None),
        };
        Partition {
            name,
            size,
            filesystem,
            mount_point: actual,
            is_mounted,
            label,
            used_bytes,
            available_bytes,
            is_encrypted,
            encryption_type,
            luks_uuid,
            mapper_device,
        }
    }

    /// The partition's size for the operator.
    pub fn size_str(&self) -> (s: String)
        ensures
            s@ == bytes_text(self.size as nat),
    {
        format_bytes(self.size)
    }

    /// The used share in percent, where both byte counts are known.
    pub fn usage_percentage(&self) -> (r: Option<u8>)
        ensures
            r is Some <==> (self.used_bytes is Some && self.available_bytes is Some),
            r matches Some(p) ==> p == usage_percent(
                self.used_bytes->0 as nat,
                self.available_bytes->0 as nat,
            ),
    {
        match (self.used_bytes, self.available_bytes) {
            (Some(used), Some(avail)) => {
                let total: u128 = used as u128 + avail as u128;
                if total > 0 {
                    let p: u128 = used as u128 * 100 / total;
                    assert(p <= 100) by (nonlinear_arith)
                        requires
                            p == (used as int * 100) / (total as int),
                            used as int <= total as int,
                            total > 0,
                    ;
                    Some(p as u8)
                } else {
                    Some(0)
                }
            },
            _ => None,
        }
    }

    /// A bar of `length` cells for the given percentage.
    pub fn usage_bar(&self, percentage: u8, filled_char: &str, empty_char: &str, length: u8) -> (s:
        String)
        ensures
            s@ == bar_text(percentage as nat, filled_char@, empty_char@, length as nat),
    {
        let bar_length: usize = length as usize;
        assert(percentage as int * bar_length as int <= 65025) by (nonlinear_arith)
            requires
                0 <= percentage as int <= 255,
                0 <= bar_length as int <= 255,
        ;
        let scaled: usize = (percentage as usize * bar_length) / 100;
        let filled: usize = if scaled < bar_length {
            scaled
        } else {
            bar_length
        };
        let empty: usize = bar_length - filled;
        let f = chars_of(filled_char);
        let e = chars_of(empty_char);
        let mut v: Vec<char> = Vec::new();
        v.push('[');
        push_repeated(&mut v, &f, filled);
        push_repeated(&mut v, &e, empty);
        v.push(']');
        v.push(' ');
        push_decimal(&mut v, percentage as u64);
        v.push('%');
        assert(v@ == bar_text(percentage as nat, filled_char@, empty_char@, length as nat));
        string_of(&v)
    }

    /// Used and total bytes with the usage bar, or `N/A` where the usage is
    /// not known.
    pub fn usage_str(&self, filled_char: &str, empty_char: &str, length: u8) -> (s: String)
        ensures
            (self.used_bytes is Some && self.available_bytes is Some && self.used_bytes->0
                + self.available_bytes->0 <= u64::MAX) ==> s@ == usage_text(
                self.used_bytes->0 as nat,
                self.available_bytes->0 as nat,
                filled_char@,
                empty_char@,
                length as nat,
            ),
            !(self.used_bytes is Some && self.available_bytes is Some && self.used_bytes->0
                + self.available_bytes->0 <= u64::MAX) ==> s@ == "N/A"@,
    {
        match (self.used_bytes, self.available_bytes) {
            (Some(used), Some(avail)) => {
                if avail > u64::MAX - used {
                    return String::from_str("N/A");
                }
                let total: u64 = used + avail;
                let p = self.usage_percentage();
                let percentage: u8 = match p {
                    Some(x) => x,
                    None => 0,
                };
                let mut v = chars_of(format_bytes(used).as_str());
                v.push('/');
                let t = chars_of(format_bytes(total).as_str());
                push_all(&mut v, &t);
                v.push(' ');
                let bar = chars_of(
                    self.usage_bar(percentage, filled_char, empty_char, length).as_str(),
                );
                push_all(&mut v, &bar);
                string_of(&v)
            },
            _ => String::from_str("N/A"),
        }
    }
}

} // verus!
