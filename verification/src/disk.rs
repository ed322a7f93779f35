//! A disk with what its self-monitoring reports.

use vstd::prelude::*;
use crate::operations::inventory::{free_bytes, free_space};
use crate::operations::{partition_views, BlockDevice, SmartData};
use crate::partition::PartitionView;
use crate::text::{begins_with, chars_of, equal, has_prefix, push_all, string_of};
use crate::utils::{bytes_text, format_bytes};

verus! {

/// A disk as the front end shows it.
#[derive(Debug, Clone, PartialEq, Eq)]
pub struct Disk {
    pub device: BlockDevice,
    pub smart_data: Option<SmartData>,
}

/// The kind of a disk, told by the beginning of its name.
pub open spec fn device_kind(name: Seq<char>) -> Seq<char> {
    if has_prefix(name, "nvme"@) {
        "NVME"@
    } else if has_prefix(name, "sd"@) {
        "SSD/HDD"@
    } else if has_prefix(name, "mmcblk"@) {
        "MMC"@
    } else if has_prefix(name, "loop"@) {
        "LOOP"@
    } else if has_prefix(name, "dm-"@) {
        "LVM"@
    } else if has_prefix(name, "md"@) {
        "RAID"@
    } else if has_prefix(name, "vd"@) {
        "VIRTIO"@
    } else if has_prefix(name, "hd"@) {
        "IDE"@
    } else {
        "DISK"@
    }
}

/// The partitions of a layout bar: each with its size, a bar between two.
pub open spec fn layout_parts(parts: Seq<PartitionView>) -> Seq<char>
    decreases parts.len(),
{
    if parts.len() == 0 {
        Seq::empty()
    } else {
        let before = if parts.len() == 1 {
            Seq::<char>::empty()
        } else {
            layout_parts(parts.drop_last()) + " | "@
        };
        before + parts.last().name + " ("@ + bytes_text(parts.last().size) + ")"@
    }
}

/// The free space of a layout bar; nothing where no space is free.
pub open spec fn layout_free(free: nat, after_parts: bool) -> Seq<char> {
    if free == 0 {
        Seq::empty()
    } else if after_parts {
        " | FREE ("@ + bytes_text(free) + ")"@
    } else {
        "FREE ("@ + bytes_text(free) + ")"@
    }
}

/// How a disk is laid out, in one line: its partitions in order, and the
/// space that is free.
pub open spec fn layout_text(size: nat, parts: Seq<PartitionView>, free: nat) -> Seq<char> {
    if size == 0 {
        "[ EMPTY ]"@
    } else {
        "[ "@ + layout_parts(parts) + layout_free(free, parts.len() > 0) + " ]"@
    }
}

/// Writes the layout of a disk in one line.
pub fn generate_layout_bar(disk: &Disk) -> (s: String)
    ensures
        s@ == layout_text(
            disk.device.size as nat,
            partition_views(disk.device.partitions@),
            free_space(disk.device@),
        ),
{
    if disk.device.size == 0 {
        return String::from_str("[ EMPTY ]");
    }
    let free: u64 = free_bytes(&disk.device);
    let parts = &disk.device.partitions;
    let ghost all = partition_views(parts@);
    let open = chars_of(" (");
    let close = chars_of(")");
    let bar = chars_of(" | ");
    let mut body: Vec<char> = Vec::new();
    let mut i: usize = 0;
    assert(all.take(0) == Seq::<PartitionView>::empty());
    while i < parts.len()
        invariant
            i <= parts.len(),
            all == partition_views(parts@),
            open@ == " ("@,
            close@ == ")"@,
            bar@ == " | "@,
            body@ == layout_parts(all.take(i as int)),
        decreases parts.len() - i,
    {
        proof {
            let cur = all.take(i + 1);
            assert(cur.drop_last() == all.take(i as int));
            assert(cur.last() == parts@[i as int]@);
        }
        if i > 0 {
            push_all(&mut body, &bar);
        }
        let name = chars_of(parts[i].name.as_str());
        let size = chars_of(format_bytes(parts[i].size).as_str());
        push_all(&mut body, &name);
        push_all(&mut body, &open);
        push_all(&mut body, &size);
        push_all(&mut body, &close);
        i = i + 1;
    }
    assert(all.take(parts.len() as int) == all);
    let mut line = chars_of("[ ");
    push_all(&mut line, &body);
    if free > 0 {
        let label = if parts.len() > 0 {
            chars_of(" | FREE (")
        } else {
            chars_of("FREE (")
        };
        let size = chars_of(format_bytes(free).as_str());
        let mut tail = label;
        push_all(&mut tail, &size);
        push_all(&mut tail, &close);
        push_all(&mut line, &tail);
    } else {
        assert(line@ + Seq::<char>::empty() == line@);
    }
    let end = chars_of(" ]");
    push_all(&mut line, &end);
    string_of(&line)
}

impl Disk {
    /// The bytes of the disk that no partition takes.
    pub fn free_space(&self) -> (n: u64)
        ensures
            n == free_space(self.device@),
    {
        free_bytes(&self.device)
    }

    /// Whether the disk has a partition table. A disk without one shows as
    /// a single partition that bears the disk's own name.
    pub fn has_partition_table(&self) -> (b: bool)
        ensures
            b == !(self.device.partitions.len() == 1 && self.device.partitions[0].name@
                == self.device.name@),
    {
        !(self.device.partitions.len() == 1 && equal(
            self.device.partitions[0].name.as_str(),
            self.device.name.as_str(),
        ))
    }

    pub fn new(device: BlockDevice, smart_data: Option<SmartData>) -> (d: Disk)
        ensures
            d.device == device,
            d.smart_data == smart_data,
    {
        Disk { device, smart_data }
    }

    /// The disk's size for the operator.
    pub fn size_str(&self) -> (s: String)
        ensures
            s@ == bytes_text(self.device.size as nat),
    {
        format_bytes(self.device.size)
    }

    /// The kind of the disk.
    pub fn device_type(&self) -> (s: &str)
        ensures
            s@ == device_kind(self.device.name@),
    {
        let name = self.device.name.as_str();
        if begins_with(name, "nvme") {
            "NVME"
        } else if begins_with(name, "sd") {
            "SSD/HDD"
        } else if begins_with(name, "mmcblk") {
            "MMC"
        } else if begins_with(name, "loop") {
            "LOOP"
        } else if begins_with(name, "dm-") {
            "LVM"
        } else if begins_with(name, "md") {
            "RAID"
        } else if begins_with(name, "vd") {
            "VIRTIO"
        } else if begins_with(name, "hd") {
            "IDE"
        } else {
            "DISK"
        }
    }
}

} // verus!
