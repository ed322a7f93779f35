//! What the operations read from the inventory of disks and partitions.

use vstd::prelude::*;
use crate::device::{mapper_node, mapper_path};
use crate::engine::{
    args2, args4, run, tool, Action, ActionView, Outcome, OutcomeView, ToolResult, ToolResultView,
};
use crate::number::{parse_unsigned, unsigned_of};
use crate::operations::{device_views, partition_views, BlockDevice, BlockDeviceView};
use crate::partition::{Partition, PartitionView, Usage};
use crate::text::{
    chars_of, equal, lines_of, opt_text, split_lines, split_words, string_of, trim, trimmed, views,
    words_of,
};

verus! {

/// The first disk of the given name.
pub open spec fn find_disk(devices: Seq<BlockDeviceView>, name: Seq<char>) -> Option<
    BlockDeviceView,
>
    decreases devices.len(),
{
    if devices.len() == 0 {
        None
    } else if devices[0].name == name {
        Some(devices[0])
    } else {
        find_disk(devices.skip(1), name)
    }
}

/// The first partition of the given name.
pub open spec fn find_part(parts: Seq<PartitionView>, name: Seq<char>) -> Option<PartitionView>
    decreases parts.len(),
{
    if parts.len() == 0 {
        None
    } else if parts[0].name == name {
        Some(parts[0])
    } else {
        find_part(parts.skip(1), name)
    }
}

/// The sum of the partitions' sizes.
pub open spec fn used_space(parts: Seq<PartitionView>) -> nat
    decreases parts.len(),
{
    if parts.len() == 0 {
        0
    } else {
        used_space(parts.drop_last()) + parts.last().size
    }
}

/// The bytes of a disk that no partition takes.
pub open spec fn free_space(disk: BlockDeviceView) -> nat {
    if disk.size > used_space(disk.partitions) {
        (disk.size - used_space(disk.partitions)) as nat
    } else {
        0
    }
}

/// The index of the first disk of the given name.
pub fn find_device(devices: &Vec<BlockDevice>, name: &str) -> (r: Option<usize>)
    ensures
        r is Some <==> find_disk(device_views(devices@), name@) is Some,
        r matches Some(i) ==> i < devices.len() && find_disk(device_views(devices@), name@)
            == Some(devices@[i as int]@),
{
    let mut i: usize = 0;
    let ghost all = device_views(devices@);
    assert(all.skip(0) == all);
    while i < devices.len()
        invariant
            i <= devices.len(),
            all == device_views(devices@),
            find_disk(all.skip(i as int), name@) == find_disk(all, name@),
        decreases devices.len() - i,
    {
        let ghost rest = all.skip(i as int);
        assert(rest[0] == devices@[i as int]@);
        assert(rest.skip(1) == all.skip(i + 1));
        if equal(devices[i].name.as_str(), name) {
            return Some(i);
        }
        i = i + 1;
    }
    None
}

/// The index of the first partition of the given name.
pub fn find_partition(parts: &Vec<Partition>, name: &str) -> (r: Option<usize>)
    ensures
        r is Some <==> find_part(partition_views(parts@), name@) is Some,
        r matches Some(i) ==> i < parts.len() && find_part(partition_views(parts@), name@)
            == Some(parts@[i as int]@),
{
    let mut i: usize = 0;
    let ghost all = partition_views(parts@);
    assert(all.skip(0) == all);
    while i < parts.len()
        invariant
            i <= parts.len(),
            all == partition_views(parts@),
            find_part(all.skip(i as int), name@) == find_part(all, name@),
        decreases parts.len() - i,
    {
        let ghost rest = all.skip(i as int);
        assert(rest[0] == parts@[i as int]@);
        assert(rest.skip(1) == all.skip(i + 1));
        if equal(parts[i].name.as_str(), name) {
            return Some(i);
        }
        i = i + 1;
    }
    None
}

/// The sum of the partitions' sizes, or `None` where it exceeds 64 bits.
pub fn used_bytes(parts: &Vec<Partition>) -> (r: Option<u64>)
    ensures
        r is Some <==> used_space(partition_views(parts@)) <= u64::MAX,
        r matches Some(n) ==> n == used_space(partition_views(parts@)),
{
    let mut sum: u64 = 0;
    let mut i: usize = 0;
    let ghost all = partition_views(parts@);
    assert(all.take(0) == Seq::<PartitionView>::empty());
    while i < parts.len()
        invariant
            i <= parts.len(),
            all == partition_views(parts@),
            sum == used_space(all.take(i as int)),
        decreases parts.len() - i,
    {
        let size: u64 = parts[i].size;
        proof {
            let cur = all.take(i + 1);
            assert(cur.drop_last() == all.take(i as int));
            assert(cur.last() == parts@[i as int]@);
            lemma_used_space_grows(all, i + 1);
        }
        if size > u64::MAX - sum {
            return None;
        }
        sum = sum + size;
        i = i + 1;
    }
    assert(all.take(parts.len() as int) == all);
    Some(sum)
}

/// The space used by the first `n` partitions is no more than that used by
/// all.
pub proof fn lemma_used_space_grows(parts: Seq<PartitionView>, n: int)
    requires
        0 <= n <= parts.len(),
    ensures
        used_space(parts.take(n)) <= used_space(parts),
    decreases parts.len() - n,
{
    if n == parts.len() {
        assert(parts.take(n) == parts);
    } else {
        lemma_used_space_grows(parts, n + 1);
        let cur = parts.take(n + 1);
        assert(cur.drop_last() == parts.take(n));
    }
}

/// The bytes of a disk that no partition takes.
pub fn free_bytes(disk: &BlockDevice) -> (r: u64)
    ensures
        r == free_space(disk@),
{
    match used_bytes(&disk.partitions) {
        None => 0,
        Some(used) => {
            if disk.size > used {
                disk.size - used
            } else {
                0
            }
        },
    }
}

/// The number that the word at `i` writes, where it fits 64 bits.
pub open spec fn field_value(words: Seq<Seq<char>>, i: int) -> Option<u64> {
    if i < words.len() && unsigned_of(words[i]) is Some && unsigned_of(words[i])->0 <= u64::MAX {
        Some(unsigned_of(words[i])->0 as u64)
    } else {
        None
    }
}

/// The usage that the disk-usage tool reports: the third and fourth field
/// of the second line of its output, in bytes.
pub open spec fn reported_usage(report: Seq<char>) -> Option<Usage> {
    let lines = lines_of(report);
    if lines.len() < 2 {
        None
    } else {
        let words = words_of(lines[1]);
        if field_value(words, 2) is Some && field_value(words, 3) is Some {
            Some(Usage { used: field_value(words, 2)->0, available: field_value(words, 3)->0 })
        } else {
            None
        }
    }
}

/// Reads used and available bytes from the output of the disk-usage tool.
pub fn parse_usage(report: &str) -> (r: Option<Usage>)
    ensures
        r == reported_usage(report@),
{
    let text = chars_of(report);
    let lines = split_lines(&text);
    if lines.len() < 2 {
        return None;
    }
    let words = split_words(&lines[1]);
    assert(views(lines@)[1] == lines@[1]@);
    if words.len() < 4 {
        return None;
    }
    assert(views(words@)[2] == words@[2]@);
    assert(views(words@)[3] == words@[3]@);
    match (parse_unsigned(&words[2]), parse_unsigned(&words[3])) {
        (Some(used), Some(available)) => Some(Usage { used, available }),
        _ => None,
    }
}

/// The mount point that the mount table reports: its output without the
/// white space around it, unless that is empty.
pub open spec fn reported_target(output: Seq<char>) -> Option<Seq<char>> {
    if trimmed(output).len() > 0 {
        Some(trimmed(output))
    } else {
        None
    }
}

/// Reads a mount point from the output of the mount table.
pub fn parse_target(output: &str) -> (r: Option<String>)
    ensures
        opt_text(r) == reported_target(output@),
{
    let text = chars_of(output);
    let t = trim(&text);
    if t.len() > 0 {
        Some(string_of(&t))
    } else {
        None
    }
}

/// The invocation that lists the block devices with their sizes in bytes,
/// as JSON.
pub open spec fn devices_query() -> ActionView {
    tool(
        "lsblk"@,
        seq!["-J"@, "-b"@, "-o"@, "NAME,SIZE,TYPE,MODEL,SERIAL,MOUNTPOINT,FSTYPE,LABEL"@],
    )
}

/// The invocation that asks for the usage, in bytes, of the filesystem
/// mounted at the given place.
pub open spec fn usage_query(mount_point: Seq<char>) -> ActionView {
    tool("df"@, seq!["-B1"@, mount_point])
}

/// The invocation that asks where a mapping is mounted.
pub open spec fn target_query(mapper: Seq<char>) -> ActionView {
    tool("findmnt"@, seq!["-n"@, "-o"@, "TARGET"@, mapper_path(mapper)])
}

/// Builds [`devices_query`].
pub fn devices_probe() -> (a: Action)
    ensures
        a@ == devices_query(),
{
    run("lsblk", args4("-J", "-b", "-o", "NAME,SIZE,TYPE,MODEL,SERIAL,MOUNTPOINT,FSTYPE,LABEL"))
}

/// Builds [`usage_query`].
pub fn usage_probe(mount_point: &str) -> (a: Action)
    ensures
        a@ == usage_query(mount_point@),
{
    run("df", args2("-B1", mount_point))
}

/// Builds [`target_query`].
pub fn target_probe(mapper: &str) -> (a: Action)
    ensures
        a@ == target_query(mapper@),
{
    run("findmnt", args4("-n", "-o", "TARGET", mapper_node(mapper).as_str()))
}

/// The usage that the outcome of the usage query tells: none unless the
/// tool succeeded.
pub open spec fn told_usage(o: OutcomeView) -> Option<Usage> {
    match o {
        OutcomeView::Tool(ToolResultView::Exited { success, stdout, .. }) => if success {
            reported_usage(stdout)
        } else {
            None
        },
        _ => None,
    }
}

/// The mount point that the outcome of the target query tells: none unless
/// the tool succeeded.
pub open spec fn told_target(o: OutcomeView) -> Option<Seq<char>> {
    match o {
        OutcomeView::Tool(ToolResultView::Exited { success, stdout, .. }) => if success {
            reported_target(stdout)
        } else {
            None
        },
        _ => None,
    }
}

/// Reads the usage from the outcome of [`usage_probe`].
pub fn read_usage(outcome: &Outcome) -> (r: Option<Usage>)
    ensures
        r == told_usage(outcome@),
{
    match outcome {
        Outcome::Tool(ToolResult::Exited { success, stdout, .. }) => {
            if *success {
                parse_usage(stdout.as_str())
            } else {
                None
            }
        },
        _ => None,
    }
}

/// Reads the mount point from the outcome of [`target_probe`].
pub fn read_target(outcome: &Outcome) -> (r: Option<String>)
    ensures
        opt_text(r) == told_target(outcome@),
{
    match outcome {
        Outcome::Tool(ToolResult::Exited { success, stdout, .. }) => {
            if *success {
                parse_target(stdout.as_str())
            } else {
                None
            }
        },
        _ => None,
    }
}

/// What the device listing says of a partition, or of a disk that holds
/// a filesystem without a partition table.
#[derive(Debug, Clone, PartialEq, Eq)]
pub struct ListedPartition {
    pub name: String,
    pub size: u64,
    pub filesystem: Option<String>,
    pub mount_point: Option<String>,
    pub label: Option<String>,
}

/// The mathematical content of a [`ListedPartition`].
pub struct ListedPartitionView {
    pub name: Seq<char>,
    pub size: u64,
    pub filesystem: Option<Seq<char>>,
    pub mount_point: Option<Seq<char>>,
    pub label: Option<Seq<char>>,
}

impl View for ListedPartition {
    type V = ListedPartitionView;

    open spec fn view(&self) -> ListedPartitionView {
        ListedPartitionView {
            name: self.name@,
            size: self.size,
            filesystem: opt_text(self.filesystem),
            mount_point: opt_text(self.mount_point),
            label: opt_text(self.label),
        }
    }
}

/// What the device listing says of a device. `children` is `None` where
/// the listing names none.
#[derive(Debug, Clone, PartialEq, Eq)]
pub struct ListedDevice {
    pub name: String,
    pub kind: String,
    pub size: u64,
    pub model: Option<String>,
    pub serial: Option<String>,
    pub filesystem: Option<String>,
    pub mount_point: Option<String>,
    pub label: Option<String>,
    pub children: Option<Vec<ListedPartition>>,
}

/// Whether a listed device is a disk.
pub open spec fn is_disk(kind: Seq<char>) -> bool {
    kind == "disk"@
}

/// Whether a disk without children is shown as one partition: it is where
/// it holds a filesystem or is mounted.
pub open spec fn stands_for_itself(d: ListedDevice) -> bool {
    d.children is None && (d.filesystem is Some || d.mount_point is Some)
}

impl ListedDevice {
    /// Whether the device is a disk; only disks are shown.
    pub fn is_shown(&self) -> (b: bool)
        ensures
            b == is_disk(self.kind@),
    {
        equal(self.kind.as_str(), "disk")
    }

    /// The model without the white space around it.
    pub fn model_text(&self) -> (r: Option<String>)
        ensures
            opt_text(r) == match self.model {
                Some(m) => Some(trimmed(m@)),
                None => None,
            },
    {
        match &self.model {
            Some(m) => Some(string_of(&trim(&chars_of(m.as_str())))),
            None => None,
        }
    }

    /// The serial number without the white space around it.
    pub fn serial_text(&self) -> (r: Option<String>)
        ensures
            opt_text(r) == match self.serial {
                Some(m) => Some(trimmed(m@)),
                None => None,
            },
    {
        match &self.serial {
            Some(m) => Some(string_of(&trim(&chars_of(m.as_str())))),
            None => None,
        }
    }

    /// The partitions to show for a disk: its children where it has any
    /// listed; the disk itself, under its own name and size, where it has
    /// none but holds a filesystem or is mounted; otherwise none.
    pub fn shown_partitions(&self) -> (r: Vec<ListedPartition>)
        ensures
            self.children matches Some(c) ==> r@.len() == c@.len() && forall|i: int|
                0 <= i < c@.len() ==> (#[trigger] r@[i])@ == c@[i]@,
            stands_for_itself(*self) ==> r@.len() == 1 && r@[0]@ == (ListedPartitionView {
                name: self.name@,
                size: self.size,
                filesystem: opt_text(self.filesystem),
                mount_point: opt_text(self.mount_point),
                label: opt_text(self.label),
            }),
            self.children is None && !stands_for_itself(*self) ==> r@.len() == 0,
    {
        let mut r: Vec<ListedPartition> = Vec::new();
        match &self.children {
            Some(c) => {
                let mut i: usize = 0;
                while i < c.len()
                    invariant
                        i <= c.len(),
                        r@.len() == i,
                        forall|j: int| 0 <= j < i ==> (#[trigger] r@[j])@ == c@[j]@,
                    decreases c.len() - i,
                {
                    let p = &c[i];
                    r.push(
                        ListedPartition {
                            name: crate::text::copy(p.name.as_str()),
                            size: p.size,
                            filesystem: crate::text::copy_opt(&p.filesystem),
                            mount_point: crate::text::copy_opt(&p.mount_point),
                            label: crate::text::copy_opt(&p.label),
                        },
                    );
                    i = i + 1;
                }
            },
            None => {
                if self.filesystem.is_some() || self.mount_point.is_some() {
                    r.push(
                        ListedPartition {
                            name: crate::text::copy(self.name.as_str()),
                            size: self.size,
                            filesystem: crate::text::copy_opt(&self.filesystem),
                            mount_point: crate::text::copy_opt(&self.mount_point),
                            label: crate::text::copy_opt(&self.label),
                        },
                    );
                }
            },
        }
        r
    }
}

} // verus!
