//! The records that the operations read and report, and the operations
//! themselves.

pub mod check;
pub mod create;
pub mod delete;
pub mod describe;
pub mod dispatch;
pub mod encrypt;
pub mod entry;
pub mod format;
pub mod fsresize;
pub mod inventory;
pub mod label;
pub mod laws;
pub mod lock;
pub mod mount;
pub mod order;
pub mod resize;
pub mod scan;
pub mod secrecy;
pub mod unmount;
pub mod whole_disk;

pub use crate::operations::entry::{
    create_encrypted_partition_with_fs, create_partition_table, create_partition_with_fs,
    delete_partition, encrypt_and_format_partition, encrypt_partition, format_partition,
    format_whole_disk, get_luks_info, get_luks_status, is_luks_device, is_mounted,
    lock_luks_device, mount_partition, resize_partition_and_filesystem, unlock_luks_device,
    unmount_partition,
};
pub use crate::smart::get_smart_data;

use vstd::prelude::*;
use crate::partition::{Partition, PartitionView};
use crate::text::opt_text;

verus! {

/// A disk with its partitions, in ascending order of their index.
#[derive(Debug, Clone, PartialEq, Eq)]
pub struct BlockDevice {
    pub name: String,
    pub size: u64,
    pub model: Option<String>,
    pub serial: Option<String>,
    pub partitions: Vec<Partition>,
}

/// The mathematical content of a [`BlockDevice`].
pub struct BlockDeviceView {
    pub name: Seq<char>,
    pub size: nat,
    pub model: Option<Seq<char>>,
    pub serial: Option<Seq<char>>,
    pub partitions: Seq<PartitionView>,
}

/// The views of a sequence of partitions.
pub open spec fn partition_views(v: Seq<Partition>) -> Seq<PartitionView> {
    Seq::new(v.len(), |i: int| v[i]@)
}

impl View for BlockDevice {
    type V = BlockDeviceView;

    open spec fn view(&self) -> BlockDeviceView {
        BlockDeviceView {
            name: self.name@,
            size: self.size as nat,
            model: opt_text(self.model),
            serial: opt_text(self.serial),
            partitions: partition_views(self.partitions@),
        }
    }
}

/// The views of a sequence of disks.
pub open spec fn device_views(v: Seq<BlockDevice>) -> Seq<BlockDeviceView> {
    Seq::new(v.len(), |i: int| v[i]@)
}

/// What a disk's self-monitoring reports.
#[derive(Debug, Clone, PartialEq, Eq)]
pub struct SmartData {
    pub health: String,
    pub temperature: Option<i32>,
    pub power_on_hours: Option<u64>,
}

/// What the header of an encrypted container says.
#[derive(Debug, Clone, PartialEq, Eq)]
pub struct LuksInfo {
    pub version: String,
    pub uuid: String,
    pub cipher: String,
    pub key_size: String,
}

/// The mathematical content of a [`LuksInfo`].
pub struct LuksInfoView {
    pub version: Seq<char>,
    pub uuid: Seq<char>,
    pub cipher: Seq<char>,
    pub key_size: Seq<char>,
}

impl View for LuksInfo {
    type V = LuksInfoView;

    open spec fn view(&self) -> LuksInfoView {
        LuksInfoView {
            version: self.version@,
            uuid: self.uuid@,
            cipher: self.cipher@,
            key_size: self.key_size@,
        }
    }
}

/// Whether an encrypted device is unlocked, and as what.
#[derive(Debug, Clone, PartialEq, Eq)]
pub struct LuksStatus {
    pub is_active: bool,
    pub mapper_name: Option<String>,
    pub device_path: Option<String>,
}

/// The mathematical content of a [`LuksStatus`].
pub struct LuksStatusView {
    pub is_active: bool,
    pub mapper_name: Option<Seq<char>>,
    pub device_path: Option<Seq<char>>,
}

impl View for LuksStatus {
    type V = LuksStatusView;

    open spec fn view(&self) -> LuksStatusView {
        LuksStatusView {
            is_active: self.is_active,
            mapper_name: opt_text(self.mapper_name),
            device_path: opt_text(self.device_path),
        }
    }
}

/// The status of a device that no mapping refers to.
pub open spec fn inactive_status() -> LuksStatusView {
    LuksStatusView { is_active: false, mapper_name: None, device_path: None }
}

/// The status of a device unlocked as `mapper`, which reports `path` as its
/// backing device.
pub open spec fn active_status(mapper: Seq<char>, path: Seq<char>) -> LuksStatusView {
    LuksStatusView { is_active: true, mapper_name: Some(mapper), device_path: Some(path) }
}

impl LuksStatus {
    /// An unlocked device always has a mapper name and a backing path; a
    /// locked one has neither.
    pub open spec fn wf(&self) -> bool {
        self.is_active == (self.mapper_name is Some) && self.is_active == (self.device_path
            is Some)
    }

    /// The status of a device that no mapping refers to.
    pub fn inactive() -> (s: LuksStatus)
        ensures
            s@ == inactive_status(),
            s.wf(),
    {
        LuksStatus { is_active: false, mapper_name: None, device_path: None }
    }

    /// The status of a device unlocked as `mapper`.
    pub fn active(mapper: String, path: String) -> (s: LuksStatus)
        ensures
            s@ == active_status(mapper@, path@),
            s.wf(),
    {
        LuksStatus { is_active: true, mapper_name: Some(mapper), device_path: Some(path) }
    }
}

/// The filesystems that can be made.
#[derive(Debug, Clone, Copy, PartialEq, Eq, Structural)]
pub enum FilesystemType {
    Ext4,
    Fat32,
    Ntfs,
    Exfat,
    Btrfs,
    Xfs,
}

/// The identifier of a filesystem type.
pub open spec fn fs_name(fs: FilesystemType) -> Seq<char> {
    match fs {
        FilesystemType::Ext4 => "ext4"@,
        FilesystemType::Fat32 => "fat32"@,
        FilesystemType::Ntfs => "ntfs"@,
        FilesystemType::Exfat => "exfat"@,
        FilesystemType::Btrfs => "btrfs"@,
        FilesystemType::Xfs => "xfs"@,
    }
}

/// The filesystem type that an identifier names; `vfat` is another name of
/// `fat32`.
pub open spec fn fs_of_name(name: Seq<char>) -> Option<FilesystemType> {
    if name == "ext4"@ {
        Some(FilesystemType::Ext4)
    } else if name == "fat32"@ || name == "vfat"@ {
        Some(FilesystemType::Fat32)
    } else if name == "ntfs"@ {
        Some(FilesystemType::Ntfs)
    } else if name == "exfat"@ {
        Some(FilesystemType::Exfat)
    } else if name == "btrfs"@ {
        Some(FilesystemType::Btrfs)
    } else if name == "xfs"@ {
        Some(FilesystemType::Xfs)
    } else {
        None
    }
}

/// The tool that makes a filesystem of the given type.
pub open spec fn maker_tool(fs: FilesystemType) -> Seq<char> {
    match fs {
        FilesystemType::Ext4 => "mkfs.ext4"@,
        FilesystemType::Fat32 => "mkfs.fat"@,
        FilesystemType::Ntfs => "mkfs.ntfs"@,
        FilesystemType::Exfat => "mkfs.exfat"@,
        FilesystemType::Btrfs => "mkfs.btrfs"@,
        FilesystemType::Xfs => "mkfs.xfs"@,
    }
}

/// The arguments with which the maker tool is run on `path`.
pub open spec fn maker_args(fs: FilesystemType, path: Seq<char>) -> Seq<Seq<char>> {
    match fs {
        FilesystemType::Ext4 => seq![
            "-F"@,
            "-E"@,
            "lazy_itable_init=1,lazy_journal_init=1"@,
            path,
        ],
        FilesystemType::Fat32 => seq!["-F"@, "32"@, path],
        FilesystemType::Ntfs => seq!["-f"@, "-Q"@, path],
        FilesystemType::Exfat => seq![path],
        FilesystemType::Btrfs => seq!["-f"@, path],
        FilesystemType::Xfs => seq!["-f"@, path],
    }
}

impl FilesystemType {
    /// The identifier of the type.
    pub fn as_str(&self) -> (s: &str)
        ensures
            s@ == fs_name(*self),
    {
        match self {
            FilesystemType::Ext4 => "ext4",
            FilesystemType::Fat32 => "fat32",
            FilesystemType::Ntfs => "ntfs",
            FilesystemType::Exfat => "exfat",
            FilesystemType::Btrfs => "btrfs",
            FilesystemType::Xfs => "xfs",
        }
    }

    /// Every type, in the order in which they are offered.
    pub fn all() -> (v: Vec<FilesystemType>)
        ensures
            v@ == seq![
                FilesystemType::Ext4,
                FilesystemType::Fat32,
                FilesystemType::Ntfs,
                FilesystemType::Exfat,
                FilesystemType::Btrfs,
                FilesystemType::Xfs,
            ],
    {
        let mut v: Vec<FilesystemType> = Vec::new();
        v.push(FilesystemType::Ext4);
        v.push(FilesystemType::Fat32);
        v.push(FilesystemType::Ntfs);
        v.push(FilesystemType::Exfat);
        v.push(FilesystemType::Btrfs);
        v.push(FilesystemType::Xfs);
        v
    }

    /// The type that an identifier names.
    pub fn from_name(name: &str) -> (r: Option<FilesystemType>)
        ensures
            r == fs_of_name(name@),
    {
        if crate::text::equal(name, "ext4") {
            Some(FilesystemType::Ext4)
        } else if crate::text::equal(name, "fat32") || crate::text::equal(name, "vfat") {
            Some(FilesystemType::Fat32)
        } else if crate::text::equal(name, "ntfs") {
            Some(FilesystemType::Ntfs)
        } else if crate::text::equal(name, "exfat") {
            Some(FilesystemType::Exfat)
        } else if crate::text::equal(name, "btrfs") {
            Some(FilesystemType::Btrfs)
        } else if crate::text::equal(name, "xfs") {
            Some(FilesystemType::Xfs)
        } else {
            None
        }
    }

    /// The tool that makes a filesystem of this type.
    pub fn tool(&self) -> (s: &str)
        ensures
            s@ == maker_tool(*self),
    {
        match self {
            FilesystemType::Ext4 => "mkfs.ext4",
            FilesystemType::Fat32 => "mkfs.fat",
            FilesystemType::Ntfs => "mkfs.ntfs",
            FilesystemType::Exfat => "mkfs.exfat",
            FilesystemType::Btrfs => "mkfs.btrfs",
            FilesystemType::Xfs => "mkfs.xfs",
        }
    }
}

} // verus!
