use disktui::disk::Disk;
use disktui::operations::{BlockDevice, FilesystemType, LuksStatus};
use disktui::partition::Partition;

fn partition(name: &str, size: u64, used: Option<u64>, available: Option<u64>) -> Partition {
    Partition {
        name: name.to_string(),
        size,
        filesystem: None,
        mount_point: None,
        is_mounted: false,
        label: None,
        used_bytes: used,
        available_bytes: available,
        is_encrypted: false,
        encryption_type: None,
        luks_uuid: None,
        mapper_device: None,
    }
}

fn disk(name: &str, size: u64) -> Disk {
    Disk::new(
        BlockDevice {
            name: name.to_string(),
            size,
            model: None,
            serial: None,
            partitions: Vec::new(),
        },
        None,
    )
}

#[test]
fn filesystem_identifiers() {
    assert_eq!(FilesystemType::Ext4.as_str(), "ext4");
    assert_eq!(FilesystemType::Fat32.as_str(), "fat32");
    assert_eq!(FilesystemType::Ntfs.as_str(), "ntfs");
    assert_eq!(FilesystemType::Exfat.as_str(), "exfat");
    assert_eq!(FilesystemType::Btrfs.as_str(), "btrfs");
    assert_eq!(FilesystemType::Xfs.as_str(), "xfs");
}

#[test]
fn all_filesystems_in_order() {
    assert_eq!(
        FilesystemType::all(),
        vec![
            FilesystemType::Ext4,
            FilesystemType::Fat32,
            FilesystemType::Ntfs,
            FilesystemType::Exfat,
            FilesystemType::Btrfs,
            FilesystemType::Xfs,
        ]
    );
}

#[test]
fn filesystems_by_identifier() {
    assert_eq!(FilesystemType::from_name("ext4"), Some(FilesystemType::Ext4));
    assert_eq!(FilesystemType::from_name("vfat"), Some(FilesystemType::Fat32));
    assert_eq!(FilesystemType::from_name("fat32"), Some(FilesystemType::Fat32));
    assert_eq!(FilesystemType::from_name("xfs"), Some(FilesystemType::Xfs));
    assert_eq!(FilesystemType::from_name("EXT4"), None);
    assert_eq!(FilesystemType::from_name("zfs"), None);
    assert_eq!(FilesystemType::from_name(""), None);
}

#[test]
fn maker_tools() {
    assert_eq!(FilesystemType::Ext4.tool(), "mkfs.ext4");
    assert_eq!(FilesystemType::Fat32.tool(), "mkfs.fat");
    assert_eq!(FilesystemType::Ntfs.tool(), "mkfs.ntfs");
    assert_eq!(FilesystemType::Exfat.tool(), "mkfs.exfat");
    assert_eq!(FilesystemType::Btrfs.tool(), "mkfs.btrfs");
    assert_eq!(FilesystemType::Xfs.tool(), "mkfs.xfs");
}

#[test]
fn disk_kinds() {
    assert_eq!(disk("nvme0n1", 0).device_type(), "NVME");
    assert_eq!(disk("sda", 0).device_type(), "SSD/HDD");
    assert_eq!(disk("mmcblk0", 0).device_type(), "MMC");
    assert_eq!(disk("loop3", 0).device_type(), "LOOP");
    assert_eq!(disk("dm-0", 0).device_type(), "LVM");
    assert_eq!(disk("md127", 0).device_type(), "RAID");
    assert_eq!(disk("vda", 0).device_type(), "VIRTIO");
    assert_eq!(disk("hdb", 0).device_type(), "IDE");
    assert_eq!(disk("xvda", 0).device_type(), "DISK");
    assert_eq!(disk("", 0).device_type(), "DISK");
}

#[test]
fn disk_size_text() {
    assert_eq!(disk("sda", 256_060_514_304).size_str(), "256.1GB");
    assert_eq!(disk("sda", 1_000_000_000_000).size_str(), "1TB");
}

#[test]
fn partition_size_text() {
    assert_eq!(partition("sda1", 536_870_912, None, None).size_str(), "536.9MB");
}

#[test]
fn usage_percentage_needs_both_counts() {
    assert_eq!(partition("p", 0, None, None).usage_percentage(), None);
    assert_eq!(partition("p", 0, Some(5), None).usage_percentage(), None);
    assert_eq!(partition("p", 0, None, Some(5)).usage_percentage(), None);
}

#[test]
fn usage_percentage_is_the_used_share() {
    assert_eq!(partition("p", 0, Some(0), Some(0)).usage_percentage(), Some(0));
    assert_eq!(partition("p", 0, Some(50), Some(50)).usage_percentage(), Some(50));
    assert_eq!(partition("p", 0, Some(1), Some(2)).usage_percentage(), Some(33));
    assert_eq!(partition("p", 0, Some(2), Some(1)).usage_percentage(), Some(66));
    assert_eq!(partition("p", 0, Some(29), Some(71)).usage_percentage(), Some(29));
    assert_eq!(partition("p", 0, Some(7), Some(0)).usage_percentage(), Some(100));
    assert_eq!(partition("p", 0, Some(u64::MAX), Some(u64::MAX)).usage_percentage(), Some(50));
}

#[test]
fn usage_bar_fills_in_proportion() {
    let p = partition("p", 0, None, None);
    assert_eq!(p.usage_bar(50, "|", "-", 10), "[|||||-----] 50%");
    assert_eq!(p.usage_bar(0, "|", "-", 10), "[----------] 0%");
    assert_eq!(p.usage_bar(100, "|", "-", 10), "[||||||||||] 100%");
    assert_eq!(p.usage_bar(99, "|", "-", 10), "[|||||||||-] 99%");
    assert_eq!(p.usage_bar(200, "#", ".", 4), "[####] 200%");
    assert_eq!(p.usage_bar(33, "ab", "c", 3), "[ccc] 33%");
    assert_eq!(p.usage_bar(34, "ab", "c", 3), "[abcc] 34%");
    assert_eq!(p.usage_bar(10, "|", "-", 0), "[] 10%");
}

#[test]
fn usage_text_joins_counts_and_bar() {
    let p = partition("p", 0, Some(250_000_000), Some(750_000_000));
    assert_eq!(p.usage_str("|", "-", 10), "250MB/1GB [||--------] 25%");
    assert_eq!(partition("p", 0, None, Some(1)).usage_str("|", "-", 10), "N/A");
    assert_eq!(partition("p", 0, Some(u64::MAX), Some(1)).usage_str("|", "-", 10), "N/A");
}

#[test]
fn luks_status_constructors() {
    let s = LuksStatus::inactive();
    assert!(!s.is_active);
    assert_eq!(s.mapper_name, None);
    assert_eq!(s.device_path, None);
    let s = LuksStatus::active("luks-sdb1".to_string(), "/dev/sdb1".to_string());
    assert!(s.is_active);
    assert_eq!(s.mapper_name, Some("luks-sdb1".to_string()));
    assert_eq!(s.device_path, Some("/dev/sdb1".to_string()));
}
