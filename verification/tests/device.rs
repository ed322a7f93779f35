use disktui::device::{get_device_path, split_partition_name, validate_device_name};
use disktui::error::ErrorKind;

#[test]
fn valid_names_pass() {
    assert!(validate_device_name("sda1").is_ok());
    assert!(validate_device_name("nvme0n1p2").is_ok());
    assert!(validate_device_name("luks-sdb1").is_ok());
    assert!(validate_device_name("my_disk-01").is_ok());
    assert!(validate_device_name("a").is_ok());
    assert!(validate_device_name("abcdefghijklmnopqrstuvwxyz012345").is_ok());
}

#[test]
fn empty_name_is_refused() {
    let e = validate_device_name("").unwrap_err();
    assert_eq!(e.kind, ErrorKind::Validation);
    assert_eq!(e.message, "Device name cannot be empty");
}

#[test]
fn name_with_slash_is_refused() {
    let e = validate_device_name("sda/1").unwrap_err();
    assert_eq!(e.kind, ErrorKind::Validation);
    assert_eq!(e.message, "Invalid device name: contains illegal characters");
    assert!(validate_device_name("/dev/sda").is_err());
}

#[test]
fn name_with_two_dots_is_refused() {
    let e = validate_device_name("..").unwrap_err();
    assert_eq!(e.message, "Invalid device name: contains illegal characters");
    assert!(validate_device_name("sda..1").is_err());
    assert!(validate_device_name("sda.1").is_err());
}

#[test]
fn name_with_other_characters_is_refused() {
    for name in ["sda 1", "sda;rm", "sda$1", "sd\u{e9}1", "sda\n", "a|b", "a&b", "`id`", "sda1 "] {
        let e = validate_device_name(name).unwrap_err();
        assert_eq!(e.kind, ErrorKind::Validation);
        assert_eq!(e.message, "Invalid device name: contains illegal characters");
    }
}

#[test]
fn long_name_is_refused() {
    let e = validate_device_name("abcdefghijklmnopqrstuvwxyz0123456").unwrap_err();
    assert_eq!(e.kind, ErrorKind::Validation);
    assert_eq!(e.message, "Invalid device name: too long");
}

#[test]
fn illegal_characters_are_reported_before_length() {
    let e = validate_device_name("abcdefghijklmnopqrstuvwxyz0123456/").unwrap_err();
    assert_eq!(e.message, "Invalid device name: contains illegal characters");
}

#[test]
fn path_of_a_plain_name() {
    assert_eq!(get_device_path("sda1", false), "/dev/sda1");
    assert_eq!(get_device_path("sda1", true), "/dev/mapper/sda1");
}

#[test]
fn path_of_a_mapper_name() {
    assert_eq!(get_device_path("luks-sdb1", true), "/dev/mapper/luks-sdb1");
    assert_eq!(get_device_path("luks-sdb1", false), "/dev/sdb1");
    assert_eq!(get_device_path("luks-", false), "/dev/");
    assert_eq!(get_device_path("luks", false), "/dev/luks");
}

#[test]
fn partition_names_divide_into_disk_and_index() {
    assert_eq!(split_partition_name("sda1"), Some(("sda".to_string(), "1".to_string())));
    assert_eq!(split_partition_name("sdb12"), Some(("sdb".to_string(), "12".to_string())));
    assert_eq!(split_partition_name("vda03"), Some(("vda".to_string(), "03".to_string())));
}

#[test]
fn nvme_and_mmc_names_divide_at_the_p() {
    assert_eq!(
        split_partition_name("nvme0n1p2"),
        Some(("nvme0n1".to_string(), "2".to_string()))
    );
    assert_eq!(
        split_partition_name("mmcblk0p11"),
        Some(("mmcblk0".to_string(), "11".to_string()))
    );
}

#[test]
fn names_without_index_do_not_divide() {
    assert_eq!(split_partition_name("sda"), None);
    assert_eq!(split_partition_name(""), None);
    assert_eq!(split_partition_name("nvme0n1"), None);
    assert_eq!(split_partition_name("nvme0n1p"), None);
    assert_eq!(split_partition_name("mmcblk0"), None);
}
