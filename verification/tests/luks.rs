use disktui::luks::{find_backing_device, parse_luks_info};

const STATUS: &str = "/dev/mapper/luks-sdb1 is active and is in use.\n  type:    LUKS2\n  cipher:  aes-xts-plain64\n  keysize: 512 bits\n  key location: keyring\n  device:  /dev/sdb1\n  sector size:  512\n  offset:  32768 sectors\n  size:    2064384 sectors\n  mode:    read/write\n";

#[test]
fn backing_device_is_found_by_its_node() {
    assert_eq!(find_backing_device(STATUS, "sdb1"), Some("/dev/sdb1".to_string()));
}

#[test]
fn another_device_is_not_found() {
    assert_eq!(find_backing_device(STATUS, "sdb2"), None);
    assert_eq!(find_backing_device(STATUS, "sdc1"), None);
    assert_eq!(find_backing_device("", "sdb1"), None);
    assert_eq!(find_backing_device("  type: LUKS2\n", "sdb1"), None);
}

#[test]
fn backing_device_is_found_by_the_end_of_its_path() {
    let status = "  device:  /dev/disk/by-id/ata-sdb1\n";
    assert_eq!(
        find_backing_device(status, "sdb1"),
        Some("/dev/disk/by-id/ata-sdb1".to_string())
    );
}

#[test]
fn first_matching_line_counts() {
    let status = "device: /dev/sda1\ndevice: /dev/x-sdb1\ndevice: /dev/sdb1\n";
    assert_eq!(find_backing_device(status, "sdb1"), Some("/dev/x-sdb1".to_string()));
}

const DUMP: &str = "LUKS header information\nVersion:       \t2\nEpoch:         \t3\nMetadata area: \t16384 [bytes]\nUUID:          \t2f3c9a1e-aaaa-bbbb-cccc-1234567890ab\nLabel:         \t(no label)\n\nData segments:\n  0: crypt\n\toffset: 16777216 [bytes]\n\tcipher: aes-xts-plain64\n\nKeyslots:\n  0: luks2\n\tKey:        512 bits\n\tCipher:     aes-xts-plain64\n\tCipher key: 512 bits\n";

#[test]
fn header_facts_are_read() {
    let info = parse_luks_info(DUMP);
    assert_eq!(info.version, "LUKS2");
    assert_eq!(info.uuid, "2f3c9a1e-aaaa-bbbb-cccc-1234567890ab");
    assert_eq!(info.cipher, "aes-xts-plain64");
    assert_eq!(info.key_size, "512");
}

#[test]
fn header_defaults() {
    let info = parse_luks_info("");
    assert_eq!(info.version, "LUKS2");
    assert_eq!(info.uuid, "");
    assert_eq!(info.cipher, "");
    assert_eq!(info.key_size, "");
}

#[test]
fn header_of_the_first_version() {
    let info = parse_luks_info("Version:        1\nUUID:\nCipher: aes\nKey: many bits\n");
    assert_eq!(info.version, "LUKS1");
    assert_eq!(info.uuid, "");
    assert_eq!(info.cipher, "aes");
    assert_eq!(info.key_size, "256");
    let info = parse_luks_info("Version:\n");
    assert_eq!(info.version, "LUKS2");
}
