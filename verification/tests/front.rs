use disktui::config::{
    default_delete, default_format, default_info, default_mount, default_partition,
    default_scroll_down, default_scroll_up, merge, Config, DiskKeys, Navigation,
};
use disktui::dialogs::{
    reselect, row_above, row_below, ConfirmationDialog, ConfirmationOperation, ProgressState,
};
use disktui::disk::{generate_layout_bar, Disk};
use disktui::engine::{Action, Outcome, ToolResult};
use disktui::operations::dispatch::Job;
use disktui::operations::{BlockDevice, FilesystemType};
use disktui::operations::inventory::{
    parse_target, parse_usage, read_usage, ListedDevice, ListedPartition,
};
use disktui::partition::{active_mount, Encryption, Partition, Usage};
use disktui::smart::{get_smart_data, parse_smart_data, smart_probe};

fn partition(name: &str, size: u64) -> Partition {
    Partition {
        name: name.to_string(),
        size,
        filesystem: None,
        mount_point: None,
        is_mounted: false,
        label: None,
        used_bytes: None,
        available_bytes: None,
        is_encrypted: false,
        encryption_type: None,
        luks_uuid: None,
        mapper_device: None,
    }
}

fn disk(name: &str, size: u64, partitions: Vec<Partition>) -> Disk {
    Disk::new(
        BlockDevice { name: name.to_string(), size, model: None, serial: None, partitions },
        None,
    )
}

#[test]
fn default_keys() {
    assert_eq!(default_scroll_down(), 'j');
    assert_eq!(default_scroll_up(), 'k');
    assert_eq!(default_info(), 'i');
    assert_eq!(default_format(), 'f');
    assert_eq!(default_partition(), 'p');
    assert_eq!(default_mount(), 'm');
    assert_eq!(default_delete(), 'd');
    assert_eq!(Navigation::default(), Navigation { scroll_down: 'j', scroll_up: 'k' });
    assert_eq!(
        DiskKeys::default(),
        DiskKeys { info: 'i', format: 'f', partition: 'p', mount: 'm', delete: 'd' }
    );
    assert_eq!(
        Config::default(),
        Config { navigation: Navigation::default(), disk: DiskKeys::default() }
    );
}

#[test]
fn keys_left_out_have_their_defaults() {
    assert_eq!(merge(None, None, None, None, None, None, None), Config::default());
    let c = merge(Some('n'), None, None, Some('F'), None, None, Some('x'));
    assert_eq!(c.navigation, Navigation { scroll_down: 'n', scroll_up: 'k' });
    assert_eq!(
        c.disk,
        DiskKeys { info: 'i', format: 'F', partition: 'p', mount: 'm', delete: 'x' }
    );
}

#[test]
fn layout_of_a_disk() {
    assert_eq!(generate_layout_bar(&disk("sda", 0, vec![])), "[ EMPTY ]");
    assert_eq!(generate_layout_bar(&disk("sda", 1_000_000_000, vec![])), "[ FREE (1GB) ]");
    assert_eq!(
        generate_layout_bar(&disk(
            "sda",
            4_000_000_000,
            vec![partition("sda1", 500_000_000), partition("sda2", 1_500_000_000)]
        )),
        "[ sda1 (500MB) | sda2 (1.5GB) | FREE (2GB) ]"
    );
    assert_eq!(
        generate_layout_bar(&disk("sda", 1_000, vec![partition("sda1", 1_000)])),
        "[ sda1 (1KB) ]"
    );
    assert_eq!(
        generate_layout_bar(&disk("sda", 1_000, vec![partition("sda1", 2_000)])),
        "[ sda1 (2KB) ]"
    );
}

#[test]
fn free_space_and_partition_table() {
    let d = disk("sda", 1_000, vec![partition("sda1", 400), partition("sda2", 100)]);
    assert_eq!(d.free_space(), 500);
    assert!(d.has_partition_table());
    let d = disk("sda", 1_000, vec![partition("sda", 1_000)]);
    assert_eq!(d.free_space(), 0);
    assert!(!d.has_partition_table());
    let d = disk("sda", 1_000, vec![partition("sda1", u64::MAX), partition("sda2", u64::MAX)]);
    assert_eq!(d.free_space(), 0);
    assert!(disk("sda", 5, vec![]).has_partition_table());
}

#[test]
fn confirmed_operations_become_jobs() {
    assert_eq!(ConfirmationOperation::Nothing.job("pw"), None);
    assert_eq!(
        ConfirmationOperation::FormatDisk { disk: "sda".to_string(), fs_type: FilesystemType::Xfs }
            .job(""),
        Some(Job::FormatWholeDisk { disk: "sda".to_string(), fs: FilesystemType::Xfs })
    );
    assert_eq!(
        ConfirmationOperation::UnlockLuksDevice {
            device: "sda1".to_string(),
            mapper_name: "vault".to_string()
        }
        .job("pw"),
        Some(Job::UnlockLuks {
            device: "sda1".to_string(),
            passphrase: "pw".to_string(),
            mapper_name: "vault".to_string()
        })
    );
    assert_eq!(
        ConfirmationOperation::EncryptPartition {
            partition: "sda1".to_string(),
            fs_type: FilesystemType::Ext4
        }
        .job("pw"),
        Some(Job::EncryptAndFormat {
            partition: "sda1".to_string(),
            passphrase: "pw".to_string(),
            fs: FilesystemType::Ext4
        })
    );
    assert_eq!(
        ConfirmationOperation::CreatePartition {
            disk: "sda".to_string(),
            size: "".to_string(),
            fs_type: FilesystemType::Ext4
        }
        .job("ignored"),
        Some(Job::CreatePartition {
            disk: "sda".to_string(),
            size: "".to_string(),
            fs: Some(FilesystemType::Ext4)
        })
    );
}

#[test]
fn dialog_defaults_and_toggle() {
    let mut d = ConfirmationDialog::default();
    assert!(!d.show_dialog);
    assert_eq!(d.selected, 0);
    assert_eq!(d.operation, ConfirmationOperation::Nothing);
    d.toggle();
    assert_eq!(d.selected, 1);
    d.toggle();
    assert_eq!(d.selected, 0);
}

#[test]
fn progress_display() {
    let mut p = ProgressState::default();
    assert!(!p.show_dialog);
    p.tick();
    assert_eq!(p.spinner_index, 0);
    p.start("Working...".to_string());
    assert!(p.show_dialog);
    assert_eq!(p.message, "Working...");
    for expected in [1, 2, 3, 4, 5, 6, 7, 8, 9, 0, 1] {
        p.tick();
        assert_eq!(p.spinner_index, expected);
    }
    p.end();
    assert!(!p.show_dialog);
    assert_eq!(p.message, "");
}

#[test]
fn selection_after_a_refresh() {
    assert_eq!(reselect(Some(2), 5), Some(2));
    assert_eq!(reselect(Some(5), 5), Some(0));
    assert_eq!(reselect(Some(5), 0), None);
    assert_eq!(reselect(None, 5), None);
}

#[test]
fn rows_above_and_below() {
    assert_eq!(row_below(None, 3), 0);
    assert_eq!(row_below(Some(0), 3), 1);
    assert_eq!(row_below(Some(2), 3), 2);
    assert_eq!(row_below(Some(0), 1), 0);
    assert_eq!(row_above(None), 0);
    assert_eq!(row_above(Some(0)), 0);
    assert_eq!(row_above(Some(2)), 1);
}

const REPORT: &str = "smartctl 7.3\n=== START OF READ SMART DATA SECTION ===\nSMART overall-health self-assessment test result: PASSED\n\nID# ATTRIBUTE_NAME          FLAG     VALUE WORST THRESH TYPE      UPDATED  WHEN_FAILED RAW_VALUE\n  9 Power_On_Hours          0x0032   095   095   000    Old_age   Always       -       21345\n194 Temperature_Celsius     0x0022   064   052   000    Old_age   Always       -       36 (Min/Max 18/48)\n";

#[test]
fn smart_report_is_read() {
    let d = parse_smart_data(REPORT);
    assert_eq!(d.health, "PASSED");
    assert_eq!(d.temperature, Some(64));
    assert_eq!(d.power_on_hours, Some(9));
}

#[test]
fn smart_report_without_facts() {
    let d = parse_smart_data("nothing to see\n");
    assert_eq!(d.health, "N/A");
    assert_eq!(d.temperature, None);
    assert_eq!(d.power_on_hours, None);
    let d = parse_smart_data("result: FAILED!\nTemperature: 0 100 -5 +41 7\nPower_On_Hours 0 00 +0 18446744073709551616 12\n");
    assert_eq!(d.health, "FAILED");
    assert_eq!(d.temperature, Some(41));
    assert_eq!(d.power_on_hours, Some(12));
    let d = parse_smart_data("PASSED and FAILED\nTemperature: none\nTemperature: 30\n");
    assert_eq!(d.health, "PASSED");
    assert_eq!(d.temperature, None);
}

#[test]
fn smart_probe_and_outcome() {
    match smart_probe("sda") {
        Action::Run(c) => {
            assert_eq!(c.program, "smartctl");
            assert_eq!(c.args, vec!["-H", "-A", "/dev/sda"]);
        }
        other => panic!("not a tool: {:?}", other),
    }
    let d = get_smart_data(&Outcome::Tool(ToolResult::NotRun { error: "x".to_string() }));
    assert_eq!(d.health, "N/A");
    assert_eq!(d.temperature, None);
    let d = get_smart_data(&Outcome::Tool(ToolResult::Exited {
        success: false,
        stdout: "PASSED\n".to_string(),
        stderr: String::new(),
    }));
    assert_eq!(d.health, "PASSED");
}

#[test]
fn listed_devices_become_partitions() {
    let child = ListedPartition {
        name: "sda1".to_string(),
        size: 5,
        filesystem: Some("ext4".to_string()),
        mount_point: None,
        label: None,
    };
    let mut d = ListedDevice {
        name: "sda".to_string(),
        kind: "disk".to_string(),
        size: 10,
        model: Some("  Fast Disk \n".to_string()),
        serial: None,
        filesystem: None,
        mount_point: None,
        label: Some("whole".to_string()),
        children: Some(vec![child.clone()]),
    };
    assert!(d.is_shown());
    assert_eq!(d.model_text(), Some("Fast Disk".to_string()));
    assert_eq!(d.serial_text(), None);
    assert_eq!(d.shown_partitions(), vec![child]);
    d.children = None;
    assert_eq!(d.shown_partitions(), vec![]);
    d.filesystem = Some("vfat".to_string());
    assert_eq!(
        d.shown_partitions(),
        vec![ListedPartition {
            name: "sda".to_string(),
            size: 10,
            filesystem: Some("vfat".to_string()),
            mount_point: None,
            label: Some("whole".to_string()),
        }]
    );
    d.kind = "rom".to_string();
    assert!(!d.is_shown());

    assert_eq!(
        parse_usage("Filesystem 1B-blocks Used Available Use% Mounted on\n/dev/sda1 1000 250 750 25% /mnt/x\n"),
        Some(Usage { used: 250, available: 750 })
    );
    assert_eq!(parse_usage("Filesystem 1B-blocks Used Available\n"), None);
    assert_eq!(parse_usage("head\n/dev/sda1 1000 lots 750\n"), None);
    assert_eq!(parse_usage("head\n/dev/sda1 1000 250\n"), None);
    assert_eq!(parse_target("  /mnt/vault\n"), Some("/mnt/vault".to_string()));
    assert_eq!(parse_target(" \n"), None);
    let failed = Outcome::Tool(ToolResult::Exited {
        success: false,
        stdout: "head\n/dev/sda1 1000 250 750\n".to_string(),
        stderr: String::new(),
    });
    assert_eq!(read_usage(&failed), None);

    let unlocked = Some(Encryption {
        version: Some("LUKS2".to_string()),
        uuid: None,
        mapper_device: Some("vault".to_string()),
        mapper_mount_point: Some("/mnt/vault".to_string()),
    });
    assert_eq!(active_mount(&Some("/mnt/raw".to_string()), &unlocked), Some("/mnt/vault".to_string()));
    assert_eq!(active_mount(&Some("/mnt/raw".to_string()), &None), Some("/mnt/raw".to_string()));
    let p = Partition::assemble(
        "sdb1".to_string(),
        7,
        Some("crypto_LUKS".to_string()),
        None,
        None,
        unlocked,
        Some(Usage { used: 1, available: 2 }),
    );
    assert!(p.is_encrypted);
    assert!(p.is_mounted);
    assert_eq!(p.mount_point, Some("/mnt/vault".to_string()));
    assert_eq!(p.mapper_device, Some("vault".to_string()));
    assert_eq!(p.encryption_type, Some("LUKS2".to_string()));
    assert_eq!(p.used_bytes, Some(1));
    assert_eq!(p.available_bytes, Some(2));
    let p = Partition::assemble("sdb2".to_string(), 7, None, None, None, None, Some(Usage { used: 1, available: 2 }));
    assert!(!p.is_encrypted);
    assert!(!p.is_mounted);
    assert_eq!(p.used_bytes, None);
    assert_eq!(p.mapper_device, None);
}
