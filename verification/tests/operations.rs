use disktui::engine::{Action, Flow, Outcome, ToolResult, Turn};
use disktui::error::{ErrorKind, OpError};
use disktui::event::{Event, NotificationLevel};
use disktui::operations::dispatch::{Job, Operation};
use disktui::operations::entry::{
    create_partition_table, create_partition_with_fs, delete_partition,
    encrypt_and_format_partition, encrypt_partition, format_partition, format_whole_disk,
    get_luks_status, is_mounted, lock_luks_device, mount_partition,
    resize_partition_and_filesystem, unlock_luks_device, unmount_partition,
};
use disktui::operations::{BlockDevice, FilesystemType, LuksStatus};
use disktui::partition::Partition;

struct Record {
    actions: Vec<Action>,
    events: Vec<Event>,
    result: Result<(), OpError>,
}

fn drive(first: Turn<Operation, ()>, host: &mut dyn FnMut(&Action) -> Outcome) -> Record {
    let mut actions = Vec::new();
    let mut events = Vec::new();
    let mut turn = first;
    for _ in 0..1000 {
        events.extend(turn.events);
        match turn.flow {
            Flow::Done(result) => {
                assert_eq!(events.pop(), Some(Event::Refresh));
                assert!(!events.contains(&Event::Refresh));
                return Record { actions, events, result };
            }
            Flow::Wait(operation, action) => {
                let outcome = host(&action);
                actions.push(action);
                turn = operation.resume(outcome);
            }
        }
    }
    panic!("the operation does not end");
}

fn line(action: &Action) -> String {
    match action {
        Action::Run(c) => {
            let mut s = c.program.clone();
            for a in &c.args {
                s.push(' ');
                s.push_str(a);
            }
            s
        }
        Action::ProbePath(p) => format!("exists? {}", p),
        Action::ListMappings => "mappings?".to_string(),
        Action::Pause(ms) => format!("pause {}", ms),
        Action::ReadInventory => "inventory?".to_string(),
    }
}

fn lines(actions: &[Action]) -> Vec<String> {
    actions.iter().map(line).collect()
}

fn exit(success: bool, stdout: &str, stderr: &str) -> Outcome {
    Outcome::Tool(ToolResult::Exited {
        success,
        stdout: stdout.to_string(),
        stderr: stderr.to_string(),
    })
}

fn good() -> Outcome {
    exit(true, "", "")
}

fn bad(stderr: &str) -> Outcome {
    exit(false, "", stderr)
}

fn info(text: &str) -> Event {
    Event::Notification { level: NotificationLevel::Info, message: text.to_string() }
}

fn warning(text: &str) -> Event {
    Event::Notification { level: NotificationLevel::Warning, message: text.to_string() }
}

fn error(text: &str) -> Event {
    Event::Notification { level: NotificationLevel::Error, message: text.to_string() }
}

fn started(text: &str) -> Event {
    Event::StartProgress { message: text.to_string() }
}

fn partition(name: &str, size: u64, filesystem: Option<&str>) -> Partition {
    Partition {
        name: name.to_string(),
        size,
        filesystem: filesystem.map(|s| s.to_string()),
        mount_point: None,
        is_mounted: false,
        label: None,
        used_bytes: None,
        available_bytes: None,
        is_encrypted: false,
        encryption_type: None,
        luks_uuid: None,
        mapper_device: None,
    }
}

fn device(name: &str, size: u64, partitions: Vec<Partition>) -> BlockDevice {
    BlockDevice { name: name.to_string(), size, model: None, serial: None, partitions }
}

/// A host on which no device is encrypted or mounted, every node exists
/// except those of mappings, and every tool succeeds.
fn plain_host(action: &Action) -> Outcome {
    match action {
        Action::Run(c) => match c.program.as_str() {
            "cryptsetup" if c.args[0] == "isLuks" => bad(""),
            "findmnt" => bad(""),
            _ => good(),
        },
        Action::ProbePath(p) => Outcome::Exists(!p.starts_with("/dev/mapper/")),
        Action::ListMappings => Outcome::Mappings(Some(vec!["control".to_string()])),
        Action::Pause(_) => Outcome::Resumed,
        Action::ReadInventory => Outcome::Inventory(Some(Vec::new())),
    }
}

#[test]
fn mount_makes_the_directory_and_mounts() {
    let r = drive(mount_partition("sda1"), &mut plain_host);
    assert_eq!(
        lines(&r.actions),
        vec![
            "cryptsetup isLuks /dev/sda1",
            "exists? /dev/mapper/sda1",
            "findmnt -n /dev/sda1",
            "exists? /dev/sda1",
            "mkdir -p /mnt/sda1",
            "mount /dev/sda1 /mnt/sda1",
        ]
    );
    assert_eq!(r.events, vec![info("Mounted sda1 at /mnt/sda1")]);
    assert_eq!(r.result, Ok(()));
}

#[test]
fn mount_of_a_mounted_partition_only_warns() {
    let mut host = |a: &Action| match a {
        Action::Run(c) if c.program == "findmnt" => good(),
        _ => plain_host(a),
    };
    let r = drive(mount_partition("sda1"), &mut host);
    assert_eq!(
        lines(&r.actions),
        vec!["cryptsetup isLuks /dev/sda1", "exists? /dev/mapper/sda1", "findmnt -n /dev/sda1"]
    );
    assert_eq!(r.events, vec![warning("sda1 already mounted")]);
    assert_eq!(r.result, Ok(()));
}

#[test]
fn mount_of_a_locked_container_is_refused() {
    let mut host = |a: &Action| match a {
        Action::Run(c) if c.program == "cryptsetup" && c.args[0] == "isLuks" => good(),
        _ => plain_host(a),
    };
    let r = drive(mount_partition("sdb1"), &mut host);
    assert_eq!(lines(&r.actions), vec!["cryptsetup isLuks /dev/sdb1", "mappings?"]);
    let text = "sdb1 is a locked encrypted device. Unlock it first (press 'l').";
    assert_eq!(r.events, vec![error(text)]);
    assert_eq!(r.result, Err(OpError { kind: ErrorKind::Precondition, message: text.to_string() }));
}

#[test]
fn mount_of_an_unlocked_container_points_to_the_mapping() {
    let mut host = |a: &Action| match a {
        Action::Run(c) if c.program == "cryptsetup" && c.args[0] == "isLuks" => good(),
        Action::Run(c) if c.program == "cryptsetup" && c.args[0] == "status" => {
            exit(true, "  device:  /dev/sdb1\n", "")
        }
        Action::ListMappings => {
            Outcome::Mappings(Some(vec!["control".to_string(), "secret".to_string()]))
        }
        _ => plain_host(a),
    };
    let r = drive(mount_partition("sdb1"), &mut host);
    assert_eq!(
        lines(&r.actions),
        vec!["cryptsetup isLuks /dev/sdb1", "mappings?", "cryptsetup status secret"]
    );
    let text = "sdb1 is an unlocked encrypted device. Mount the mapper device instead: secret";
    assert_eq!(r.events, vec![error(text)]);
    assert_eq!(r.result.unwrap_err().kind, ErrorKind::Precondition);
}

#[test]
fn mount_failure_removes_the_directory() {
    let mut host = |a: &Action| match a {
        Action::Run(c) if c.program == "mount" => bad("wrong fs type"),
        _ => plain_host(a),
    };
    let r = drive(mount_partition("sda1"), &mut host);
    assert_eq!(lines(&r.actions)[5..], ["mount /dev/sda1 /mnt/sda1", "rmdir /mnt/sda1"]);
    assert_eq!(r.events, vec![error("Mount failed: wrong fs type")]);
    assert_eq!(
        r.result,
        Err(OpError {
            kind: ErrorKind::ToolExecution,
            message: "Mount failed: wrong fs type".to_string()
        })
    );
}

#[test]
fn mount_of_a_missing_node_fails() {
    let mut host = |a: &Action| match a {
        Action::ProbePath(_) => Outcome::Exists(false),
        _ => plain_host(a),
    };
    let r = drive(mount_partition("sdz9"), &mut host);
    let text = "Device /dev/sdz9 does not exist. If this is a LUKS device, ensure it is unlocked first.";
    assert_eq!(r.events, vec![error(text)]);
    assert_eq!(r.result.unwrap_err().kind, ErrorKind::NotFound);
}

/// A host on which `sdc1` is mounted.
fn mounted_host(action: &Action) -> Outcome {
    match action {
        Action::Run(c) if c.program == "findmnt" => good(),
        _ => plain_host(action),
    }
}

#[test]
fn unmount_removes_the_directory() {
    let r = drive(unmount_partition("sdc1"), &mut mounted_host);
    assert_eq!(
        lines(&r.actions),
        vec![
            "cryptsetup isLuks /dev/sdc1",
            "exists? /dev/mapper/sdc1",
            "findmnt -n /dev/sdc1",
            "exists? /dev/sdc1",
            "umount /dev/sdc1",
            "rmdir /mnt/sdc1",
        ]
    );
    assert_eq!(
        r.events,
        vec![started("Unmounting sdc1..."), Event::EndProgress, info("Unmounted sdc1")]
    );
    assert_eq!(r.result, Ok(()));
}

#[test]
fn unmount_is_given_five_seconds() {
    let r = drive(unmount_partition("sdc1"), &mut mounted_host);
    match &r.actions[4] {
        Action::Run(c) => {
            assert_eq!(c.timeout_secs, Some(5));
            assert_eq!(c.input, None);
        }
        other => panic!("not a tool: {:?}", other),
    }
}

#[test]
fn unmount_that_times_out_falls_back_to_lazy_unmount() {
    let mut host = |a: &Action| match a {
        Action::Run(c) if c.program == "umount" && c.args[0] != "-l" => {
            Outcome::Tool(ToolResult::TimedOut)
        }
        _ => mounted_host(a),
    };
    let r = drive(unmount_partition("sdc1"), &mut host);
    assert_eq!(
        lines(&r.actions)[4..],
        ["umount /dev/sdc1", "umount -l /dev/sdc1", "rmdir /mnt/sdc1"]
    );
    assert_eq!(
        r.events,
        vec![
            started("Unmounting sdc1..."),
            Event::EndProgress,
            info("Device is busy. Attempting lazy unmount..."),
            started("Lazy unmounting sdc1..."),
            Event::EndProgress,
            warning("Lazy unmount initiated for sdc1. Device still in use."),
        ]
    );
    assert!(!r.events.contains(&info("Unmounted sdc1")));
    assert_eq!(r.result, Ok(()));
}

#[test]
fn unmount_of_a_busy_device_falls_back_to_lazy_unmount() {
    let mut host = |a: &Action| match a {
        Action::Run(c) if c.program == "umount" && c.args[0] != "-l" => {
            bad("umount: /mnt/sdc1: target is busy.")
        }
        _ => mounted_host(a),
    };
    let r = drive(unmount_partition("sdc1"), &mut host);
    assert_eq!(lines(&r.actions)[5], "umount -l /dev/sdc1");
    assert_eq!(
        r.events.last(),
        Some(&warning("Lazy unmount initiated for sdc1. Device still in use."))
    );
    assert_eq!(r.result, Ok(()));
}

#[test]
fn failed_lazy_unmount_is_an_error() {
    let mut host = |a: &Action| match a {
        Action::Run(c) if c.program == "umount" && c.args[0] != "-l" => bad("device is busy"),
        Action::Run(c) if c.program == "umount" => bad("no luck"),
        _ => mounted_host(a),
    };
    let r = drive(unmount_partition("sdc1"), &mut host);
    assert_eq!(r.events.last(), Some(&error("Lazy unmount failed: no luck")));
    assert_eq!(r.result.unwrap_err().message, "Lazy unmount failed: no luck");
}

#[test]
fn other_unmount_failures_are_passed_on() {
    let mut host = |a: &Action| match a {
        Action::Run(c) if c.program == "umount" => bad("not permitted"),
        _ => mounted_host(a),
    };
    let r = drive(unmount_partition("sdc1"), &mut host);
    assert_eq!(lines(&r.actions).len(), 5);
    assert_eq!(
        r.events,
        vec![
            started("Unmounting sdc1..."),
            Event::EndProgress,
            error("Unmount failed: not permitted")
        ]
    );
}

#[test]
fn unmount_of_what_is_not_mounted_only_warns() {
    let r = drive(unmount_partition("sdc1"), &mut plain_host);
    assert_eq!(r.events, vec![warning("sdc1 not mounted")]);
    assert_eq!(r.result, Ok(()));
}

/// A host on which `sdb1` is an encrypted container unlocked as
/// `luks-sdb1`.
fn unlocked_host(action: &Action) -> Outcome {
    match action {
        Action::Run(c) if c.program == "cryptsetup" && c.args[0] == "isLuks" => {
            if c.args[1] == "/dev/sdb1" {
                good()
            } else {
                bad("")
            }
        }
        Action::Run(c) if c.program == "cryptsetup" && c.args[0] == "status" => {
            if c.args[1] == "luks-sdb1" {
                exit(true, "/dev/mapper/luks-sdb1 is active.\n  type:    LUKS2\n  device:  /dev/sdb1\n", "")
            } else {
                exit(true, "  device:  /dev/sdx7\n", "")
            }
        }
        Action::ListMappings => Outcome::Mappings(Some(vec![
            "control".to_string(),
            "other".to_string(),
            "luks-sdb1".to_string(),
        ])),
        Action::ProbePath(p) => Outcome::Exists(p != "/dev/mapper/sdb1"),
        _ => plain_host(action),
    }
}

#[test]
fn format_of_an_unlocked_container_goes_to_the_mapping() {
    let r = drive(format_partition("sdb1", FilesystemType::Ntfs), &mut unlocked_host);
    assert_eq!(
        lines(&r.actions),
        vec![
            "cryptsetup isLuks /dev/sdb1",
            "mappings?",
            "cryptsetup status other",
            "cryptsetup status luks-sdb1",
            "exists? /dev/mapper/luks-sdb1",
            "findmnt -n /dev/mapper/luks-sdb1",
            "exists? /dev/mapper/luks-sdb1",
            "which mkfs.ntfs",
            "mkfs.ntfs -f -Q /dev/mapper/luks-sdb1",
        ]
    );
    assert!(!lines(&r.actions).iter().any(|l| l.starts_with("mkfs") && l.ends_with("/dev/sdb1")));
    assert_eq!(
        r.events,
        vec![
            info("sdb1 is encrypted and unlocked. Formatting the encrypted filesystem at luks-sdb1..."),
            started("Formatting luks-sdb1 as ntfs..."),
            Event::EndProgress,
            info("Formatted luks-sdb1 as ntfs"),
        ]
    );
    assert_eq!(r.result, Ok(()));
}

#[test]
fn format_runs_each_maker_with_its_arguments() {
    let cases = [
        (FilesystemType::Ext4, "mkfs.ext4 -F -E lazy_itable_init=1,lazy_journal_init=1 /dev/sda1"),
        (FilesystemType::Fat32, "mkfs.fat -F 32 /dev/sda1"),
        (FilesystemType::Ntfs, "mkfs.ntfs -f -Q /dev/sda1"),
        (FilesystemType::Exfat, "mkfs.exfat /dev/sda1"),
        (FilesystemType::Btrfs, "mkfs.btrfs -f /dev/sda1"),
        (FilesystemType::Xfs, "mkfs.xfs -f /dev/sda1"),
    ];
    for (fs, expected) in cases {
        let r = drive(format_partition("sda1", fs), &mut plain_host);
        assert_eq!(lines(&r.actions).last().unwrap(), expected);
        assert_eq!(r.result, Ok(()));
    }
}

#[test]
fn format_of_a_mounted_partition_is_refused() {
    let r = drive(format_partition("sdc1", FilesystemType::Ext4), &mut mounted_host);
    assert_eq!(r.events, vec![error("sdc1 is mounted. Unmount it first (press 'm')")]);
    assert_eq!(r.result.unwrap_err().kind, ErrorKind::Precondition);
    assert!(!lines(&r.actions).iter().any(|l| l.starts_with("mkfs")));
}

#[test]
fn format_without_the_maker_tool_says_so() {
    let mut host = |a: &Action| match a {
        Action::Run(c) if c.program == "which" => bad(""),
        _ => plain_host(a),
    };
    let r = drive(format_partition("sda1", FilesystemType::Xfs), &mut host);
    let text = "Formatting tool 'mkfs.xfs' not found. Install the required package.";
    assert_eq!(r.events, vec![error(text)]);
    assert_eq!(r.result, Err(OpError { kind: ErrorKind::ToolMissing, message: text.to_string() }));
    assert!(!lines(&r.actions).iter().any(|l| l.starts_with("mkfs")));
}

#[test]
fn format_failure_ends_the_progress_display() {
    let mut host = |a: &Action| match a {
        Action::Run(c) if c.program == "mkfs.ext4" => bad("bad superblock"),
        _ => plain_host(a),
    };
    let r = drive(format_partition("sda1", FilesystemType::Ext4), &mut host);
    assert_eq!(
        r.events,
        vec![
            started("Formatting sda1 as ext4..."),
            Event::EndProgress,
            error("Format failed: bad superblock")
        ]
    );
}

#[test]
fn table_types_map_to_labels() {
    let r = drive(create_partition_table("sdb", "gpt"), &mut plain_host);
    assert_eq!(lines(&r.actions), vec!["parted -s /dev/sdb mklabel gpt"]);
    assert_eq!(r.events, vec![info("Created gpt partition table on sdb")]);
    let r = drive(create_partition_table("sdb", "mbr"), &mut plain_host);
    assert_eq!(lines(&r.actions), vec!["parted -s /dev/sdb mklabel msdos"]);
    let r = drive(create_partition_table("sdb", "msdos"), &mut plain_host);
    assert_eq!(lines(&r.actions), vec!["parted -s /dev/sdb mklabel msdos"]);
}

#[test]
fn unknown_table_type_is_refused() {
    let r = drive(create_partition_table("sdb", "apm"), &mut plain_host);
    assert!(r.actions.is_empty());
    assert_eq!(r.events, vec![error("Unsupported partition table type: apm")]);
    assert_eq!(r.result.unwrap_err().kind, ErrorKind::Validation);
}

#[test]
fn create_partition_with_fs_on_an_empty_disk() {
    let mut reads = 0;
    let mut host = |a: &Action| match a {
        Action::ReadInventory => {
            reads += 1;
            if reads == 1 {
                Outcome::Inventory(Some(vec![device("sdb", 1_000_000_000, vec![])]))
            } else {
                Outcome::Inventory(Some(vec![device(
                    "sdb",
                    1_000_000_000,
                    vec![partition("sdb1", 500_000_000, None)],
                )]))
            }
        }
        _ => plain_host(a),
    };
    let r = drive(create_partition_with_fs("sdb", "500M", FilesystemType::Ext4), &mut host);
    let all = lines(&r.actions);
    let mkparts: Vec<&String> = all.iter().filter(|l| l.contains("mkpart")).collect();
    assert_eq!(mkparts, vec!["parted -s /dev/sdb mkpart primary 0B 500000000B"]);
    let makers: Vec<&String> = all.iter().filter(|l| l.starts_with("mkfs")).collect();
    assert_eq!(
        makers,
        vec!["mkfs.ext4 -F -E lazy_itable_init=1,lazy_journal_init=1 /dev/sdb1"]
    );
    assert_eq!(
        all,
        vec![
            "inventory?",
            "parted -s /dev/sdb mkpart primary 0B 500000000B",
            "pause 2000",
            "inventory?",
            "cryptsetup isLuks /dev/sdb1",
            "exists? /dev/mapper/sdb1",
            "findmnt -n /dev/sdb1",
            "exists? /dev/sdb1",
            "which mkfs.ext4",
            "mkfs.ext4 -F -E lazy_itable_init=1,lazy_journal_init=1 /dev/sdb1",
        ]
    );
    assert_eq!(
        r.events,
        vec![
            started("Creating partition on sdb..."),
            info("Formatting sdb1 as ext4..."),
            started("Formatting sdb1 as ext4..."),
            Event::EndProgress,
            info("Formatted sdb1 as ext4"),
            Event::EndProgress,
            info("Created and formatted partition on sdb"),
        ]
    );
    assert_eq!(r.result, Ok(()));
}

#[test]
fn new_partition_begins_where_the_used_space_ends() {
    let mut host = |a: &Action| match a {
        Action::ReadInventory => Outcome::Inventory(Some(vec![
            device("sda", 5, vec![]),
            device(
                "sdb",
                10_000_000_000,
                vec![partition("sdb1", 1_500_000_000, None), partition("sdb2", 500_999_999, None)],
            ),
        ])),
        _ => plain_host(a),
    };
    let job = Job::CreatePartition { disk: "sdb".to_string(), size: "".to_string(), fs: None };
    let r = drive(Operation::start(&job), &mut host);
    assert_eq!(
        lines(&r.actions)[1],
        "parted -s /dev/sdb mkpart primary 2000999999B 10000000000B"
    );
    assert_eq!(r.events, vec![info("Created partition sdb2")]);
    let job = Job::CreatePartition { disk: "sdb".to_string(), size: "1.5G".to_string(), fs: None };
    let r = drive(Operation::start(&job), &mut host);
    assert_eq!(
        lines(&r.actions)[1],
        "parted -s /dev/sdb mkpart primary 2000999999B 3500999999B"
    );
}

#[test]
fn new_partition_keeps_offsets_below_a_megabyte() {
    let mut host = |a: &Action| match a {
        Action::ReadInventory => Outcome::Inventory(Some(vec![device(
            "sdb",
            10_000_000,
            vec![partition("sdb1", 1_500_000, None)],
        )])),
        _ => plain_host(a),
    };
    let job =
        Job::CreatePartition { disk: "sdb".to_string(), size: "2500001".to_string(), fs: None };
    let r = drive(Operation::start(&job), &mut host);
    let all = lines(&r.actions);
    let mkparts: Vec<&String> = all.iter().filter(|l| l.contains("mkpart")).collect();
    assert_eq!(mkparts, vec!["parted -s /dev/sdb mkpart primary 1500000B 4000001B"]);
    let job = Job::CreatePartition { disk: "sdb".to_string(), size: "999".to_string(), fs: None };
    let r = drive(Operation::start(&job), &mut host);
    assert_eq!(lines(&r.actions)[1], "parted -s /dev/sdb mkpart primary 1500000B 1500999B");
}

#[test]
fn create_partition_checks_the_free_space() {
    let mut host = |a: &Action| match a {
        Action::ReadInventory => Outcome::Inventory(Some(vec![
            device("sdb", 1_000_000_000, vec![partition("sdb1", 400_000_000, None)]),
            device("sdc", 1_000, vec![partition("sdc1", 1_000, None)]),
        ])),
        _ => plain_host(a),
    };
    let r = drive(create_partition_with_fs("sdb", "700M", FilesystemType::Ext4), &mut host);
    assert_eq!(lines(&r.actions), vec!["inventory?"]);
    assert_eq!(
        r.events,
        vec![
            started("Creating partition on sdb..."),
            error("Requested size exceeds available space (700MB > 600MB)")
        ]
    );
    assert_eq!(r.result.unwrap_err().kind, ErrorKind::Validation);
    let r = drive(create_partition_with_fs("sdc", "1", FilesystemType::Ext4), &mut host);
    assert_eq!(r.events.last(), Some(&error("No free space available")));
    let r = drive(create_partition_with_fs("sdd", "1", FilesystemType::Ext4), &mut host);
    assert_eq!(r.events.last(), Some(&error("Disk sdd not found")));
    let r = drive(create_partition_with_fs("sdb", "lots", FilesystemType::Ext4), &mut host);
    assert_eq!(
        r.events.last(),
        Some(&error("Invalid size format. Use format like: 100M, 2.5GB, 1TB"))
    );
}

#[test]
fn create_partition_without_a_table_says_so() {
    let mut host = |a: &Action| match a {
        Action::ReadInventory => {
            Outcome::Inventory(Some(vec![device("sdb", 1_000_000_000, vec![])]))
        }
        Action::Run(c) if c.program == "parted" => {
            bad("Error: /dev/sdb: unrecognised disk label\n")
        }
        _ => plain_host(a),
    };
    let r = drive(create_partition_with_fs("sdb", "", FilesystemType::Ext4), &mut host);
    assert_eq!(
        r.events.last(),
        Some(&error("No partition table on sdb. Press 'p' to create one first."))
    );
    let mut host = |a: &Action| match a {
        Action::ReadInventory => {
            Outcome::Inventory(Some(vec![device("sdb", 1_000_000_000, vec![])]))
        }
        Action::Run(c) if c.program == "parted" => bad("  something else \n"),
        _ => plain_host(a),
    };
    let r = drive(create_partition_with_fs("sdb", "", FilesystemType::Ext4), &mut host);
    assert_eq!(r.events.last(), Some(&error("Create partition failed: something else")));
}

fn resize_host(current: u64, fs: &'static str) -> impl FnMut(&Action) -> Outcome {
    move |a: &Action| match a {
        Action::ReadInventory => Outcome::Inventory(Some(vec![device(
            "sda",
            100_000_000_000,
            vec![partition("sda1", 1_000, None), partition("sda2", current, Some(fs))],
        )])),
        Action::Run(c) if c.program == "sfdisk" && c.args[0] == "-d" => exit(
            true,
            "label: gpt\n/dev/sda1 : start=2048, size=2\n/dev/sda2 : start=4096, size=100, type=83\n",
            "",
        ),
        _ => plain_host(a),
    }
}

fn position(all: &[String], prefix: &str) -> Option<usize> {
    all.iter().position(|l| l.starts_with(prefix))
}

#[test]
fn shrinking_resizes_the_filesystem_before_the_table() {
    let mut host = resize_host(10_000_000_000, "ext4");
    let r = drive(resize_partition_and_filesystem("sda2", "5G"), &mut host);
    let all = lines(&r.actions);
    assert_eq!(
        all,
        vec![
            "cryptsetup isLuks /dev/sda2",
            "exists? /dev/mapper/sda2",
            "findmnt -n /dev/sda2",
            "inventory?",
            "resize2fs /dev/sda2 4882812K",
            "sfdisk -d /dev/sda",
            "sfdisk --force --no-reread /dev/sda",
            "pause 1000",
            "partprobe /dev/sda",
            "pause 2000",
        ]
    );
    assert!(position(&all, "resize2fs").unwrap() < position(&all, "sfdisk --force").unwrap());
    match &r.actions[6] {
        Action::Run(c) => assert_eq!(
            c.input.as_deref(),
            Some("label: gpt\n/dev/sda1 : start=2048, size=2\n/dev/sda2 : start=4096, size=9765625, type=83\n")
        ),
        other => panic!("not a tool: {:?}", other),
    }
    assert_eq!(
        r.events,
        vec![
            started("Resizing sda2..."),
            info("Shrinking filesystem..."),
            info("Resizing partition..."),
            Event::EndProgress,
            info("Successfully resized sda2 to 5GB"),
        ]
    );
    assert_eq!(r.result, Ok(()));
}

#[test]
fn growing_resizes_the_filesystem_after_the_table() {
    let mut host = resize_host(1_000_000_000, "ext4");
    let r = drive(resize_partition_and_filesystem("sda2", "5G"), &mut host);
    let all = lines(&r.actions);
    assert_eq!(
        all[4..],
        [
            "sfdisk -d /dev/sda",
            "sfdisk --force --no-reread /dev/sda",
            "pause 1000",
            "partprobe /dev/sda",
            "pause 2000",
            "resize2fs /dev/sda2",
        ]
    );
    assert!(position(&all, "resize2fs").unwrap() > position(&all, "sfdisk --force").unwrap());
    assert_eq!(
        r.events,
        vec![
            started("Resizing sda2..."),
            info("Resizing partition..."),
            info("Expanding filesystem..."),
            Event::EndProgress,
            info("Successfully resized sda2 to 5GB"),
        ]
    );
}

#[test]
fn growing_xfs_mounts_it_for_the_time() {
    let mut host = resize_host(1_000_000_000, "xfs");
    let r = drive(resize_partition_and_filesystem("sda2", "5G"), &mut host);
    assert_eq!(
        lines(&r.actions)[9..],
        [
            "mkdir -p /tmp/disktui_resize_sda2",
            "mount /dev/sda2 /tmp/disktui_resize_sda2",
            "xfs_growfs /tmp/disktui_resize_sda2",
            "umount /tmp/disktui_resize_sda2",
            "rmdir /tmp/disktui_resize_sda2",
        ]
    );
    assert_eq!(r.result, Ok(()));
}

#[test]
fn failed_xfs_growth_still_unmounts() {
    let mut inner = resize_host(1_000_000_000, "xfs");
    let mut host = |a: &Action| match a {
        Action::Run(c) if c.program == "xfs_growfs" => bad("no space"),
        _ => inner(a),
    };
    let r = drive(resize_partition_and_filesystem("sda2", "5G"), &mut host);
    assert_eq!(
        lines(&r.actions)[11..],
        [
            "xfs_growfs /tmp/disktui_resize_sda2",
            "umount /tmp/disktui_resize_sda2",
            "rmdir /tmp/disktui_resize_sda2",
        ]
    );
    assert_eq!(
        r.events[3..],
        [Event::EndProgress, error("XFS resize failed: no space")]
    );
}

#[test]
fn shrinking_xfs_is_refused_before_the_table_is_touched() {
    let mut host = resize_host(10_000_000_000, "xfs");
    let r = drive(resize_partition_and_filesystem("sda2", "5G"), &mut host);
    assert!(position(&lines(&r.actions), "sfdisk").is_none());
    assert_eq!(
        r.events,
        vec![
            started("Resizing sda2..."),
            info("Shrinking filesystem..."),
            Event::EndProgress,
            error("XFS does not support shrinking"),
        ]
    );
    assert_eq!(r.result.unwrap_err().kind, ErrorKind::Precondition);
}

#[test]
fn btrfs_is_told_max_to_grow_and_bytes_to_shrink() {
    let mut host = resize_host(1_000_000_000, "btrfs");
    let r = drive(resize_partition_and_filesystem("sda2", "5G"), &mut host);
    assert!(lines(&r.actions)
        .contains(&"btrfs filesystem resize max /tmp/disktui_resize_sda2".to_string()));
    let mut host = resize_host(10_000_000_000, "btrfs");
    let r = drive(resize_partition_and_filesystem("sda2", "5G"), &mut host);
    let all = lines(&r.actions);
    assert!(all.contains(&"btrfs filesystem resize 5000000000 /tmp/disktui_resize_sda2".to_string()));
    assert!(position(&all, "btrfs").unwrap() < position(&all, "sfdisk --force").unwrap());
}

#[test]
fn ntfs_is_resized_in_place() {
    let mut host = resize_host(1_000_000_000, "ntfs");
    let r = drive(resize_partition_and_filesystem("sda2", "5G"), &mut host);
    assert_eq!(lines(&r.actions).last().unwrap(), "ntfsresize -f /dev/sda2");
    let mut host = resize_host(10_000_000_000, "ntfs");
    let r = drive(resize_partition_and_filesystem("sda2", "5G"), &mut host);
    assert_eq!(lines(&r.actions)[4], "ntfsresize -f -s 5000000000 /dev/sda2");
    let mut inner = resize_host(10_000_000_000, "ntfs");
    let mut host = |a: &Action| match a {
        Action::Run(c) if c.program == "ntfsresize" => {
            Outcome::Tool(ToolResult::NotRun { error: "No such file".to_string() })
        }
        _ => inner(a),
    };
    let r = drive(resize_partition_and_filesystem("sda2", "5G"), &mut host);
    assert_eq!(
        r.result,
        Err(OpError {
            kind: ErrorKind::ToolMissing,
            message: "ntfsresize not found. Install ntfs-3g package.".to_string()
        })
    );
}

#[test]
fn fat_is_left_alone_with_a_warning() {
    let mut host = resize_host(1_000_000_000, "vfat");
    let r = drive(resize_partition_and_filesystem("sda2", "5G"), &mut host);
    assert_eq!(
        r.events,
        vec![
            started("Resizing sda2..."),
            info("Resizing partition..."),
            info("Expanding filesystem..."),
            warning("vfat filesystem cannot be easily resized. Consider reformatting."),
            Event::EndProgress,
            info("Successfully resized sda2 to 5GB"),
        ]
    );
    assert_eq!(r.result, Ok(()));
    let mut host = resize_host(1_000_000_000, "zfs");
    let r = drive(resize_partition_and_filesystem("sda2", "5G"), &mut host);
    assert!(r
        .events
        .contains(&warning("Filesystem 'zfs' resize not supported. Partition resized only.")));
}

#[test]
fn resize_of_an_encrypted_partition_is_refused() {
    let r = drive(resize_partition_and_filesystem("sdb1", "5G"), &mut unlocked_host);
    assert_eq!(lines(&r.actions), vec!["cryptsetup isLuks /dev/sdb1"]);
    assert_eq!(r.result.unwrap_err().kind, ErrorKind::Precondition);
}

#[test]
fn resize_of_a_mounted_partition_is_refused() {
    let r = drive(resize_partition_and_filesystem("sdc1", "5G"), &mut mounted_host);
    assert_eq!(r.events, vec![error("sdc1 is mounted. Unmount it first (press 'm')")]);
}

#[test]
fn resize_with_a_bad_request_asks_nothing() {
    for (name, size) in [("sda", "5G"), ("sda1", ""), ("sda1", "big"), ("sd/1", "5G")] {
        let r = drive(resize_partition_and_filesystem(name, size), &mut plain_host);
        assert!(r.actions.is_empty());
        assert_eq!(r.result.unwrap_err().kind, ErrorKind::Validation);
    }
}

#[test]
fn resize_fails_when_the_table_lacks_the_partition() {
    let mut inner = resize_host(1_000_000_000, "ext4");
    let mut host = |a: &Action| match a {
        Action::Run(c) if c.program == "sfdisk" && c.args[0] == "-d" => {
            exit(true, "/dev/sda1 : start=2048, size=2\n/dev/sda20 : start=1, size=1\n", "")
        }
        _ => inner(a),
    };
    let r = drive(resize_partition_and_filesystem("sda2", "5G"), &mut host);
    assert!(position(&lines(&r.actions), "sfdisk --force").is_none());
    assert_eq!(
        r.events[2..],
        [Event::EndProgress, error("Partition sda2 not found in partition table")]
    );
    assert_eq!(r.result.unwrap_err().kind, ErrorKind::NotFound);
}

#[test]
fn resize_fails_when_the_line_states_no_start_or_size() {
    for dump in
        ["/dev/sda2 : size=100, type=83\n", "/dev/sda2 : start=4096, type=83\n", "/dev/sda2\n"]
    {
        let mut inner = resize_host(1_000_000_000, "ext4");
        let mut host = |a: &Action| match a {
            Action::Run(c) if c.program == "sfdisk" && c.args[0] == "-d" => exit(true, dump, ""),
            _ => inner(a),
        };
        let r = drive(resize_partition_and_filesystem("sda2", "5G"), &mut host);
        assert!(position(&lines(&r.actions), "sfdisk --force").is_none());
        assert_eq!(
            r.events[2..],
            [Event::EndProgress, error("Could not parse partition table")]
        );
        assert_eq!(r.result.unwrap_err().kind, ErrorKind::ToolExecution);
    }
}

#[test]
fn resize_writes_the_dump_with_the_size_replaced() {
    let dump = "label: gpt\n\n/dev/sda1 : start=        2048, size=     1048576, type=A, name=\"x,y\"\n/dev/sda2 : start=     1050624, size=     2097152, type=B:C, name=\"data, more\"\n";
    let mut inner = resize_host(1_000_000_000, "ext4");
    let mut fed: Vec<String> = Vec::new();
    let mut host = |a: &Action| match a {
        Action::Run(c) if c.program == "sfdisk" && c.args[0] == "-d" => exit(true, dump, ""),
        Action::Run(c) if c.program == "sfdisk" => {
            fed.push(c.input.clone().unwrap());
            inner(a)
        }
        _ => inner(a),
    };
    let r = drive(resize_partition_and_filesystem("sda2", "5G"), &mut host);
    assert_eq!(r.result, Ok(()));
    assert_eq!(
        fed,
        vec![
            "label: gpt\n\n/dev/sda1 : start=        2048, size=     1048576, type=A, name=\"x,y\"\n/dev/sda2 : start=     1050624, size=     9765625, type=B:C, name=\"data, more\"\n"
        ]
    );
}

#[test]
fn delete_of_a_plain_partition() {
    let r = drive(delete_partition("sda3"), &mut plain_host);
    assert_eq!(
        lines(&r.actions),
        vec![
            "cryptsetup isLuks /dev/sda3",
            "mappings?",
            "exists? /dev/mapper/sda3",
            "findmnt -n /dev/sda3",
            "parted -s /dev/sda rm 3",
            "partprobe /dev/sda",
            "pause 500",
        ]
    );
    assert_eq!(
        r.events,
        vec![info("Deleting partition sda3..."), info("Successfully deleted partition sda3")]
    );
    assert_eq!(r.result, Ok(()));
}

#[test]
fn delete_of_an_unlocked_container_locks_and_wipes_first() {
    let mut unmounted = false;
    let mut host = |a: &Action| match a {
        Action::Run(c) if c.program == "umount" => {
            unmounted = true;
            good()
        }
        Action::Run(c) if c.program == "findmnt" && c.args[1] == "/dev/mapper/luks-sdb1" => {
            if unmounted {
                bad("")
            } else {
                good()
            }
        }
        Action::Run(c) if c.program == "findmnt" => bad(""),
        Action::ProbePath(p) => Outcome::Exists(p != "/dev/mapper/sdb1"),
        _ => unlocked_host(a),
    };
    let r = drive(delete_partition("sdb1"), &mut host);
    let all = lines(&r.actions);
    let close = position(&all, "cryptsetup close luks-sdb1").unwrap();
    let unmount = position(&all, "umount /dev/mapper/luks-sdb1").unwrap();
    let wipe = position(&all, "wipefs -a /dev/sdb1").unwrap();
    let remove = position(&all, "parted -s /dev/sdb rm 1").unwrap();
    assert!(unmount < close && close < wipe && wipe < remove);
    assert!(r.events.contains(&info("Closing encrypted device luks-sdb1...")));
    assert!(r.events.contains(&info("Wiping LUKS header from sdb1...")));
    assert!(r.events.contains(&info("LUKS header wiped from sdb1")));
    assert_eq!(r.events.last(), Some(&info("Successfully deleted partition sdb1")));
    assert_eq!(r.result, Ok(()));
}

#[test]
fn failed_wipe_and_failed_reprobe_only_warn() {
    let mut host = |a: &Action| match a {
        Action::Run(c) if c.program == "cryptsetup" && c.args[0] == "isLuks" => good(),
        Action::Run(c) if c.program == "wipefs" => bad("busy"),
        Action::Run(c) if c.program == "partprobe" => bad("cannot"),
        _ => plain_host(a),
    };
    let r = drive(delete_partition("nvme0n1p2"), &mut host);
    assert!(lines(&r.actions).contains(&"parted -s /dev/nvme0n1 rm 2".to_string()));
    assert_eq!(
        r.events,
        vec![
            info("Wiping LUKS header from nvme0n1p2..."),
            warning("Warning: Failed to wipe LUKS header: busy. Continuing with deletion..."),
            info("Deleting partition nvme0n1p2..."),
            warning("Warning: partprobe failed: cannot. Partition deleted but you may need to reboot."),
            info("Successfully deleted partition nvme0n1p2"),
        ]
    );
    assert_eq!(r.result, Ok(()));
}

#[test]
fn delete_of_a_disk_name_asks_nothing() {
    let r = drive(delete_partition("sda"), &mut plain_host);
    assert!(r.actions.is_empty());
    assert_eq!(r.events, vec![error("Invalid partition name format: sda")]);
}

#[test]
fn lock_closes_settles_and_rests() {
    let r = drive(lock_luks_device("luks-sdb1"), &mut plain_host);
    assert_eq!(
        lines(&r.actions),
        vec![
            "findmnt -n /dev/mapper/luks-sdb1",
            "cryptsetup close luks-sdb1",
            "udevadm settle --timeout=10",
            "pause 500",
        ]
    );
    match &r.actions[1] {
        Action::Run(c) => assert_eq!(c.timeout_secs, Some(10)),
        other => panic!("not a tool: {:?}", other),
    }
    assert_eq!(
        r.events,
        vec![started("Locking luks-sdb1..."), Event::EndProgress, info("Locked luks-sdb1")]
    );
}

#[test]
fn lock_of_a_mounted_mapping_is_refused() {
    let r = drive(lock_luks_device("luks-sdb1"), &mut mounted_host);
    assert_eq!(lines(&r.actions).len(), 1);
    assert_eq!(r.events, vec![error("luks-sdb1 is mounted. Unmount it first.")]);
}

#[test]
fn lock_that_times_out_or_is_busy_says_so() {
    let mut host = |a: &Action| match a {
        Action::Run(c) if c.program == "cryptsetup" => Outcome::Tool(ToolResult::TimedOut),
        _ => plain_host(a),
    };
    let r = drive(lock_luks_device("m"), &mut host);
    assert_eq!(r.result.as_ref().unwrap_err().kind, ErrorKind::Timeout);
    assert_eq!(
        r.result.unwrap_err().message,
        "Lock operation timed out. Device may still be in use. Try closing any applications accessing the device."
    );
    let mut host = |a: &Action| match a {
        Action::Run(c) if c.program == "cryptsetup" => bad("Device m is still in use.\n"),
        _ => plain_host(a),
    };
    let r = drive(lock_luks_device("m"), &mut host);
    assert_eq!(
        r.events.last(),
        Some(&error("Device is busy. Close any applications using m and try again."))
    );
    let mut host = |a: &Action| match a {
        Action::Run(c) if c.program == "cryptsetup" => bad("  no such mapping \n"),
        _ => plain_host(a),
    };
    let r = drive(lock_luks_device("m"), &mut host);
    assert_eq!(r.events.last(), Some(&error("Lock failed: no such mapping")));
}

#[test]
fn unlock_feeds_the_passphrase() {
    let r = drive(unlock_luks_device("sdb1", "s3cret", "vault"), &mut plain_host);
    assert_eq!(
        lines(&r.actions),
        vec![
            "mappings?",
            "cryptsetup open /dev/sdb1 vault",
            "udevadm settle --timeout=10",
            "pause 500",
        ]
    );
    match &r.actions[1] {
        Action::Run(c) => assert_eq!(c.input.as_deref(), Some("s3cret\n")),
        other => panic!("not a tool: {:?}", other),
    }
    assert_eq!(
        r.events,
        vec![
            started("Unlocking sdb1..."),
            Event::EndProgress,
            info("Unlocked sdb1 as /dev/mapper/vault")
        ]
    );
}

#[test]
fn unlock_with_a_wrong_passphrase_says_so() {
    let mut host = |a: &Action| match a {
        Action::Run(c) if c.program == "cryptsetup" => {
            bad("No key available with this passphrase.\n")
        }
        _ => plain_host(a),
    };
    let r = drive(unlock_luks_device("sdb1", "x", "vault"), &mut host);
    assert_eq!(r.events.last(), Some(&error("Incorrect passphrase")));
    let mut host = |a: &Action| match a {
        Action::Run(c) if c.program == "cryptsetup" => bad(" Device busy \n"),
        _ => plain_host(a),
    };
    let r = drive(unlock_luks_device("sdb1", "x", "vault"), &mut host);
    assert_eq!(r.events.last(), Some(&error("Unlock failed: Device busy")));
}

#[test]
fn unlock_of_an_unlocked_device_only_warns() {
    let r = drive(unlock_luks_device("sdb1", "x", "vault"), &mut unlocked_host);
    assert_eq!(r.events, vec![warning("sdb1 is already unlocked")]);
    assert_eq!(r.result, Ok(()));
}

#[test]
fn unlock_checks_both_names() {
    let r = drive(unlock_luks_device("sdb1", "x", "../vault"), &mut plain_host);
    assert!(r.actions.is_empty());
    assert_eq!(r.result.unwrap_err().kind, ErrorKind::Validation);
    let r = drive(unlock_luks_device("", "x", "vault"), &mut plain_host);
    assert!(r.actions.is_empty());
    assert_eq!(r.events, vec![error("Device name cannot be empty")]);
}

#[test]
fn encrypt_runs_the_header_tool_in_batch_mode() {
    let r = drive(encrypt_partition("sdb1", "pass phrase"), &mut plain_host);
    assert_eq!(
        lines(&r.actions),
        vec![
            "exists? /dev/mapper/sdb1",
            "findmnt -n /dev/sdb1",
            "cryptsetup luksFormat --type luks2 --batch-mode /dev/sdb1",
        ]
    );
    match &r.actions[2] {
        Action::Run(c) => assert_eq!(c.input.as_deref(), Some("pass phrase\n")),
        other => panic!("not a tool: {:?}", other),
    }
    assert_eq!(
        r.events,
        vec![started("Encrypting sdb1..."), Event::EndProgress, info("Encrypted sdb1 with LUKS2")]
    );
}

#[test]
fn encrypt_and_format_waits_for_the_mapping() {
    let mut probes = 0;
    let mut host = |a: &Action| match a {
        Action::ProbePath(p) if p == "/dev/mapper/luks-sdb1" => {
            probes += 1;
            Outcome::Exists(probes >= 3)
        }
        _ => plain_host(a),
    };
    let r = drive(encrypt_and_format_partition("sdb1", "pw", FilesystemType::Ext4), &mut host);
    let all = lines(&r.actions);
    assert_eq!(
        all[..13],
        [
            "exists? /dev/mapper/sdb1",
            "findmnt -n /dev/sdb1",
            "cryptsetup luksFormat --type luks2 --batch-mode /dev/sdb1",
            "pause 500",
            "mappings?",
            "cryptsetup open /dev/sdb1 luks-sdb1",
            "udevadm settle --timeout=10",
            "pause 500",
            "exists? /dev/mapper/luks-sdb1",
            "pause 500",
            "exists? /dev/mapper/luks-sdb1",
            "pause 500",
            "exists? /dev/mapper/luks-sdb1",
        ]
    );
    assert_eq!(
        all.last().unwrap(),
        "mkfs.ext4 -F -E lazy_itable_init=1,lazy_journal_init=1 /dev/mapper/luks-sdb1"
    );
    assert_eq!(
        r.events.last(),
        Some(&info("Partition sdb1 encrypted and formatted successfully"))
    );
    assert_eq!(r.result, Ok(()));
}

#[test]
fn encrypt_and_format_gives_up_after_ten_looks() {
    let mut probes = 0;
    let mut host = |a: &Action| match a {
        Action::ProbePath(p) if p == "/dev/mapper/luks-sdb1" => {
            probes += 1;
            Outcome::Exists(false)
        }
        _ => plain_host(a),
    };
    let r = drive(encrypt_and_format_partition("sdb1", "pw", FilesystemType::Ext4), &mut host);
    assert_eq!(probes, 10);
    assert_eq!(
        r.result,
        Err(OpError {
            kind: ErrorKind::Timeout,
            message: "Timeout waiting for device: /dev/mapper/luks-sdb1".to_string()
        })
    );
}

#[test]
fn whole_disk_gets_one_partition() {
    let mut reads = 0;
    let mut host = |a: &Action| match a {
        Action::ReadInventory => {
            reads += 1;
            if reads == 1 {
                Outcome::Inventory(Some(vec![device(
                    "sdd",
                    1_000,
                    vec![partition("sdd1", 10, None), partition("sdd2", 10, None)],
                )]))
            } else {
                Outcome::Inventory(Some(vec![device(
                    "sdd",
                    1_000,
                    vec![partition("sdd1", 1_000, None)],
                )]))
            }
        }
        _ => plain_host(a),
    };
    let r = drive(format_whole_disk("sdd", FilesystemType::Exfat), &mut host);
    assert_eq!(
        lines(&r.actions),
        vec![
            "inventory?",
            "mappings?",
            "mappings?",
            "which mkfs.exfat",
            "parted -s /dev/sdd mklabel gpt",
            "pause 1000",
            "parted -s /dev/sdd mkpart primary 0% 100%",
            "partprobe /dev/sdd",
            "pause 2000",
            "inventory?",
            "cryptsetup isLuks /dev/sdd1",
            "exists? /dev/mapper/sdd1",
            "findmnt -n /dev/sdd1",
            "exists? /dev/sdd1",
            "which mkfs.exfat",
            "mkfs.exfat /dev/sdd1",
        ]
    );
    assert_eq!(r.events.last(), Some(&info("Formatted sdd as whole disk with exfat")));
    assert_eq!(r.result, Ok(()));
}

#[test]
fn invalid_names_reach_no_tool() {
    let bad_names = ["", "sda/1", "..", "a b", "sda;reboot", "abcdefghijklmnopqrstuvwxyz0123456"];
    for name in bad_names {
        let n = name.to_string();
        let jobs = vec![
            Job::Mount { device: n.clone() },
            Job::Unmount { device: n.clone() },
            Job::Format { device: n.clone(), fs: FilesystemType::Ext4 },
            Job::FormatWholeDisk { disk: n.clone(), fs: FilesystemType::Ext4 },
            Job::CreatePartitionTable { disk: n.clone(), table_type: "gpt".to_string() },
            Job::CreatePartition { disk: n.clone(), size: "1G".to_string(), fs: None },
            Job::CreatePartition {
                disk: n.clone(),
                size: "1G".to_string(),
                fs: Some(FilesystemType::Ext4),
            },
            Job::CreateEncryptedPartition {
                disk: n.clone(),
                size: "1G".to_string(),
                passphrase: "p".to_string(),
                fs: FilesystemType::Ext4,
            },
            Job::DeletePartition { partition: n.clone() },
            Job::ResizePartition { partition: n.clone(), new_size: "1G".to_string() },
            Job::UnlockLuks {
                device: n.clone(),
                passphrase: "p".to_string(),
                mapper_name: "m".to_string(),
            },
            Job::UnlockLuks {
                device: "sda1".to_string(),
                passphrase: "p".to_string(),
                mapper_name: n.clone(),
            },
            Job::LockLuks { mapper_name: n.clone() },
            Job::EncryptPartition { partition: n.clone(), passphrase: "p".to_string() },
            Job::EncryptAndFormat {
                partition: n.clone(),
                passphrase: "p".to_string(),
                fs: FilesystemType::Ext4,
            },
        ];
        for job in jobs {
            let mut calls = 0;
            let mut host = |a: &Action| {
                calls += 1;
                plain_host(a)
            };
            let r = drive(Operation::start(&job), &mut host);
            assert_eq!(calls, 0);
            assert!(r.actions.is_empty());
            let e = r.result.unwrap_err();
            assert_eq!(e.kind, ErrorKind::Validation);
            assert_eq!(r.events.last(), Some(&error(&e.message)));
        }
    }
}

#[test]
fn a_stray_answer_ends_the_operation() {
    let mut host = |_: &Action| Outcome::Resumed;
    let r = drive(mount_partition("sda1"), &mut host);
    assert_eq!(r.actions.len(), 1);
    assert_eq!(r.events, vec![error("Unexpected answer from the host")]);
}

fn scan(device: &str, host: &mut dyn FnMut(&Action) -> Outcome) -> (LuksStatus, Vec<String>) {
    let mut turn = get_luks_status(device);
    let mut asked = Vec::new();
    loop {
        match turn.flow {
            Flow::Done(r) => return (r.unwrap(), asked),
            Flow::Wait(s, a) => {
                let o = host(&a);
                asked.push(line(&a));
                turn = s.resume(o);
            }
        }
    }
}

#[test]
fn luks_status_of_an_unlocked_device() {
    let mut host = |a: &Action| match a {
        Action::ListMappings => Outcome::Mappings(Some(vec!["luks-sdb1".to_string()])),
        _ => exit(true, "  type: LUKS2\n  device:  /dev/sdb1\n", ""),
    };
    let (status, asked) = scan("sdb1", &mut host);
    assert_eq!(asked, vec!["mappings?", "cryptsetup status luks-sdb1"]);
    assert_eq!(
        status,
        LuksStatus {
            is_active: true,
            mapper_name: Some("luks-sdb1".to_string()),
            device_path: Some("/dev/sdb1".to_string()),
        }
    );
}

#[test]
fn luks_status_without_a_matching_mapping() {
    let mut host = |a: &Action| match a {
        Action::ListMappings => {
            Outcome::Mappings(Some(vec!["control".to_string(), "luks-sdc1".to_string()]))
        }
        _ => exit(true, "  device:  /dev/sdc1\n", ""),
    };
    let (status, asked) = scan("sdb1", &mut host);
    assert_eq!(asked, vec!["mappings?", "cryptsetup status luks-sdc1"]);
    assert_eq!(status, LuksStatus { is_active: false, mapper_name: None, device_path: None });
}

#[test]
fn luks_status_without_a_registry() {
    let mut host = |_: &Action| Outcome::Mappings(None);
    let (status, asked) = scan("sdb1", &mut host);
    assert_eq!(asked, vec!["mappings?"]);
    assert!(!status.is_active);
    let mut host = |a: &Action| match a {
        Action::ListMappings => Outcome::Mappings(Some(vec!["a".to_string(), "b".to_string()])),
        Action::Run(c) if c.args[1] == "a" => bad("device:  /dev/sdb1"),
        _ => Outcome::Tool(ToolResult::NotRun { error: "x".to_string() }),
    };
    let (status, asked) = scan("sdb1", &mut host);
    assert_eq!(asked.len(), 3);
    assert!(!status.is_active);
}

#[test]
fn mount_check_resolves_the_name_first() {
    let turn = is_mounted("luks-sdb1");
    let (state, action) = match turn.flow {
        Flow::Wait(s, a) => (s, a),
        Flow::Done(_) => panic!("done too early"),
    };
    assert_eq!(line(&action), "exists? /dev/mapper/luks-sdb1");
    let turn = state.resume(Outcome::Exists(false));
    let (state, action) = match turn.flow {
        Flow::Wait(s, a) => (s, a),
        Flow::Done(_) => panic!("done too early"),
    };
    assert_eq!(line(&action), "findmnt -n /dev/sdb1");
    let turn = state.resume(good());
    match turn.flow {
        Flow::Done(Ok(m)) => {
            assert!(m.mounted);
            assert_eq!(m.path, "/dev/sdb1");
        }
        _ => panic!("not done"),
    }
    let state = match is_mounted("sda1").flow {
        Flow::Wait(s, _) => s,
        Flow::Done(_) => panic!("done too early"),
    };
    let state = match state.resume(Outcome::Exists(true)).flow {
        Flow::Wait(s, a) => {
            assert_eq!(line(&a), "findmnt -n /dev/mapper/sda1");
            s
        }
        Flow::Done(_) => panic!("done too early"),
    };
    let turn = state.resume(Outcome::Tool(ToolResult::NotRun { error: "gone".to_string() }));
    match turn.flow {
        Flow::Done(Err(e)) => assert_eq!(e.message, "Failed to execute findmnt"),
        _ => panic!("not failed"),
    }
}
