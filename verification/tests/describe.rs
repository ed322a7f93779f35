use disktui::engine::{Action, Flow, Outcome, ToolResult};
use disktui::operations::describe::Describe;
use disktui::operations::inventory::ListedPartition;
use disktui::partition::Partition;

fn listed(name: &str, mount_point: Option<&str>) -> ListedPartition {
    ListedPartition {
        name: name.to_string(),
        size: 1_000,
        filesystem: Some("ext4".to_string()),
        mount_point: mount_point.map(|s| s.to_string()),
        label: Some("data".to_string()),
    }
}

fn exit(success: bool, stdout: &str) -> Outcome {
    Outcome::Tool(ToolResult::Exited {
        success,
        stdout: stdout.to_string(),
        stderr: String::new(),
    })
}

fn line(action: &Action) -> String {
    match action {
        Action::Run(c) => format!("{} {}", c.program, c.args.join(" ")),
        Action::ListMappings => "mappings?".to_string(),
        other => format!("{:?}", other),
    }
}

fn run(l: ListedPartition, host: &mut dyn FnMut(&Action) -> Outcome) -> (Partition, Vec<String>) {
    let mut turn = Describe::start(l);
    let mut asked = Vec::new();
    loop {
        assert!(turn.events.is_empty());
        match turn.flow {
            Flow::Done(r) => return (r.unwrap(), asked),
            Flow::Wait(s, a) => {
                let o = host(&a);
                asked.push(line(&a));
                turn = s.resume(o);
            }
        }
    }
}

#[test]
fn plain_unmounted_partition_is_asked_about_once() {
    let mut host = |_: &Action| exit(false, "");
    let (p, asked) = run(listed("sda1", None), &mut host);
    assert_eq!(asked, vec!["cryptsetup isLuks /dev/sda1"]);
    assert_eq!(p.name, "sda1");
    assert_eq!(p.size, 1_000);
    assert_eq!(p.filesystem, Some("ext4".to_string()));
    assert_eq!(p.label, Some("data".to_string()));
    assert!(!p.is_encrypted);
    assert!(!p.is_mounted);
    assert_eq!(p.mount_point, None);
    assert_eq!(p.used_bytes, None);
}

#[test]
fn plain_mounted_partition_is_measured() {
    let mut host = |a: &Action| match a {
        Action::Run(c) if c.program == "df" => exit(true, "head\n/dev/sda1 1000 300 700 30% /home\n"),
        _ => exit(false, ""),
    };
    let (p, asked) = run(listed("sda1", Some("/home")), &mut host);
    assert_eq!(asked, vec!["cryptsetup isLuks /dev/sda1", "df -B1 /home"]);
    assert!(p.is_mounted);
    assert_eq!(p.mount_point, Some("/home".to_string()));
    assert_eq!(p.used_bytes, Some(300));
    assert_eq!(p.available_bytes, Some(700));
    assert_eq!(p.usage_percentage(), Some(30));
}

#[test]
fn unlocked_container_is_described_through_its_mapping() {
    let mut host = |a: &Action| match a {
        Action::Run(c) if c.program == "cryptsetup" && c.args[0] == "isLuks" => exit(true, ""),
        Action::Run(c) if c.program == "cryptsetup" && c.args[0] == "luksDump" => {
            exit(true, "Version: 2\nUUID: abcd-ef\n")
        }
        Action::ListMappings => Outcome::Mappings(Some(vec!["vault".to_string()])),
        Action::Run(c) if c.program == "cryptsetup" && c.args[0] == "status" => {
            exit(true, "  device: /dev/sdb1\n")
        }
        Action::Run(c) if c.program == "findmnt" => exit(true, "/mnt/vault\n"),
        Action::Run(c) if c.program == "df" => exit(true, "head\nx 10 4 6\n"),
        _ => exit(false, ""),
    };
    let (p, asked) = run(listed("sdb1", None), &mut host);
    assert_eq!(
        asked,
        vec![
            "cryptsetup isLuks /dev/sdb1",
            "cryptsetup luksDump /dev/sdb1",
            "mappings?",
            "cryptsetup status vault",
            "findmnt -n -o TARGET /dev/mapper/vault",
            "df -B1 /mnt/vault",
        ]
    );
    assert!(p.is_encrypted);
    assert_eq!(p.encryption_type, Some("LUKS2".to_string()));
    assert_eq!(p.luks_uuid, Some("abcd-ef".to_string()));
    assert_eq!(p.mapper_device, Some("vault".to_string()));
    assert!(p.is_mounted);
    assert_eq!(p.mount_point, Some("/mnt/vault".to_string()));
    assert_eq!(p.used_bytes, Some(4));
    assert_eq!(p.available_bytes, Some(6));
}

#[test]
fn locked_container_with_unreadable_header() {
    let mut host = |a: &Action| match a {
        Action::Run(c) if c.program == "cryptsetup" && c.args[0] == "isLuks" => exit(true, ""),
        Action::ListMappings => Outcome::Mappings(None),
        _ => exit(false, ""),
    };
    let (p, asked) = run(listed("sdb1", None), &mut host);
    assert_eq!(
        asked,
        vec!["cryptsetup isLuks /dev/sdb1", "cryptsetup luksDump /dev/sdb1", "mappings?"]
    );
    assert!(p.is_encrypted);
    assert_eq!(p.encryption_type, None);
    assert_eq!(p.luks_uuid, None);
    assert_eq!(p.mapper_device, None);
    assert!(!p.is_mounted);
}

#[test]
fn unlocked_container_whose_mapping_is_not_mounted() {
    let mut host = |a: &Action| match a {
        Action::Run(c) if c.program == "cryptsetup" && c.args[0] == "isLuks" => exit(true, ""),
        Action::Run(c) if c.program == "cryptsetup" && c.args[0] == "luksDump" => {
            exit(true, "Version: 1\n")
        }
        Action::ListMappings => Outcome::Mappings(Some(vec!["vault".to_string()])),
        Action::Run(c) if c.program == "cryptsetup" && c.args[0] == "status" => {
            exit(true, "  device: /dev/sdb1\n")
        }
        Action::Run(c) if c.program == "findmnt" => exit(false, ""),
        _ => exit(false, ""),
    };
    let (p, asked) = run(listed("sdb1", None), &mut host);
    assert_eq!(asked.len(), 5);
    assert_eq!(p.encryption_type, Some("LUKS1".to_string()));
    assert_eq!(p.luks_uuid, Some("".to_string()));
    assert_eq!(p.mapper_device, Some("vault".to_string()));
    assert!(!p.is_mounted);
    assert_eq!(p.used_bytes, None);
}
