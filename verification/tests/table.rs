use disktui::table::{rewrite_table, sectors, RewriteError};

const TABLE: &str = "label: gpt\nlabel-id: 1234\ndevice: /dev/sda\nunit: sectors\n\n/dev/sda1 : start=        2048, size=     1048576, type=0FC63DAF-8483-4772-8E79-3D69D8477DE4, uuid=AAAA\n/dev/sda2 : start=     1050624, size=     2097152, type=0FC63DAF, name=\"data\"\n";

#[test]
fn sectors_round_up() {
    assert_eq!(sectors(0), 0);
    assert_eq!(sectors(1), 1);
    assert_eq!(sectors(512), 1);
    assert_eq!(sectors(513), 2);
    assert_eq!(sectors(1_000_000_000), 1_953_125);
    assert_eq!(sectors(1_000_000_001), 1_953_126);
    assert_eq!(sectors(u64::MAX), 36_028_797_018_963_968);
}

#[test]
fn only_the_target_line_changes() {
    let out = rewrite_table(TABLE, "sda", 2, 1_000_000_001).unwrap();
    let old: Vec<&str> = TABLE.lines().collect();
    let new: Vec<&str> = out.lines().collect();
    assert_eq!(new.len(), old.len());
    for i in 0..old.len() {
        if i != 6 {
            assert_eq!(new[i], old[i]);
        }
    }
    assert_eq!(
        new[6],
        "/dev/sda2 : start=     1050624, size=     1953126, type=0FC63DAF, name=\"data\""
    );
    assert!(out.ends_with('\n'));
}

#[test]
fn first_partition_is_rewritten_too() {
    let out = rewrite_table(TABLE, "sda", 1, 512).unwrap();
    let new: Vec<&str> = out.lines().collect();
    assert_eq!(
        new[5],
        "/dev/sda1 : start=        2048, size=     1, type=0FC63DAF-8483-4772-8E79-3D69D8477DE4, uuid=AAAA"
    );
    assert_eq!(
        new[6],
        "/dev/sda2 : start=     1050624, size=     2097152, type=0FC63DAF, name=\"data\""
    );
}

#[test]
fn nodes_with_p_are_found() {
    let table = "/dev/nvme0n1p1 : start=2048, size=100, type=83\n/dev/nvme0n1p2 : start=4096, size=200, type=83, bootable\n";
    let out = rewrite_table(table, "nvme0n1", 2, 1024).unwrap();
    assert_eq!(
        out,
        "/dev/nvme0n1p1 : start=2048, size=100, type=83\n/dev/nvme0n1p2 : start=4096, size=2, type=83, bootable\n"
    );
}

#[test]
fn a_longer_index_is_another_partition() {
    let table = "/dev/sda10 : start=2048, size=100\n/dev/sda11 : start=4096, size=200\n";
    assert_eq!(rewrite_table(table, "sda", 1, 1024), Err(RewriteError::NotFound));
    let out = rewrite_table(table, "sda", 10, 1024).unwrap();
    assert_eq!(out, "/dev/sda10 : start=2048, size=2\n/dev/sda11 : start=4096, size=200\n");
}

#[test]
fn missing_partition_is_reported() {
    assert_eq!(rewrite_table(TABLE, "sda", 3, 1024), Err(RewriteError::NotFound));
    assert_eq!(rewrite_table(TABLE, "sdb", 1, 1024), Err(RewriteError::NotFound));
    assert_eq!(rewrite_table("", "sda", 1, 1024), Err(RewriteError::NotFound));
}

#[test]
fn missing_start_is_reported() {
    let table = "/dev/sda1 : size=100, type=83\n";
    assert_eq!(rewrite_table(table, "sda", 1, 1024), Err(RewriteError::NoStart));
}

#[test]
fn missing_size_is_reported() {
    let table = "/dev/sda1 : start=2048, type=83\n";
    assert_eq!(rewrite_table(table, "sda", 1, 2048), Err(RewriteError::NoSize));
    let table = "/dev/sda1 : start=2048, sizes=5, resize=7, name=\"size=9\"\n";
    assert_eq!(rewrite_table(table, "sda", 1, 2048), Err(RewriteError::NoSize));
    let table = "/dev/sda1\n";
    assert_eq!(rewrite_table(table, "sda", 1, 2048), Err(RewriteError::NoStart));
}

#[test]
fn a_fault_on_another_partition_is_no_fault() {
    let table = "/dev/sda1 : type=83\n/dev/sda2 : start=4096, size=200\n";
    assert_eq!(
        rewrite_table(table, "sda", 2, 1024).unwrap(),
        "/dev/sda1 : type=83\n/dev/sda2 : start=4096, size=2\n"
    );
    assert_eq!(rewrite_table(table, "sda", 1, 1024), Err(RewriteError::NoStart));
}

#[test]
fn a_comma_in_a_name_is_kept() {
    let table = "/dev/sda1 : start=2048, size=100, type=83, name=\"a,b\"\n";
    assert_eq!(
        rewrite_table(table, "sda", 1, 5120).unwrap(),
        "/dev/sda1 : start=2048, size=10, type=83, name=\"a,b\"\n"
    );
}

#[test]
fn a_colon_in_a_value_is_kept() {
    let table = "/dev/sda1 : start=2048, size=100, name=\"a:b, c\", attrs=\"GUID:63\"\n";
    assert_eq!(
        rewrite_table(table, "sda", 1, 5120).unwrap(),
        "/dev/sda1 : start=2048, size=10, name=\"a:b, c\", attrs=\"GUID:63\"\n"
    );
}

#[test]
fn padding_and_spacing_are_kept() {
    let table = "  /dev/sda1:start=2048,size=   100  ,type=83 \n";
    assert_eq!(
        rewrite_table(table, "sda", 1, 5120).unwrap(),
        "  /dev/sda1:start=2048,size=   10  ,type=83 \n"
    );
    let table = "/dev/sda1 :\tsize=100,\tstart=2048";
    assert_eq!(
        rewrite_table(table, "sda", 1, 5121).unwrap(),
        "/dev/sda1 :\tsize=11,\tstart=2048\n"
    );
}

#[test]
fn attributes_that_begin_like_size_are_kept() {
    let table = "/dev/sda1 : start=2048, sizes=7, size=100, size-hint=3, start=9\n";
    assert_eq!(
        rewrite_table(table, "sda", 1, 5120).unwrap(),
        "/dev/sda1 : start=2048, sizes=7, size=10, size-hint=3, start=9\n"
    );
}

#[test]
fn only_the_first_size_is_replaced() {
    let table = "/dev/sda1 : start=2048, size=100, size=300\n";
    assert_eq!(
        rewrite_table(table, "sda", 1, 5120).unwrap(),
        "/dev/sda1 : start=2048, size=10, size=300\n"
    );
}

#[test]
fn an_empty_size_is_filled() {
    let table = "/dev/sda1 : start=2048, size=, type=83\n";
    assert_eq!(
        rewrite_table(table, "sda", 1, 5120).unwrap(),
        "/dev/sda1 : start=2048, size=10, type=83\n"
    );
}

#[test]
fn every_line_of_the_partition_is_resized() {
    let table = "/dev/sda1 : start=2048, size=100\n/dev/sda2 : start=1, size=2\n/dev/sda1 : start=5, size=7\n";
    assert_eq!(
        rewrite_table(table, "sda", 1, 5120).unwrap(),
        "/dev/sda1 : start=2048, size=10\n/dev/sda2 : start=1, size=2\n/dev/sda1 : start=5, size=10\n"
    );
}

#[test]
fn last_line_without_line_feed_is_kept() {
    let table = "unit: sectors\n/dev/sda1 : start=2048, size=100";
    assert_eq!(
        rewrite_table(table, "sda", 1, 5120).unwrap(),
        "unit: sectors\n/dev/sda1 : start=2048, size=10\n"
    );
}

#[test]
fn carriage_returns_before_line_feeds_are_dropped() {
    let table = "unit: sectors\r\n/dev/sda1 : start=2048, size=100\r\n";
    assert_eq!(
        rewrite_table(table, "sda", 1, 5120).unwrap(),
        "unit: sectors\n/dev/sda1 : start=2048, size=10\n"
    );
}
