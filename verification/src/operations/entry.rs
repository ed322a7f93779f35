//! The operations by name.

use vstd::prelude::*;
use crate::device::{raw_node, raw_path};
use crate::engine::{
    args2, run, succeeded, tool, Action, ActionView, Outcome, OutcomeView, ToolResult,
    ToolResultView, Turn,
};
use crate::error::{fail, failure, ErrorKind, Failure, OpError};
use crate::luks::{header_info, parse_luks_info};
use crate::operations::check::{ask_luks, check_start, luks_query, MountCheck, Mounted};
use crate::operations::dispatch::{op_start, Job, JobView, Operation};
use crate::operations::scan::{scan_start, StatusScan};
use crate::operations::{FilesystemType, LuksInfo, LuksInfoView, LuksStatus};
use crate::text::copy;

verus! {

/// Begins to mount a partition.
pub fn mount_partition(partition: &str) -> (t: Turn<Operation, ()>)
    ensures
        t@ == op_start(JobView::Mount { device: partition@ }),
{
    Operation::start(&Job::Mount { device: copy(partition) })
}

/// Begins to unmount a partition.
pub fn unmount_partition(partition: &str) -> (t: Turn<Operation, ()>)
    ensures
        t@ == op_start(JobView::Unmount { device: partition@ }),
{
    Operation::start(&Job::Unmount { device: copy(partition) })
}

/// Begins to give a whole disk one partition with one filesystem.
pub fn format_whole_disk(disk: &str, fs_type: FilesystemType) -> (t: Turn<Operation, ()>)
    ensures
        t@ == op_start(JobView::FormatWholeDisk { disk: disk@, fs: fs_type }),
{
    Operation::start(&Job::FormatWholeDisk { disk: copy(disk), fs: fs_type })
}

/// Begins to make a filesystem on a partition.
pub fn format_partition(partition: &str, fs_type: FilesystemType) -> (t: Turn<Operation, ()>)
    ensures
        t@ == op_start(JobView::Format { device: partition@, fs: fs_type }),
{
    Operation::start(&Job::Format { device: copy(partition), fs: fs_type })
}

/// Begins to write a new partition table to a disk.
pub fn create_partition_table(disk: &str, table_type: &str) -> (t: Turn<Operation, ()>)
    ensures
        t@ == op_start(JobView::CreatePartitionTable { disk: disk@, table_type: table_type@ }),
{
    Operation::start(
        &Job::CreatePartitionTable { disk: copy(disk), table_type: copy(table_type) },
    )
}

/// Begins to add a partition to a disk and to make a filesystem on it.
pub fn create_partition_with_fs(disk: &str, size_input: &str, fs_type: FilesystemType) -> (t:
    Turn<Operation, ()>)
    ensures
        t@ == op_start(
            JobView::CreatePartition { disk: disk@, size: size_input@, fs: Some(fs_type) },
        ),
{
    Operation::start(
        &Job::CreatePartition { disk: copy(disk), size: copy(size_input), fs: Some(fs_type) },
    )
}

/// Begins to delete a partition.
pub fn delete_partition(partition: &str) -> (t: Turn<Operation, ()>)
    ensures
        t@ == op_start(JobView::DeletePartition { partition: partition@ }),
{
    Operation::start(&Job::DeletePartition { partition: copy(partition) })
}

/// Begins to resize a partition and the filesystem inside it.
pub fn resize_partition_and_filesystem(partition: &str, new_size_input: &str) -> (t: Turn<
    Operation,
    (),
>)
    ensures
        t@ == op_start(
            JobView::ResizePartition { partition: partition@, new_size: new_size_input@ },
        ),
{
    Operation::start(
        &Job::ResizePartition { partition: copy(partition), new_size: copy(new_size_input) },
    )
}

/// Begins to unlock an encrypted device.
pub fn unlock_luks_device(device: &str, passphrase: &str, mapper_name: &str) -> (t: Turn<
    Operation,
    (),
>)
    ensures
        t@ == op_start(
            JobView::UnlockLuks {
                device: device@,
                passphrase: passphrase@,
                mapper_name: mapper_name@,
            },
        ),
{
    Operation::start(
        &Job::UnlockLuks {
            device: copy(device),
            passphrase: copy(passphrase),
            mapper_name: copy(mapper_name),
        },
    )
}

/// Begins to lock an unlocked device.
pub fn lock_luks_device(mapper_name: &str) -> (t: Turn<Operation, ()>)
    ensures
        t@ == op_start(JobView::LockLuks { mapper_name: mapper_name@ }),
{
    Operation::start(&Job::LockLuks { mapper_name: copy(mapper_name) })
}

/// Begins to turn a partition into an encrypted container.
pub fn encrypt_partition(partition: &str, passphrase: &str) -> (t: Turn<Operation, ()>)
    ensures
        t@ == op_start(
            JobView::EncryptPartition { partition: partition@, passphrase: passphrase@ },
        ),
{
    Operation::start(
        &Job::EncryptPartition { partition: copy(partition), passphrase: copy(passphrase) },
    )
}

/// Begins to encrypt a partition and to make a filesystem inside it.
pub fn encrypt_and_format_partition(partition: &str, passphrase: &str, fs_type: FilesystemType)
    -> (t: Turn<Operation, ()>)
    ensures
        t@ == op_start(
            JobView::EncryptAndFormat {
                partition: partition@,
                passphrase: passphrase@,
                fs: fs_type,
            },
        ),
{
    Operation::start(
        &Job::EncryptAndFormat {
            partition: copy(partition),
            passphrase: copy(passphrase),
            fs: fs_type,
        },
    )
}

/// Begins to add a partition, to encrypt it and to make a filesystem
/// inside.
pub fn create_encrypted_partition_with_fs(
    disk: &str,
    size_input: &str,
    passphrase: &str,
    fs_type: FilesystemType,
) -> (t: Turn<Operation, ()>)
    ensures
        t@ == op_start(
            JobView::CreateEncryptedPartition {
                disk: disk@,
                size: size_input@,
                passphrase: passphrase@,
                fs: fs_type,
            },
        ),
{
    Operation::start(
        &Job::CreateEncryptedPartition {
            disk: copy(disk),
            size: copy(size_input),
            passphrase: copy(passphrase),
            fs: fs_type,
        },
    )
}

/// Begins to find out whether a partition is mounted.
pub fn is_mounted(partition: &str) -> (t: Turn<MountCheck, Mounted>)
    ensures
        t@ == check_start(partition@),
{
    MountCheck::start(partition)
}

/// Begins to find out whether a device is unlocked, and as what.
pub fn get_luks_status(device: &str) -> (t: Turn<StatusScan, LuksStatus>)
    ensures
        t@ == scan_start(device@),
{
    StatusScan::start(device)
}

/// The invocation whose outcome [`is_luks_device`] reads.
pub fn luks_probe(device: &str) -> (a: Action)
    ensures
        a@ == luks_query(device@),
{
    ask_luks(device)
}

/// Whether the device is an encrypted container, told from the outcome of
/// [`luks_probe`]. That the tool could not be run, or did not succeed,
/// means that it is not.
pub fn is_luks_device(outcome: &Outcome) -> (b: bool)
    ensures
        b == succeeded(outcome@),
{
    outcome.succeeded()
}

/// The invocation that dumps the header of an encrypted container.
pub open spec fn header_query(device: Seq<char>) -> ActionView {
    tool("cryptsetup"@, seq!["luksDump"@, raw_path(device)])
}

/// The invocation whose outcome [`get_luks_info`] reads.
pub fn luks_dump(device: &str) -> (a: Action)
    ensures
        a@ == header_query(device@),
{
    run("cryptsetup", args2("luksDump", raw_node(device).as_str()))
}

/// What the header of an encrypted container says, told from the outcome
/// of the header dump. That the dump could not be had is a failure.
pub open spec fn luks_info_of(o: OutcomeView) -> Result<LuksInfoView, Failure> {
    match o {
        OutcomeView::Tool(ToolResultView::Exited { success, stdout, .. }) => if success {
            Ok(header_info(stdout))
        } else {
            Err(failure(ErrorKind::ToolExecution, "Failed to get LUKS info"@))
        },
        _ => Err(failure(ErrorKind::ToolExecution, "Failed to execute cryptsetup luksDump"@)),
    }
}

/// Reads the header facts from the outcome of [`luks_dump`].
pub fn get_luks_info(outcome: &Outcome) -> (r: Result<LuksInfo, OpError>)
    ensures
        match r {
            Ok(info) => luks_info_of(outcome@) == Ok::<LuksInfoView, Failure>(info@),
            Err(e) => luks_info_of(outcome@) == Err::<LuksInfoView, Failure>(e@),
        },
{
    match outcome {
        Outcome::Tool(ToolResult::Exited { success, stdout, .. }) => {
            if *success {
                Ok(parse_luks_info(stdout.as_str()))
            } else {
                Err(fail(ErrorKind::ToolExecution, copy("Failed to get LUKS info")))
            }
        },
        _ => Err(fail(ErrorKind::ToolExecution, copy("Failed to execute cryptsetup luksDump"))),
    }
}

} // verus!
