//! What holds of every operation, whatever the host answers.

use vstd::prelude::*;
use crate::device::valid_device_name;
use crate::engine::{ActionView, FlowView, OutcomeView, TurnView};
use crate::error::ErrorKind;
use crate::event::{error, is_error, no_errors, EventView};
use crate::operations::check::{check_resume, check_start, CheckView};
use crate::operations::create::{
    ce_resume, ce_start, create_resume, create_start, cwf_resume, cwf_start, CreateEncryptedView,
    CreateRawView, CreateWithFsView,
};
use crate::operations::delete::{delete_resume, delete_start, DeleteView};
use crate::operations::dispatch::{op_resume, op_start, raised, raised_bare, JobView, OperationView};
use crate::operations::encrypt::{
    eaf_resume, eaf_start, encrypt_resume, encrypt_start, EncryptAndFormatView, EncryptView,
};
use crate::operations::format::{format_resume, format_start, FormatView};
use crate::operations::fsresize::{fs_resume, fs_start, FsResizeView};
use crate::operations::label::{table_resume, table_start, CreateTableView};
use crate::operations::lock::{
    lock_resume, lock_start, unlock_resume, unlock_start, LockView, UnlockView, LOCK_TIMEOUT_SECS,
};
use crate::operations::mount::{mount_resume, mount_start, MountView};
use crate::operations::resize::{resize_resume, resize_start, ResizeView};
use crate::operations::scan::{scan_resume, scan_start, ScanView};
use crate::operations::unmount::{unmount_resume, unmount_start, UnmountView, UNMOUNT_TIMEOUT_SECS};
use crate::operations::whole_disk::{whole_resume, whole_start, WholeDiskView};
use crate::operations::FilesystemType;

verus! {

/// A turn that emits neither an error notification nor a request to read
/// the inventory again.
pub open spec fn quiet<SV, TV>(t: TurnView<SV, TV>) -> bool {
    forall|i: int|
        0 <= i < t.events.len() ==> !is_error(#[trigger] t.events[i]) && t.events[i]
            != EventView::Refresh
}

/// No turn of the status scan emits an error notification or asks for the
/// inventory to be read again.
pub proof fn lemma_scan_quiet()
    ensures
        forall|s: ScanView, o: OutcomeView| quiet(#[trigger] scan_resume(s, o)),
        forall|d: Seq<char>| quiet(#[trigger] scan_start(d)),
{
    assert forall|s: ScanView, o: OutcomeView| quiet(#[trigger] scan_resume(s, o)) by {}
    assert forall|d: Seq<char>| quiet(#[trigger] scan_start(d)) by {}
}

/// No turn of the mount check emits an error notification or asks for the
/// inventory to be read again.
pub proof fn lemma_check_quiet()
    ensures
        forall|s: CheckView, o: OutcomeView| quiet(#[trigger] check_resume(s, o)),
        forall|d: Seq<char>| quiet(#[trigger] check_start(d)),
{
    assert forall|s: CheckView, o: OutcomeView| quiet(#[trigger] check_resume(s, o)) by {}
    assert forall|d: Seq<char>| quiet(#[trigger] check_start(d)) by {}
}

/// No turn of mounting emits an error notification or asks for the
/// inventory to be read again.
pub proof fn lemma_mount_quiet()
    ensures
        forall|s: MountView, o: OutcomeView| quiet(#[trigger] mount_resume(s, o)),
        forall|p: Seq<char>| quiet(#[trigger] mount_start(p)),
{
    lemma_scan_quiet();
    lemma_check_quiet();
    assert forall|s: MountView, o: OutcomeView| quiet(#[trigger] mount_resume(s, o)) by {}
    assert forall|p: Seq<char>| quiet(#[trigger] mount_start(p)) by {}
}

/// No turn of unmounting emits an error notification or asks for the
/// inventory to be read again.
pub proof fn lemma_unmount_quiet()
    ensures
        forall|s: UnmountView, o: OutcomeView| quiet(#[trigger] unmount_resume(s, o)),
        forall|p: Seq<char>| quiet(#[trigger] unmount_start(p)),
{
    lemma_scan_quiet();
    lemma_check_quiet();
    assert forall|s: UnmountView, o: OutcomeView| quiet(#[trigger] unmount_resume(s, o)) by {}
    assert forall|p: Seq<char>| quiet(#[trigger] unmount_start(p)) by {}
}

/// No turn of formatting emits an error notification or asks for the
/// inventory to be read again.
pub proof fn lemma_format_quiet()
    ensures
        forall|s: FormatView, o: OutcomeView| quiet(#[trigger] format_resume(s, o)),
        forall|p: Seq<char>, fs: FilesystemType| quiet(#[trigger] format_start(p, fs)),
{
    lemma_scan_quiet();
    lemma_check_quiet();
    assert forall|s: FormatView, o: OutcomeView| quiet(#[trigger] format_resume(s, o)) by {}
    assert forall|p: Seq<char>, fs: FilesystemType| quiet(#[trigger] format_start(p, fs)) by {}
}

/// No turn of locking emits an error notification or asks for the
/// inventory to be read again.
pub proof fn lemma_lock_quiet()
    ensures
        forall|s: LockView, o: OutcomeView| quiet(#[trigger] lock_resume(s, o)),
        forall|m: Seq<char>| quiet(#[trigger] lock_start(m)),
{
    assert forall|s: LockView, o: OutcomeView| quiet(#[trigger] lock_resume(s, o)) by {}
    assert forall|m: Seq<char>| quiet(#[trigger] lock_start(m)) by {}
}

/// No turn of unlocking emits an error notification or asks for the
/// inventory to be read again.
pub proof fn lemma_unlock_quiet()
    ensures
        forall|s: UnlockView, o: OutcomeView| quiet(#[trigger] unlock_resume(s, o)),
        forall|d: Seq<char>, p: Seq<char>, m: Seq<char>| quiet(#[trigger] unlock_start(d, p, m)),
{
    lemma_scan_quiet();
    assert forall|s: UnlockView, o: OutcomeView| quiet(#[trigger] unlock_resume(s, o)) by {}
    assert forall|d: Seq<char>, p: Seq<char>, m: Seq<char>| quiet(#[trigger] unlock_start(d, p, m)) by {}
}

/// No turn of encrypting emits an error notification or asks for the
/// inventory to be read again.
pub proof fn lemma_encrypt_quiet()
    ensures
        forall|s: EncryptView, o: OutcomeView| quiet(#[trigger] encrypt_resume(s, o)),
        forall|p: Seq<char>, w: Seq<char>| quiet(#[trigger] encrypt_start(p, w)),
{
    lemma_check_quiet();
    assert forall|s: EncryptView, o: OutcomeView| quiet(#[trigger] encrypt_resume(s, o)) by {}
    assert forall|p: Seq<char>, w: Seq<char>| quiet(#[trigger] encrypt_start(p, w)) by {}
}

/// No turn of encrypting and formatting emits an error notification or asks for the
/// inventory to be read again.
#[verifier::rlimit(60)]
pub proof fn lemma_eaf_quiet()
    ensures
        forall|s: EncryptAndFormatView, o: OutcomeView| quiet(#[trigger] eaf_resume(s, o)),
        forall|p: Seq<char>, w: Seq<char>, fs: FilesystemType| quiet(#[trigger] eaf_start(p, w, fs)),
{
    lemma_encrypt_quiet();
    lemma_unlock_quiet();
    lemma_format_quiet();
    assert forall|s: EncryptAndFormatView, o: OutcomeView| quiet(#[trigger] eaf_resume(s, o)) by {}
    assert forall|p: Seq<char>, w: Seq<char>, fs: FilesystemType| quiet(#[trigger] eaf_start(p, w, fs)) by {}
}

/// No turn of the writing of a partition table emits an error notification or asks for the
/// inventory to be read again.
pub proof fn lemma_table_quiet()
    ensures
        forall|s: CreateTableView, o: OutcomeView| quiet(#[trigger] table_resume(s, o)),
        forall|d: Seq<char>, t: Seq<char>| quiet(#[trigger] table_start(d, t)),
{
    assert forall|s: CreateTableView, o: OutcomeView| quiet(#[trigger] table_resume(s, o)) by {}
    assert forall|d: Seq<char>, t: Seq<char>| quiet(#[trigger] table_start(d, t)) by {}
}

/// No turn of the adding of a partition emits an error notification or asks for the
/// inventory to be read again.
pub proof fn lemma_create_quiet()
    ensures
        forall|s: CreateRawView, o: OutcomeView| quiet(#[trigger] create_resume(s, o)),
        forall|d: Seq<char>, z: Seq<char>| quiet(#[trigger] create_start(d, z)),
{
    assert forall|s: CreateRawView, o: OutcomeView| quiet(#[trigger] create_resume(s, o)) by {}
    assert forall|d: Seq<char>, z: Seq<char>| quiet(#[trigger] create_start(d, z)) by {}
}

/// No turn of the adding of a formatted partition emits an error notification or asks for the
/// inventory to be read again.
#[verifier::rlimit(60)]
pub proof fn lemma_cwf_quiet()
    ensures
        forall|s: CreateWithFsView, o: OutcomeView| quiet(#[trigger] cwf_resume(s, o)),
        forall|d: Seq<char>, z: Seq<char>, fs: FilesystemType| quiet(#[trigger] cwf_start(d, z, fs)),
{
    lemma_create_quiet();
    lemma_format_quiet();
    assert forall|s: CreateWithFsView, o: OutcomeView| quiet(#[trigger] cwf_resume(s, o)) by {}
    assert forall|d: Seq<char>, z: Seq<char>, fs: FilesystemType| quiet(#[trigger] cwf_start(d, z, fs)) by {}
}

/// No turn of the adding of an encrypted partition emits an error notification or asks for the
/// inventory to be read again.
#[verifier::rlimit(60)]
pub proof fn lemma_ce_quiet()
    ensures
        forall|s: CreateEncryptedView, o: OutcomeView| quiet(#[trigger] ce_resume(s, o)),
        forall|d: Seq<char>, z: Seq<char>, w: Seq<char>, fs: FilesystemType| quiet(#[trigger] ce_start(d, z, w, fs)),
{
    lemma_create_quiet();
    lemma_eaf_quiet();
    assert forall|s: CreateEncryptedView, o: OutcomeView| quiet(#[trigger] ce_resume(s, o)) by {}
    assert forall|d: Seq<char>, z: Seq<char>, w: Seq<char>, fs: FilesystemType| quiet(#[trigger] ce_start(d, z, w, fs)) by {}
}

/// No turn of the resizing of a filesystem emits an error notification or asks for the
/// inventory to be read again.
pub proof fn lemma_fs_quiet()
    ensures
        forall|s: FsResizeView, o: OutcomeView| quiet(#[trigger] fs_resume(s, o)),
        forall|p: Seq<char>, f: Option<Seq<char>>, n: u64, g: bool| quiet(#[trigger] fs_start(p, f, n, g)),
{
    assert forall|s: FsResizeView, o: OutcomeView| quiet(#[trigger] fs_resume(s, o)) by {}
    assert forall|p: Seq<char>, f: Option<Seq<char>>, n: u64, g: bool| quiet(#[trigger] fs_start(p, f, n, g)) by {}
}

/// No turn of the resizing of a partition emits an error notification or asks for the
/// inventory to be read again.
#[verifier::rlimit(60)]
pub proof fn lemma_resize_quiet()
    ensures
        forall|s: ResizeView, o: OutcomeView| quiet(#[trigger] resize_resume(s, o)),
        forall|p: Seq<char>, z: Seq<char>| quiet(#[trigger] resize_start(p, z)),
{
    lemma_check_quiet();
    lemma_fs_quiet();
    assert forall|s: ResizeView, o: OutcomeView| quiet(#[trigger] resize_resume(s, o)) by {}
    assert forall|p: Seq<char>, z: Seq<char>| quiet(#[trigger] resize_start(p, z)) by {}
}

/// No turn of deleting emits an error notification or asks for the
/// inventory to be read again.
#[verifier::rlimit(60)]
pub proof fn lemma_delete_quiet()
    ensures
        forall|s: DeleteView, o: OutcomeView| quiet(#[trigger] delete_resume(s, o)),
        forall|p: Seq<char>| quiet(#[trigger] delete_start(p)),
{
    lemma_scan_quiet();
    lemma_check_quiet();
    lemma_unmount_quiet();
    lemma_lock_quiet();
    assert forall|s: DeleteView, o: OutcomeView| quiet(#[trigger] delete_resume(s, o)) by {}
    assert forall|p: Seq<char>| quiet(#[trigger] delete_start(p)) by {}
}

/// No turn of the formatting of a whole disk emits an error notification or asks for the
/// inventory to be read again.
#[verifier::rlimit(60)]
pub proof fn lemma_whole_quiet()
    ensures
        forall|s: WholeDiskView, o: OutcomeView| quiet(#[trigger] whole_resume(s, o)),
        forall|d: Seq<char>, fs: FilesystemType| quiet(#[trigger] whole_start(d, fs)),
{
    lemma_scan_quiet();
    lemma_unmount_quiet();
    lemma_lock_quiet();
    lemma_format_quiet();
    assert forall|s: WholeDiskView, o: OutcomeView| quiet(#[trigger] whole_resume(s, o)) by {}
    assert forall|d: Seq<char>, fs: FilesystemType| quiet(#[trigger] whole_start(d, fs)) by {}
}

/// Whether a turn tells its failure exactly once: a turn that fails emits
/// the error notification that carries the failure's text as the last thing
/// before the request to read the inventory again, and emits no other
/// error notification; a turn that does not fail emits none.
pub open spec fn tells_failure_once<SV>(t: TurnView<SV, ()>) -> bool {
    match t.flow {
        FlowView::Done(Err(f)) => t.events.len() >= 2 && t.events.last() == EventView::Refresh
            && t.events[t.events.len() - 2] == error(f.message) && no_errors(
            t.events.take(t.events.len() - 2),
        ),
        _ => no_errors(t.events),
    }
}

/// Whether a turn asks for the inventory to be read again exactly when it
/// ends the operation, and then as the last thing it emits.
pub open spec fn refreshes_at_the_end<SV>(t: TurnView<SV, ()>) -> bool {
    &&& t.flow is Done ==> t.events.len() > 0 && t.events.last() == EventView::Refresh
    &&& forall|i: int|
        0 <= i < t.events.len() && #[trigger] t.events[i] == EventView::Refresh ==> t.flow is Done
            && i == t.events.len() - 1
}

/// What is raised from a quiet turn tells its failure once and asks for
/// the inventory at its end.
pub proof fn lemma_raised_tells<CV>(t: TurnView<CV, ()>, wrap: spec_fn(CV) -> OperationView)
    requires
        quiet(t),
    ensures
        tells_failure_once(raised(t, wrap)),
        refreshes_at_the_end(raised(t, wrap)),
{
    let r = raised(t, wrap);
    match t.flow {
        FlowView::Done(Err(f)) => {
            assert(r.events.take(r.events.len() - 2) == t.events);
        },
        _ => {},
    }
}

/// The same of the adding of a bare partition.
pub proof fn lemma_raised_bare_tells(t: TurnView<CreateRawView, Seq<char>>)
    requires
        quiet(t),
    ensures
        tells_failure_once(raised_bare(t)),
        refreshes_at_the_end(raised_bare(t)),
{
    let r = raised_bare(t);
    match t.flow {
        FlowView::Done(Err(f)) => {
            assert(r.events.take(r.events.len() - 2) == t.events);
        },
        _ => {},
    }
}

/// Every operation that ends in failure says so exactly once, as the last
/// thing it emits before it asks for the inventory to be read again; and no
/// operation emits an error notification unless it fails.
pub proof fn law_failure_is_told_once(s: OperationView, o: OutcomeView)
    ensures
        tells_failure_once(op_resume(s, o)),
        refreshes_at_the_end(op_resume(s, o)),
{
    match s {
        OperationView::Mount(p) => {
            lemma_mount_quiet();
            lemma_raised_tells(mount_resume(p, o), |s: MountView| OperationView::Mount(s));
        },
        OperationView::Unmount(p) => {
            lemma_unmount_quiet();
            lemma_raised_tells(unmount_resume(p, o), |s: UnmountView| OperationView::Unmount(s));
        },
        OperationView::Format(p) => {
            lemma_format_quiet();
            lemma_raised_tells(format_resume(p, o), |s: FormatView| OperationView::Format(s));
        },
        OperationView::FormatWholeDisk(p) => {
            lemma_whole_quiet();
            lemma_raised_tells(whole_resume(p, o), |s: WholeDiskView| OperationView::FormatWholeDisk(s));
        },
        OperationView::CreatePartitionTable(p) => {
            lemma_table_quiet();
            lemma_raised_tells(table_resume(p, o), |s: CreateTableView| OperationView::CreatePartitionTable(s));
        },
        OperationView::CreatePartition(p) => {
            lemma_cwf_quiet();
            lemma_raised_tells(cwf_resume(p, o), |s: CreateWithFsView| OperationView::CreatePartition(s));
        },
        OperationView::CreateEncryptedPartition(p) => {
            lemma_ce_quiet();
            lemma_raised_tells(ce_resume(p, o), |s: CreateEncryptedView| OperationView::CreateEncryptedPartition(s));
        },
        OperationView::DeletePartition(p) => {
            lemma_delete_quiet();
            lemma_raised_tells(delete_resume(p, o), |s: DeleteView| OperationView::DeletePartition(s));
        },
        OperationView::ResizePartition(p) => {
            lemma_resize_quiet();
            lemma_raised_tells(resize_resume(p, o), |s: ResizeView| OperationView::ResizePartition(s));
        },
        OperationView::UnlockLuks(p) => {
            lemma_unlock_quiet();
            lemma_raised_tells(unlock_resume(p, o), |s: UnlockView| OperationView::UnlockLuks(s));
        },
        OperationView::LockLuks(p) => {
            lemma_lock_quiet();
            lemma_raised_tells(lock_resume(p, o), |s: LockView| OperationView::LockLuks(s));
        },
        OperationView::EncryptPartition(p) => {
            lemma_encrypt_quiet();
            lemma_raised_tells(encrypt_resume(p, o), |s: EncryptView| OperationView::EncryptPartition(s));
        },
        OperationView::EncryptAndFormat(p) => {
            lemma_eaf_quiet();
            lemma_raised_tells(eaf_resume(p, o), |s: EncryptAndFormatView| OperationView::EncryptAndFormat(s));
        },
        OperationView::CreateBarePartition(p) => {
            lemma_create_quiet();
            lemma_raised_bare_tells(create_resume(p, o));
        },
    }
}

/// The same of the first turn of every job.
pub proof fn law_first_failure_is_told_once(job: JobView)
    ensures
        tells_failure_once(op_start(job)),
        refreshes_at_the_end(op_start(job)),
{
    match job {
        JobView::Mount { device } => {
            lemma_mount_quiet();
            lemma_raised_tells(mount_start(device), |s: MountView| OperationView::Mount(s));
        },
        JobView::Unmount { device } => {
            lemma_unmount_quiet();
            lemma_raised_tells(unmount_start(device), |s: UnmountView| OperationView::Unmount(s));
        },
        JobView::Format { device, fs } => {
            lemma_format_quiet();
            lemma_raised_tells(format_start(device, fs), |s: FormatView| OperationView::Format(s));
        },
        JobView::FormatWholeDisk { disk, fs } => {
            lemma_whole_quiet();
            lemma_raised_tells(
                whole_start(disk, fs),
                |s: WholeDiskView| OperationView::FormatWholeDisk(s),
            );
        },
        JobView::CreatePartitionTable { disk, table_type } => {
            lemma_table_quiet();
            lemma_raised_tells(
                table_start(disk, table_type),
                |s: CreateTableView| OperationView::CreatePartitionTable(s),
            );
        },
        JobView::CreatePartition { disk, size, fs } => {
            lemma_cwf_quiet();
            lemma_create_quiet();
            match fs {
                Some(f) => {
                    lemma_raised_tells(
                        cwf_start(disk, size, f),
                        |s: CreateWithFsView| OperationView::CreatePartition(s),
                    );
                },
                None => {
                    lemma_raised_bare_tells(create_start(disk, size));
                },
            }
        },
        JobView::CreateEncryptedPartition { disk, size, passphrase, fs } => {
            lemma_ce_quiet();
            lemma_raised_tells(
                ce_start(disk, size, passphrase, fs),
                |s: CreateEncryptedView| OperationView::CreateEncryptedPartition(s),
            );
        },
        JobView::DeletePartition { partition } => {
            lemma_delete_quiet();
            lemma_raised_tells(
                delete_start(partition),
                |s: DeleteView| OperationView::DeletePartition(s),
            );
        },
        JobView::ResizePartition { partition, new_size } => {
            lemma_resize_quiet();
            lemma_raised_tells(
                resize_start(partition, new_size),
                |s: ResizeView| OperationView::ResizePartition(s),
            );
        },
        JobView::UnlockLuks { device, passphrase, mapper_name } => {
            lemma_unlock_quiet();
            lemma_raised_tells(
                unlock_start(device, passphrase, mapper_name),
                |s: UnlockView| OperationView::UnlockLuks(s),
            );
        },
        JobView::LockLuks { mapper_name } => {
            lemma_lock_quiet();
            lemma_raised_tells(lock_start(mapper_name), |s: LockView| OperationView::LockLuks(s));
        },
        JobView::EncryptPartition { partition, passphrase } => {
            lemma_encrypt_quiet();
            lemma_raised_tells(
                encrypt_start(partition, passphrase),
                |s: EncryptView| OperationView::EncryptPartition(s),
            );
        },
        JobView::EncryptAndFormat { partition, passphrase, fs } => {
            lemma_eaf_quiet();
            lemma_raised_tells(
                eaf_start(partition, passphrase, fs),
                |s: EncryptAndFormatView| OperationView::EncryptAndFormat(s),
            );
        },
    }
}

/// The device names that a job hands to tools.
pub open spec fn job_names(job: JobView) -> Seq<Seq<char>> {
    match job {
        JobView::Mount { device } => seq![device],
        JobView::Unmount { device } => seq![device],
        JobView::Format { device, .. } => seq![device],
        JobView::FormatWholeDisk { disk, .. } => seq![disk],
        JobView::CreatePartitionTable { disk, .. } => seq![disk],
        JobView::CreatePartition { disk, .. } => seq![disk],
        JobView::CreateEncryptedPartition { disk, .. } => seq![disk],
        JobView::DeletePartition { partition } => seq![partition],
        JobView::ResizePartition { partition, .. } => seq![partition],
        JobView::UnlockLuks { device, mapper_name, .. } => seq![device, mapper_name],
        JobView::LockLuks { mapper_name } => seq![mapper_name],
        JobView::EncryptPartition { partition, .. } => seq![partition],
        JobView::EncryptAndFormat { partition, .. } => seq![partition],
    }
}

/// A job that names a device by a name that is not valid ends at once with
/// a validation failure: nothing is asked of the host, so no tool runs.
pub proof fn law_invalid_name_reaches_no_tool(job: JobView, i: int)
    requires
        0 <= i < job_names(job).len(),
        !valid_device_name(job_names(job)[i]),
    ensures
        op_start(job).flow matches FlowView::Done(Err(f)) && f.kind == ErrorKind::Validation,
{
}

/// Whether an action is given no more time than the operations give: a
/// tool runs under a limit only where it is the unmount tool, with 5
/// seconds, or the closing of a mapping, with 10.
pub open spec fn limit_is_known(a: ActionView) -> bool {
    match a {
        ActionView::Run(c) => match c.timeout_secs {
            None => true,
            Some(t) => (c.program == "umount"@ && t == UNMOUNT_TIMEOUT_SECS) || (c.program
                == "cryptsetup"@ && c.args.len() == 2 && c.args[0] == "close"@ && t
                == LOCK_TIMEOUT_SECS),
        },
        _ => true,
    }
}

/// A turn whose action, if it asks for one, is given a known limit.
pub open spec fn timed<SV, TV>(t: TurnView<SV, TV>) -> bool {
    t.flow matches FlowView::Wait(s, a) ==> limit_is_known(a)
}

/// Every turn of the status scan gives its action a known limit.
pub proof fn lemma_scan_timed()
    ensures
        forall|s: ScanView, o: OutcomeView| timed(#[trigger] scan_resume(s, o)),
        forall|d: Seq<char>| timed(#[trigger] scan_start(d)),
{
    assert forall|s: ScanView, o: OutcomeView| timed(#[trigger] scan_resume(s, o)) by {}
    assert forall|d: Seq<char>| timed(#[trigger] scan_start(d)) by {}
}

/// Every turn of the mount check gives its action a known limit.
pub proof fn lemma_check_timed()
    ensures
        forall|s: CheckView, o: OutcomeView| timed(#[trigger] check_resume(s, o)),
        forall|d: Seq<char>| timed(#[trigger] check_start(d)),
{
    assert forall|s: CheckView, o: OutcomeView| timed(#[trigger] check_resume(s, o)) by {}
    assert forall|d: Seq<char>| timed(#[trigger] check_start(d)) by {}
}

/// Every turn of mounting gives its action a known limit.
pub proof fn lemma_mount_timed()
    ensures
        forall|s: MountView, o: OutcomeView| timed(#[trigger] mount_resume(s, o)),
        forall|p: Seq<char>| timed(#[trigger] mount_start(p)),
{
    lemma_scan_timed();
    lemma_check_timed();
    assert forall|s: MountView, o: OutcomeView| timed(#[trigger] mount_resume(s, o)) by {}
    assert forall|p: Seq<char>| timed(#[trigger] mount_start(p)) by {}
}

/// Every turn of unmounting gives its action a known limit.
pub proof fn lemma_unmount_timed()
    ensures
        forall|s: UnmountView, o: OutcomeView| timed(#[trigger] unmount_resume(s, o)),
        forall|p: Seq<char>| timed(#[trigger] unmount_start(p)),
{
    lemma_scan_timed();
    lemma_check_timed();
    assert forall|s: UnmountView, o: OutcomeView| timed(#[trigger] unmount_resume(s, o)) by {}
    assert forall|p: Seq<char>| timed(#[trigger] unmount_start(p)) by {}
}

/// Every turn of formatting gives its action a known limit.
pub proof fn lemma_format_timed()
    ensures
        forall|s: FormatView, o: OutcomeView| timed(#[trigger] format_resume(s, o)),
        forall|p: Seq<char>, fs: FilesystemType| timed(#[trigger] format_start(p, fs)),
{
    lemma_scan_timed();
    lemma_check_timed();
    assert forall|s: FormatView, o: OutcomeView| timed(#[trigger] format_resume(s, o)) by {}
    assert forall|p: Seq<char>, fs: FilesystemType| timed(#[trigger] format_start(p, fs)) by {}
}

/// Every turn of locking gives its action a known limit.
pub proof fn lemma_lock_timed()
    ensures
        forall|s: LockView, o: OutcomeView| timed(#[trigger] lock_resume(s, o)),
        forall|m: Seq<char>| timed(#[trigger] lock_start(m)),
{
    assert forall|s: LockView, o: OutcomeView| timed(#[trigger] lock_resume(s, o)) by {}
    assert forall|m: Seq<char>| timed(#[trigger] lock_start(m)) by {}
}

/// Every turn of unlocking gives its action a known limit.
pub proof fn lemma_unlock_timed()
    ensures
        forall|s: UnlockView, o: OutcomeView| timed(#[trigger] unlock_resume(s, o)),
        forall|d: Seq<char>, p: Seq<char>, m: Seq<char>| timed(#[trigger] unlock_start(d, p, m)),
{
    lemma_scan_timed();
    assert forall|s: UnlockView, o: OutcomeView| timed(#[trigger] unlock_resume(s, o)) by {}
    assert forall|d: Seq<char>, p: Seq<char>, m: Seq<char>| timed(#[trigger] unlock_start(d, p, m)) by {}
}

/// Every turn of encrypting gives its action a known limit.
pub proof fn lemma_encrypt_timed()
    ensures
        forall|s: EncryptView, o: OutcomeView| timed(#[trigger] encrypt_resume(s, o)),
        forall|p: Seq<char>, w: Seq<char>| timed(#[trigger] encrypt_start(p, w)),
{
    lemma_check_timed();
    assert forall|s: EncryptView, o: OutcomeView| timed(#[trigger] encrypt_resume(s, o)) by {}
    assert forall|p: Seq<char>, w: Seq<char>| timed(#[trigger] encrypt_start(p, w)) by {}
}

/// Every turn of encrypting and formatting gives its action a known limit.
#[verifier::rlimit(60)]
pub proof fn lemma_eaf_timed()
    ensures
        forall|s: EncryptAndFormatView, o: OutcomeView| timed(#[trigger] eaf_resume(s, o)),
        forall|p: Seq<char>, w: Seq<char>, fs: FilesystemType| timed(#[trigger] eaf_start(p, w, fs)),
{
    lemma_encrypt_timed();
    lemma_unlock_timed();
    lemma_format_timed();
    assert forall|s: EncryptAndFormatView, o: OutcomeView| timed(#[trigger] eaf_resume(s, o)) by {}
    assert forall|p: Seq<char>, w: Seq<char>, fs: FilesystemType| timed(#[trigger] eaf_start(p, w, fs)) by {}
}

/// Every turn of the writing of a partition table gives its action a known limit.
pub proof fn lemma_table_timed()
    ensures
        forall|s: CreateTableView, o: OutcomeView| timed(#[trigger] table_resume(s, o)),
        forall|d: Seq<char>, t: Seq<char>| timed(#[trigger] table_start(d, t)),
{
    assert forall|s: CreateTableView, o: OutcomeView| timed(#[trigger] table_resume(s, o)) by {}
    assert forall|d: Seq<char>, t: Seq<char>| timed(#[trigger] table_start(d, t)) by {}
}

/// Every turn of the adding of a partition gives its action a known limit.
pub proof fn lemma_create_timed()
    ensures
        forall|s: CreateRawView, o: OutcomeView| timed(#[trigger] create_resume(s, o)),
        forall|d: Seq<char>, z: Seq<char>| timed(#[trigger] create_start(d, z)),
{
    assert forall|s: CreateRawView, o: OutcomeView| timed(#[trigger] create_resume(s, o)) by {}
    assert forall|d: Seq<char>, z: Seq<char>| timed(#[trigger] create_start(d, z)) by {}
}

/// Every turn of the adding of a formatted partition gives its action a known limit.
#[verifier::rlimit(60)]
pub proof fn lemma_cwf_timed()
    ensures
        forall|s: CreateWithFsView, o: OutcomeView| timed(#[trigger] cwf_resume(s, o)),
        forall|d: Seq<char>, z: Seq<char>, fs: FilesystemType| timed(#[trigger] cwf_start(d, z, fs)),
{
    lemma_create_timed();
    lemma_format_timed();
    assert forall|s: CreateWithFsView, o: OutcomeView| timed(#[trigger] cwf_resume(s, o)) by {}
    assert forall|d: Seq<char>, z: Seq<char>, fs: FilesystemType| timed(#[trigger] cwf_start(d, z, fs)) by {}
}

/// Every turn of the adding of an encrypted partition gives its action a known limit.
#[verifier::rlimit(60)]
pub proof fn lemma_ce_timed()
    ensures
        forall|s: CreateEncryptedView, o: OutcomeView| timed(#[trigger] ce_resume(s, o)),
        forall|d: Seq<char>, z: Seq<char>, w: Seq<char>, fs: FilesystemType| timed(#[trigger] ce_start(d, z, w, fs)),
{
    lemma_create_timed();
    lemma_eaf_timed();
    assert forall|s: CreateEncryptedView, o: OutcomeView| timed(#[trigger] ce_resume(s, o)) by {}
    assert forall|d: Seq<char>, z: Seq<char>, w: Seq<char>, fs: FilesystemType| timed(#[trigger] ce_start(d, z, w, fs)) by {}
}

/// Every turn of the resizing of a filesystem gives its action a known limit.
pub proof fn lemma_fs_timed()
    ensures
        forall|s: FsResizeView, o: OutcomeView| timed(#[trigger] fs_resume(s, o)),
        forall|p: Seq<char>, f: Option<Seq<char>>, n: u64, g: bool| timed(#[trigger] fs_start(p, f, n, g)),
{
    assert forall|s: FsResizeView, o: OutcomeView| timed(#[trigger] fs_resume(s, o)) by {}
    assert forall|p: Seq<char>, f: Option<Seq<char>>, n: u64, g: bool| timed(#[trigger] fs_start(p, f, n, g)) by {}
}

/// Every turn of the resizing of a partition gives its action a known limit.
#[verifier::rlimit(60)]
pub proof fn lemma_resize_timed()
    ensures
        forall|s: ResizeView, o: OutcomeView| timed(#[trigger] resize_resume(s, o)),
        forall|p: Seq<char>, z: Seq<char>| timed(#[trigger] resize_start(p, z)),
{
    lemma_check_timed();
    lemma_fs_timed();
    assert forall|s: ResizeView, o: OutcomeView| timed(#[trigger] resize_resume(s, o)) by {}
    assert forall|p: Seq<char>, z: Seq<char>| timed(#[trigger] resize_start(p, z)) by {}
}

/// Every turn of deleting gives its action a known limit.
#[verifier::rlimit(60)]
pub proof fn lemma_delete_timed()
    ensures
        forall|s: DeleteView, o: OutcomeView| timed(#[trigger] delete_resume(s, o)),
        forall|p: Seq<char>| timed(#[trigger] delete_start(p)),
{
    lemma_scan_timed();
    lemma_check_timed();
    lemma_unmount_timed();
    lemma_lock_timed();
    assert forall|s: DeleteView, o: OutcomeView| timed(#[trigger] delete_resume(s, o)) by {}
    assert forall|p: Seq<char>| timed(#[trigger] delete_start(p)) by {}
}

/// Every turn of the formatting of a whole disk gives its action a known limit.
#[verifier::rlimit(60)]
pub proof fn lemma_whole_timed()
    ensures
        forall|s: WholeDiskView, o: OutcomeView| timed(#[trigger] whole_resume(s, o)),
        forall|d: Seq<char>, fs: FilesystemType| timed(#[trigger] whole_start(d, fs)),
{
    lemma_scan_timed();
    lemma_unmount_timed();
    lemma_lock_timed();
    lemma_format_timed();
    assert forall|s: WholeDiskView, o: OutcomeView| timed(#[trigger] whole_resume(s, o)) by {}
    assert forall|d: Seq<char>, fs: FilesystemType| timed(#[trigger] whole_start(d, fs)) by {}
}

/// Only two tools run under a time limit, whatever the operation and
/// whatever the host answers: the unmount tool, given 5 seconds, and the
/// closing of a mapping, given 10. Every other wait is a pause of fixed
/// length.
pub proof fn law_only_two_time_limits(s: OperationView, o: OutcomeView)
    ensures
        timed(op_resume(s, o)),
{
    lemma_mount_timed();
    lemma_unmount_timed();
    lemma_format_timed();
    lemma_whole_timed();
    lemma_table_timed();
    lemma_cwf_timed();
    lemma_ce_timed();
    lemma_delete_timed();
    lemma_resize_timed();
    lemma_unlock_timed();
    lemma_lock_timed();
    lemma_encrypt_timed();
    lemma_eaf_timed();
    lemma_create_timed();
}

/// The same of the first turn of every job.
pub proof fn law_first_turn_has_known_limit(job: JobView)
    ensures
        timed(op_start(job)),
{
    lemma_mount_timed();
    lemma_unmount_timed();
    lemma_format_timed();
    lemma_whole_timed();
    lemma_table_timed();
    lemma_cwf_timed();
    lemma_ce_timed();
    lemma_delete_timed();
    lemma_resize_timed();
    lemma_unlock_timed();
    lemma_lock_timed();
    lemma_encrypt_timed();
    lemma_eaf_timed();
    lemma_create_timed();
}

} // verus!
