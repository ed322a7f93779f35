//! The operations under one roof.
//!
//! A [`Job`] says what is to be done; an [`Operation`] is a job under way.
//! Whatever the job, a failure is told to the operator exactly once: as the
//! error notification that ends the operation's events.

use vstd::prelude::*;
use crate::engine::{abort_with, finish, wait, Flow, FlowView, Outcome, OutcomeView, Turn, TurnView};
use crate::event::{error, event_views, info, Event, EventView};
use crate::operations::create::{
    ce_resume, ce_start, create_resume, create_start, cwf_resume, cwf_start, CreateEncrypted,
    CreateEncryptedView, CreateRaw, CreateRawView, CreateWithFs, CreateWithFsView,
};
use crate::operations::delete::{delete_resume, delete_start, Delete, DeleteView};
use crate::operations::encrypt::{
    eaf_resume, eaf_start, encrypt_resume, encrypt_start, Encrypt, EncryptAndFormat,
    EncryptAndFormatView, EncryptView,
};
use crate::operations::format::{format_resume, format_start, Format, FormatView};
use crate::operations::label::{table_resume, table_start, CreateTable, CreateTableView};
use crate::operations::lock::{
    lock_resume, lock_start, unlock_resume, unlock_start, Lock, LockView, Unlock, UnlockView,
};
use crate::operations::mount::{mount_resume, mount_start, Mount, MountView};
use crate::operations::resize::{resize_resume, resize_start, Resize, ResizeView};
use crate::operations::unmount::{unmount_resume, unmount_start, Unmount, UnmountView};
use crate::operations::whole_disk::{whole_resume, whole_start, WholeDisk, WholeDiskView};
use crate::operations::FilesystemType;
use crate::error::join2;
use crate::text::copy;

verus! {

/// What is to be done.
#[derive(Debug, Clone, PartialEq, Eq)]
pub enum Job {
    Mount { device: String },
    Unmount { device: String },
    Format { device: String, fs: FilesystemType },
    FormatWholeDisk { disk: String, fs: FilesystemType },
    CreatePartitionTable { disk: String, table_type: String },
    /// Without a filesystem type the new partition is left unformatted.
    CreatePartition { disk: String, size: String, fs: Option<FilesystemType> },
    CreateEncryptedPartition { disk: String, size: String, passphrase: String, fs: FilesystemType },
    DeletePartition { partition: String },
    ResizePartition { partition: String, new_size: String },
    UnlockLuks { device: String, passphrase: String, mapper_name: String },
    LockLuks { mapper_name: String },
    EncryptPartition { partition: String, passphrase: String },
    EncryptAndFormat { partition: String, passphrase: String, fs: FilesystemType },
}

/// The mathematical content of a [`Job`].
pub enum JobView {
    Mount { device: Seq<char> },
    Unmount { device: Seq<char> },
    Format { device: Seq<char>, fs: FilesystemType },
    FormatWholeDisk { disk: Seq<char>, fs: FilesystemType },
    CreatePartitionTable { disk: Seq<char>, table_type: Seq<char> },
    CreatePartition { disk: Seq<char>, size: Seq<char>, fs: Option<FilesystemType> },
    CreateEncryptedPartition {
        disk: Seq<char>,
        size: Seq<char>,
        passphrase: Seq<char>,
        fs: FilesystemType,
    },
    DeletePartition { partition: Seq<char> },
    ResizePartition { partition: Seq<char>, new_size: Seq<char> },
    UnlockLuks { device: Seq<char>, passphrase: Seq<char>, mapper_name: Seq<char> },
    LockLuks { mapper_name: Seq<char> },
    EncryptPartition { partition: Seq<char>, passphrase: Seq<char> },
    EncryptAndFormat { partition: Seq<char>, passphrase: Seq<char>, fs: FilesystemType },
}

impl View for Job {
    type V = JobView;

    open spec fn view(&self) -> JobView {
        match self {
            Job::Mount { device } => JobView::Mount { device: device@ },
            Job::Unmount { device } => JobView::Unmount { device: device@ },
            Job::Format { device, fs } => JobView::Format { device: device@, fs: *fs },
            Job::FormatWholeDisk { disk, fs } => JobView::FormatWholeDisk { disk: disk@, fs: *fs },
            Job::CreatePartitionTable { disk, table_type } => JobView::CreatePartitionTable {
                disk: disk@,
                table_type: table_type@,
            },
            Job::CreatePartition { disk, size, fs } => JobView::CreatePartition {
                disk: disk@,
                size: size@,
                fs: *fs,
            },
            Job::CreateEncryptedPartition {
                disk,
                size,
                passphrase,
                fs,
            } => JobView::CreateEncryptedPartition {
                disk: disk@,
                size: size@,
                passphrase: passphrase@,
                fs: *fs,
            },
            Job::DeletePartition { partition } => JobView::DeletePartition {
                partition: partition@,
            },
            Job::ResizePartition { partition, new_size } => JobView::ResizePartition {
                partition: partition@,
                new_size: new_size@,
            },
            Job::UnlockLuks { device, passphrase, mapper_name } => JobView::UnlockLuks {
                device: device@,
                passphrase: passphrase@,
                mapper_name: mapper_name@,
            },
            Job::LockLuks { mapper_name } => JobView::LockLuks { mapper_name: mapper_name@ },
            Job::EncryptPartition { partition, passphrase } => JobView::EncryptPartition {
                partition: partition@,
                passphrase: passphrase@,
            },
            Job::EncryptAndFormat { partition, passphrase, fs } => JobView::EncryptAndFormat {
                partition: partition@,
                passphrase: passphrase@,
                fs: *fs,
            },
        }
    }
}

/// A job under way, by the operation that carries it out.
#[derive(Debug, Clone, PartialEq, Eq)]
pub enum Operation {
    Mount(Mount),
    Unmount(Unmount),
    Format(Format),
    FormatWholeDisk(WholeDisk),
    CreatePartitionTable(CreateTable),
    CreatePartition(CreateWithFs),
    CreateEncryptedPartition(CreateEncrypted),
    DeletePartition(Delete),
    ResizePartition(Resize),
    UnlockLuks(Unlock),
    LockLuks(Lock),
    EncryptPartition(Encrypt),
    EncryptAndFormat(EncryptAndFormat),
    CreateBarePartition(CreateRaw),
}

/// The mathematical content of an [`Operation`].
pub enum OperationView {
    Mount(MountView),
    Unmount(UnmountView),
    Format(FormatView),
    FormatWholeDisk(WholeDiskView),
    CreatePartitionTable(CreateTableView),
    CreatePartition(CreateWithFsView),
    CreateEncryptedPartition(CreateEncryptedView),
    DeletePartition(DeleteView),
    ResizePartition(ResizeView),
    UnlockLuks(UnlockView),
    LockLuks(LockView),
    EncryptPartition(EncryptView),
    EncryptAndFormat(EncryptAndFormatView),
    CreateBarePartition(CreateRawView),
}

impl View for Operation {
    type V = OperationView;

    open spec fn view(&self) -> OperationView {
        match self {
            Operation::Mount(s) => OperationView::Mount(s@),
            Operation::Unmount(s) => OperationView::Unmount(s@),
            Operation::Format(s) => OperationView::Format(s@),
            Operation::FormatWholeDisk(s) => OperationView::FormatWholeDisk(s@),
            Operation::CreatePartitionTable(s) => OperationView::CreatePartitionTable(s@),
            Operation::CreatePartition(s) => OperationView::CreatePartition(s@),
            Operation::CreateEncryptedPartition(s) => OperationView::CreateEncryptedPartition(s@),
            Operation::DeletePartition(s) => OperationView::DeletePartition(s@),
            Operation::ResizePartition(s) => OperationView::ResizePartition(s@),
            Operation::UnlockLuks(s) => OperationView::UnlockLuks(s@),
            Operation::LockLuks(s) => OperationView::LockLuks(s@),
            Operation::EncryptPartition(s) => OperationView::EncryptPartition(s@),
            Operation::EncryptAndFormat(s) => OperationView::EncryptAndFormat(s@),
            Operation::CreateBarePartition(s) => OperationView::CreateBarePartition(s@),
        }
    }
}

/// The turn of the whole that a turn of one operation amounts to. While the
/// operation waits, the whole waits; when it is done, the whole is done; and
/// when it fails, the failure's text is emitted as an error notification
/// before the whole fails with it. Either way the whole ends by asking the
/// front end to read the inventory again.
pub open spec fn raised<CV>(t: TurnView<CV, ()>, wrap: spec_fn(CV) -> OperationView) -> TurnView<
    OperationView,
    (),
> {
    match t.flow {
        FlowView::Wait(c, a) => wait(t.events, wrap(c), a),
        FlowView::Done(Ok(u)) => finish(t.events.push(EventView::Refresh), ()),
        FlowView::Done(Err(f)) => abort_with(
            t.events.push(error(f.message)).push(EventView::Refresh),
            f,
        ),
    }
}

/// As [`raised`], for the adding of a bare partition, which ends by naming
/// the partition it made.
pub open spec fn raised_bare(t: TurnView<CreateRawView, Seq<char>>) -> TurnView<
    OperationView,
    (),
> {
    match t.flow {
        FlowView::Wait(c, a) => wait(t.events, OperationView::CreateBarePartition(c), a),
        FlowView::Done(Ok(name)) => finish(
            t.events.push(info("Created partition "@ + name)).push(EventView::Refresh),
            (),
        ),
        FlowView::Done(Err(f)) => abort_with(
            t.events.push(error(f.message)).push(EventView::Refresh),
            f,
        ),
    }
}

/// The first turn of a job.
pub open spec fn op_start(job: JobView) -> TurnView<OperationView, ()> {
    match job {
        JobView::Mount { device } => raised(
            mount_start(device),
            |s: MountView| OperationView::Mount(s),
        ),
        JobView::Unmount { device } => raised(
            unmount_start(device),
            |s: UnmountView| OperationView::Unmount(s),
        ),
        JobView::Format { device, fs } => raised(
            format_start(device, fs),
            |s: FormatView| OperationView::Format(s),
        ),
        JobView::FormatWholeDisk { disk, fs } => raised(
            whole_start(disk, fs),
            |s: WholeDiskView| OperationView::FormatWholeDisk(s),
        ),
        JobView::CreatePartitionTable { disk, table_type } => raised(
            table_start(disk, table_type),
            |s: CreateTableView| OperationView::CreatePartitionTable(s),
        ),
        JobView::CreatePartition { disk, size, fs } => match fs {
            Some(f) => raised(
                cwf_start(disk, size, f),
                |s: CreateWithFsView| OperationView::CreatePartition(s),
            ),
            None => raised_bare(create_start(disk, size)),
        },
        JobView::CreateEncryptedPartition { disk, size, passphrase, fs } => raised(
            ce_start(disk, size, passphrase, fs),
            |s: CreateEncryptedView| OperationView::CreateEncryptedPartition(s),
        ),
        JobView::DeletePartition { partition } => raised(
            delete_start(partition),
            |s: DeleteView| OperationView::DeletePartition(s),
        ),
        JobView::ResizePartition { partition, new_size } => raised(
            resize_start(partition, new_size),
            |s: ResizeView| OperationView::ResizePartition(s),
        ),
        JobView::UnlockLuks { device, passphrase, mapper_name } => raised(
            unlock_start(device, passphrase, mapper_name),
            |s: UnlockView| OperationView::UnlockLuks(s),
        ),
        JobView::LockLuks { mapper_name } => raised(
            lock_start(mapper_name),
            |s: LockView| OperationView::LockLuks(s),
        ),
        JobView::EncryptPartition { partition, passphrase } => raised(
            encrypt_start(partition, passphrase),
            |s: EncryptView| OperationView::EncryptPartition(s),
        ),
        JobView::EncryptAndFormat { partition, passphrase, fs } => raised(
            eaf_start(partition, passphrase, fs),
            |s: EncryptAndFormatView| OperationView::EncryptAndFormat(s),
        ),
    }
}

/// The turn of a job under way on an outcome.
pub open spec fn op_resume(s: OperationView, o: OutcomeView) -> TurnView<OperationView, ()> {
    match s {
        OperationView::Mount(p) => raised(mount_resume(p, o), |s: MountView| OperationView::Mount(s)),
        OperationView::Unmount(p) => raised(unmount_resume(p, o), |s: UnmountView| OperationView::Unmount(s)),
        OperationView::Format(p) => raised(format_resume(p, o), |s: FormatView| OperationView::Format(s)),
        OperationView::FormatWholeDisk(p) => raised(whole_resume(p, o), |s: WholeDiskView| OperationView::FormatWholeDisk(s)),
        OperationView::CreatePartitionTable(p) => raised(table_resume(p, o), |s: CreateTableView| OperationView::CreatePartitionTable(s)),
        OperationView::CreatePartition(p) => raised(cwf_resume(p, o), |s: CreateWithFsView| OperationView::CreatePartition(s)),
        OperationView::CreateEncryptedPartition(p) => raised(ce_resume(p, o), |s: CreateEncryptedView| OperationView::CreateEncryptedPartition(s)),
        OperationView::DeletePartition(p) => raised(delete_resume(p, o), |s: DeleteView| OperationView::DeletePartition(s)),
        OperationView::ResizePartition(p) => raised(resize_resume(p, o), |s: ResizeView| OperationView::ResizePartition(s)),
        OperationView::UnlockLuks(p) => raised(unlock_resume(p, o), |s: UnlockView| OperationView::UnlockLuks(s)),
        OperationView::LockLuks(p) => raised(lock_resume(p, o), |s: LockView| OperationView::LockLuks(s)),
        OperationView::EncryptPartition(p) => raised(encrypt_resume(p, o), |s: EncryptView| OperationView::EncryptPartition(s)),
        OperationView::EncryptAndFormat(p) => raised(eaf_resume(p, o), |s: EncryptAndFormatView| OperationView::EncryptAndFormat(s)),
        OperationView::CreateBarePartition(p) => raised_bare(create_resume(p, o)),
    }
}

fn fail_loudly(events: Vec<Event>, e: crate::error::OpError) -> (t: Turn<Operation, ()>)
    ensures
        t@ == abort_with::<OperationView, ()>(
            event_views(events@).push(error(e.message@)).push(EventView::Refresh),
            e@,
        ),
{
    let mut events = events;
    let ghost before = event_views(events@);
    let note = Event::error(copy(e.message.as_str()));
    events.push(note);
    events.push(Event::Refresh);
    assert(event_views(events@) =~= before.push(error(e.message@)).push(EventView::Refresh));
    Turn::abort_with(events, e)
}

fn end_quietly(events: Vec<Event>) -> (t: Turn<Operation, ()>)
    ensures
        t@ == finish::<OperationView, ()>(event_views(events@).push(EventView::Refresh), ()),
{
    let mut events = events;
    let ghost before = event_views(events@);
    events.push(Event::Refresh);
    assert(event_views(events@) =~= before.push(EventView::Refresh));
    Turn::finish(events, ())
}

fn raise_mount(t: Turn<Mount, ()>) -> (r: Turn<Operation, ()>)
    ensures
        r@ == raised(t@, |s: MountView| OperationView::Mount(s)),
{
    let Turn { events, flow } = t;
    match flow {
        Flow::Wait(s, a) => Turn::wait(events, Operation::Mount(s), a),
        Flow::Done(Ok(_)) => end_quietly(events),
        Flow::Done(Err(e)) => fail_loudly(events, e),
    }
}

fn raise_unmount(t: Turn<Unmount, ()>) -> (r: Turn<Operation, ()>)
    ensures
        r@ == raised(t@, |s: UnmountView| OperationView::Unmount(s)),
{
    let Turn { events, flow } = t;
    match flow {
        Flow::Wait(s, a) => Turn::wait(events, Operation::Unmount(s), a),
        Flow::Done(Ok(_)) => end_quietly(events),
        Flow::Done(Err(e)) => fail_loudly(events, e),
    }
}

fn raise_format(t: Turn<Format, ()>) -> (r: Turn<Operation, ()>)
    ensures
        r@ == raised(t@, |s: FormatView| OperationView::Format(s)),
{
    let Turn { events, flow } = t;
    match flow {
        Flow::Wait(s, a) => Turn::wait(events, Operation::Format(s), a),
        Flow::Done(Ok(_)) => end_quietly(events),
        Flow::Done(Err(e)) => fail_loudly(events, e),
    }
}

fn raise_format_whole_disk(t: Turn<WholeDisk, ()>) -> (r: Turn<Operation, ()>)
    ensures
        r@ == raised(t@, |s: WholeDiskView| OperationView::FormatWholeDisk(s)),
{
    let Turn { events, flow } = t;
    match flow {
        Flow::Wait(s, a) => Turn::wait(events, Operation::FormatWholeDisk(s), a),
        Flow::Done(Ok(_)) => end_quietly(events),
        Flow::Done(Err(e)) => fail_loudly(events, e),
    }
}

fn raise_create_partition_table(t: Turn<CreateTable, ()>) -> (r: Turn<Operation, ()>)
    ensures
        r@ == raised(t@, |s: CreateTableView| OperationView::CreatePartitionTable(s)),
{
    let Turn { events, flow } = t;
    match flow {
        Flow::Wait(s, a) => Turn::wait(events, Operation::CreatePartitionTable(s), a),
        Flow::Done(Ok(_)) => end_quietly(events),
        Flow::Done(Err(e)) => fail_loudly(events, e),
    }
}

fn raise_create_partition(t: Turn<CreateWithFs, ()>) -> (r: Turn<Operation, ()>)
    ensures
        r@ == raised(t@, |s: CreateWithFsView| OperationView::CreatePartition(s)),
{
    let Turn { events, flow } = t;
    match flow {
        Flow::Wait(s, a) => Turn::wait(events, Operation::CreatePartition(s), a),
        Flow::Done(Ok(_)) => end_quietly(events),
        Flow::Done(Err(e)) => fail_loudly(events, e),
    }
}

fn raise_create_encrypted_partition(t: Turn<CreateEncrypted, ()>) -> (r: Turn<Operation, ()>)
    ensures
        r@ == raised(t@, |s: CreateEncryptedView| OperationView::CreateEncryptedPartition(s)),
{
    let Turn { events, flow } = t;
    match flow {
        Flow::Wait(s, a) => Turn::wait(events, Operation::CreateEncryptedPartition(s), a),
        Flow::Done(Ok(_)) => end_quietly(events),
        Flow::Done(Err(e)) => fail_loudly(events, e),
    }
}

fn raise_delete_partition(t: Turn<Delete, ()>) -> (r: Turn<Operation, ()>)
    ensures
        r@ == raised(t@, |s: DeleteView| OperationView::DeletePartition(s)),
{
    let Turn { events, flow } = t;
    match flow {
        Flow::Wait(s, a) => Turn::wait(events, Operation::DeletePartition(s), a),
        Flow::Done(Ok(_)) => end_quietly(events),
        Flow::Done(Err(e)) => fail_loudly(events, e),
    }
}

fn raise_resize_partition(t: Turn<Resize, ()>) -> (r: Turn<Operation, ()>)
    ensures
        r@ == raised(t@, |s: ResizeView| OperationView::ResizePartition(s)),
{
    let Turn { events, flow } = t;
    match flow {
        Flow::Wait(s, a) => Turn::wait(events, Operation::ResizePartition(s), a),
        Flow::Done(Ok(_)) => end_quietly(events),
        Flow::Done(Err(e)) => fail_loudly(events, e),
    }
}

fn raise_unlock_luks(t: Turn<Unlock, ()>) -> (r: Turn<Operation, ()>)
    ensures
        r@ == raised(t@, |s: UnlockView| OperationView::UnlockLuks(s)),
{
    let Turn { events, flow } = t;
    match flow {
        Flow::Wait(s, a) => Turn::wait(events, Operation::UnlockLuks(s), a),
        Flow::Done(Ok(_)) => end_quietly(events),
        Flow::Done(Err(e)) => fail_loudly(events, e),
    }
}

fn raise_lock_luks(t: Turn<Lock, ()>) -> (r: Turn<Operation, ()>)
    ensures
        r@ == raised(t@, |s: LockView| OperationView::LockLuks(s)),
{
    let Turn { events, flow } = t;
    match flow {
        Flow::Wait(s, a) => Turn::wait(events, Operation::LockLuks(s), a),
        Flow::Done(Ok(_)) => end_quietly(events),
        Flow::Done(Err(e)) => fail_loudly(events, e),
    }
}

fn raise_encrypt_partition(t: Turn<Encrypt, ()>) -> (r: Turn<Operation, ()>)
    ensures
        r@ == raised(t@, |s: EncryptView| OperationView::EncryptPartition(s)),
{
    let Turn { events, flow } = t;
    match flow {
        Flow::Wait(s, a) => Turn::wait(events, Operation::EncryptPartition(s), a),
        Flow::Done(Ok(_)) => end_quietly(events),
        Flow::Done(Err(e)) => fail_loudly(events, e),
    }
}

fn raise_encrypt_and_format(t: Turn<EncryptAndFormat, ()>) -> (r: Turn<Operation, ()>)
    ensures
        r@ == raised(t@, |s: EncryptAndFormatView| OperationView::EncryptAndFormat(s)),
{
    let Turn { events, flow } = t;
    match flow {
        Flow::Wait(s, a) => Turn::wait(events, Operation::EncryptAndFormat(s), a),
        Flow::Done(Ok(_)) => end_quietly(events),
        Flow::Done(Err(e)) => fail_loudly(events, e),
    }
}

fn raise_bare(t: Turn<CreateRaw, String>) -> (r: Turn<Operation, ()>)
    ensures
        r@ == raised_bare(t@),
{
    let Turn { events, flow } = t;
    match flow {
        Flow::Wait(s, a) => Turn::wait(events, Operation::CreateBarePartition(s), a),
        Flow::Done(Ok(name)) => {
            let mut events = events;
            let ghost before = event_views(events@);
            let note = Event::info(join2("Created partition ", name.as_str()));
            events.push(note);
            assert(event_views(events@) =~= before.push(info("Created partition "@ + name@)));
            end_quietly(events)
        },
        Flow::Done(Err(e)) => fail_loudly(events, e),
    }
}

impl Operation {
    /// Begins a job.
    pub fn start(job: &Job) -> (t: Turn<Operation, ()>)
        ensures
            t@ == op_start(job@),
    {
        match job {
            Job::Mount { device } => raise_mount(Mount::start(device.as_str())),
            Job::Unmount { device } => raise_unmount(Unmount::start(device.as_str())),
            Job::Format { device, fs } => raise_format(Format::start(device.as_str(), *fs)),
            Job::FormatWholeDisk { disk, fs } => raise_format_whole_disk(
                WholeDisk::start(disk.as_str(), *fs),
            ),
            Job::CreatePartitionTable { disk, table_type } => raise_create_partition_table(
                CreateTable::start(disk.as_str(), table_type.as_str()),
            ),
            Job::CreatePartition { disk, size, fs } => match fs {
                Some(f) => raise_create_partition(
                    CreateWithFs::start(disk.as_str(), size.as_str(), *f),
                ),
                None => raise_bare(CreateRaw::start(disk.as_str(), size.as_str())),
            },
            Job::CreateEncryptedPartition {
                disk,
                size,
                passphrase,
                fs,
            } => raise_create_encrypted_partition(
                CreateEncrypted::start(disk.as_str(), size.as_str(), passphrase.as_str(), *fs),
            ),
            Job::DeletePartition { partition } => raise_delete_partition(
                Delete::start(partition.as_str()),
            ),
            Job::ResizePartition { partition, new_size } => raise_resize_partition(
                Resize::start(partition.as_str(), new_size.as_str()),
            ),
            Job::UnlockLuks { device, passphrase, mapper_name } => raise_unlock_luks(
                Unlock::start(device.as_str(), passphrase.as_str(), mapper_name.as_str()),
            ),
            Job::LockLuks { mapper_name } => raise_lock_luks(Lock::start(mapper_name.as_str())),
            Job::EncryptPartition { partition, passphrase } => raise_encrypt_partition(
                Encrypt::start(partition.as_str(), passphrase.as_str()),
            ),
            Job::EncryptAndFormat { partition, passphrase, fs } => raise_encrypt_and_format(
                EncryptAndFormat::start(partition.as_str(), passphrase.as_str(), *fs),
            ),
        }
    }

    /// Continues a job with the outcome of the action that was waited for.
    pub fn resume(self, outcome: Outcome) -> (t: Turn<Operation, ()>)
        ensures
            t@ == op_resume(self@, outcome@),
    {
        match self {
            Operation::Mount(s) => raise_mount(s.resume(outcome)),
            Operation::Unmount(s) => raise_unmount(s.resume(outcome)),
            Operation::Format(s) => raise_format(s.resume(outcome)),
            Operation::FormatWholeDisk(s) => raise_format_whole_disk(s.resume(outcome)),
            Operation::CreatePartitionTable(s) => raise_create_partition_table(s.resume(outcome)),
            Operation::CreatePartition(s) => raise_create_partition(s.resume(outcome)),
            Operation::CreateEncryptedPartition(s) => raise_create_encrypted_partition(s.resume(outcome)),
            Operation::DeletePartition(s) => raise_delete_partition(s.resume(outcome)),
            Operation::ResizePartition(s) => raise_resize_partition(s.resume(outcome)),
            Operation::UnlockLuks(s) => raise_unlock_luks(s.resume(outcome)),
            Operation::LockLuks(s) => raise_lock_luks(s.resume(outcome)),
            Operation::EncryptPartition(s) => raise_encrypt_partition(s.resume(outcome)),
            Operation::EncryptAndFormat(s) => raise_encrypt_and_format(s.resume(outcome)),
            Operation::CreateBarePartition(s) => raise_bare(s.resume(outcome)),
        }
    }
}

} // verus!
