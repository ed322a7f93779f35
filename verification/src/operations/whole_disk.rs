//! Giving a whole disk one partition with one filesystem.
//!
//! Every mapping that unlocks a partition of the disk is unmounted and
//! locked first. Then the disk gets a new table with a single partition
//! over all of it, and that partition is formatted.

use vstd::prelude::*;
use crate::device::{mapper_node, mapper_path, name_fault, raw_node, raw_path, validate_device_name};
use crate::engine::{
    abort, after, args1, args4, args6, finish, lift, lift_closing, run, stray, succeeded, tool,
    wait, Action, ActionView, Flow, FlowView, Outcome, OutcomeView, ToolResult, ToolResultView,
    Turn, TurnView,
};
use crate::error::{join2, join3, join4, ErrorKind};
use crate::event::{ended, ev0, ev1, ev2, info, started, Event};
use crate::operations::check::{ask_mounted, mount_query};
use crate::operations::create::inventory_fault;
use crate::operations::format::{format_resume, format_start, Format, FormatView};
use crate::operations::inventory::{find_device, find_disk};
use crate::operations::lock::{lock_resume, lock_start, Lock, LockView};
use crate::operations::resize::{REPROBE_PAUSE_MS, TABLE_PAUSE_MS};
use crate::operations::scan::{scan_resume, scan_start, ScanView, StatusScan};
use crate::operations::unmount::{unmount_resume, unmount_start, Unmount, UnmountView};
use crate::operations::{
    fs_name, maker_tool, partition_views, FilesystemType, LuksStatus, LuksStatusView,
};
use crate::partition::{Partition, PartitionView};
use crate::text::{copy, texts};

verus! {

/// The names of the partitions, in their order.
pub open spec fn names_of(parts: Seq<PartitionView>) -> Seq<Seq<char>> {
    Seq::new(parts.len(), |i: int| parts[i].name)
}

/// Collects the names of the partitions.
pub fn partition_names(parts: &Vec<Partition>) -> (v: Vec<String>)
    ensures
        texts(v@) == names_of(partition_views(parts@)),
{
    let mut v: Vec<String> = Vec::new();
    let mut i: usize = 0;
    while i < parts.len()
        invariant
            i <= parts.len(),
            v.len() == i,
            forall|j: int| 0 <= j < i ==> v@[j]@ == parts@[j].name@,
        decreases parts.len() - i,
    {
        v.push(copy(parts[i].name.as_str()));
        i = i + 1;
    }
    assert(texts(v@) =~= names_of(partition_views(parts@)));
    v
}

/// What the operation works on: the disk, the filesystem to make, and the
/// names of the disk's partitions.
#[derive(Debug, Clone, PartialEq, Eq)]
pub struct DiskJob {
    pub disk: String,
    pub fs: FilesystemType,
    pub names: Vec<String>,
}

/// The mathematical content of a [`DiskJob`].
pub struct DiskJobView {
    pub disk: Seq<char>,
    pub fs: FilesystemType,
    pub names: Seq<Seq<char>>,
}

impl View for DiskJob {
    type V = DiskJobView;

    open spec fn view(&self) -> DiskJobView {
        DiskJobView { disk: self.disk@, fs: self.fs, names: texts(self.names@) }
    }
}

/// The formatting of a whole disk, by the step it waits for. `next` is the
/// index of the partition whose mapping is being released.
#[derive(Debug, Clone, PartialEq, Eq)]
pub enum WholeDisk {
    /// The inventory is read, for the disk's partitions.
    Reading { disk: String, fs: FilesystemType },
    /// Is partition `next` unlocked?
    Scanning { job: DiskJob, next: usize, scan: StatusScan },
    /// Is its mapping mounted?
    CheckingMapper { job: DiskJob, next: usize, mapper: String },
    /// The mapping is being unmounted.
    UnmountingMapper { job: DiskJob, next: usize, mapper: String, part: Unmount },
    /// The mapping is being locked.
    Locking { job: DiskJob, next: usize, part: Lock },
    /// Is the maker tool installed?
    FindingTool { disk: String, fs: FilesystemType },
    /// The new table is being written.
    Labelling { disk: String, fs: FilesystemType },
    /// A rest after the table was written.
    Pausing { disk: String, fs: FilesystemType },
    /// The single partition is being added.
    Partitioning { disk: String, fs: FilesystemType },
    /// The kernel reads the table again.
    Reprobing { disk: String, fs: FilesystemType },
    /// A rest after that.
    Settling { disk: String, fs: FilesystemType },
    /// The inventory is read again, for the new partition's name.
    Rereading { disk: String, fs: FilesystemType },
    /// The new partition is being formatted.
    Formatting { disk: String, fs: FilesystemType, part: Format },
}

/// The mathematical content of a [`WholeDisk`].
pub enum WholeDiskView {
    Reading { disk: Seq<char>, fs: FilesystemType },
    Scanning { job: DiskJobView, next: nat, scan: ScanView },
    CheckingMapper { job: DiskJobView, next: nat, mapper: Seq<char> },
    UnmountingMapper { job: DiskJobView, next: nat, mapper: Seq<char>, part: UnmountView },
    Locking { job: DiskJobView, next: nat, part: LockView },
    FindingTool { disk: Seq<char>, fs: FilesystemType },
    Labelling { disk: Seq<char>, fs: FilesystemType },
    Pausing { disk: Seq<char>, fs: FilesystemType },
    Partitioning { disk: Seq<char>, fs: FilesystemType },
    Reprobing { disk: Seq<char>, fs: FilesystemType },
    Settling { disk: Seq<char>, fs: FilesystemType },
    Rereading { disk: Seq<char>, fs: FilesystemType },
    Formatting { disk: Seq<char>, fs: FilesystemType, part: FormatView },
}

impl View for WholeDisk {
    type V = WholeDiskView;

    open spec fn view(&self) -> WholeDiskView {
        match self {
            WholeDisk::Reading { disk, fs } => WholeDiskView::Reading { disk: disk@, fs: *fs },
            WholeDisk::Scanning { job, next, scan } => WholeDiskView::Scanning {
                job: job@,
                next: *next as nat,
                scan: scan@,
            },
            WholeDisk::CheckingMapper { job, next, mapper } => WholeDiskView::CheckingMapper {
                job: job@,
                next: *next as nat,
                mapper: mapper@,
            },
            WholeDisk::UnmountingMapper { job, next, mapper, part } => WholeDiskView::UnmountingMapper {
                job: job@,
                next: *next as nat,
                mapper: mapper@,
                part: part@,
            },
            WholeDisk::Locking { job, next, part } => WholeDiskView::Locking {
                job: job@,
                next: *next as nat,
                part: part@,
            },
            WholeDisk::FindingTool { disk, fs } => WholeDiskView::FindingTool {
                disk: disk@,
                fs: *fs,
            },
            WholeDisk::Labelling { disk, fs } => WholeDiskView::Labelling { disk: disk@, fs: *fs },
            WholeDisk::Pausing { disk, fs } => WholeDiskView::Pausing { disk: disk@, fs: *fs },
            WholeDisk::Partitioning { disk, fs } => WholeDiskView::Partitioning {
                disk: disk@,
                fs: *fs,
            },
            WholeDisk::Reprobing { disk, fs } => WholeDiskView::Reprobing { disk: disk@, fs: *fs },
            WholeDisk::Settling { disk, fs } => WholeDiskView::Settling { disk: disk@, fs: *fs },
            WholeDisk::Rereading { disk, fs } => WholeDiskView::Rereading { disk: disk@, fs: *fs },
            WholeDisk::Formatting { disk, fs, part } => WholeDiskView::Formatting {
                disk: disk@,
                fs: *fs,
                part: part@,
            },
        }
    }
}

/// The first turn. A name that is not valid ends the operation before
/// anything is asked of the host.
pub open spec fn whole_start(disk: Seq<char>, fs: FilesystemType) -> TurnView<WholeDiskView, ()> {
    match name_fault(disk) {
        Some(m) => abort(Seq::empty(), ErrorKind::Validation, m),
        None => wait(Seq::empty(), WholeDiskView::Reading { disk, fs }, ActionView::ReadInventory),
    }
}

/// The turn that releases the mappings of the partitions from `k` on, and
/// goes on to look for the maker tool when none is left.
pub open spec fn whole_release(job: DiskJobView, k: nat) -> TurnView<WholeDiskView, ()> {
    if k >= job.names.len() {
        wait(
            Seq::empty(),
            WholeDiskView::FindingTool { disk: job.disk, fs: job.fs },
            tool("which"@, seq![maker_tool(job.fs)]),
        )
    } else {
        match scan_start(job.names[k as int]).flow {
            FlowView::Wait(s, a) => wait(
                Seq::empty(),
                WholeDiskView::Scanning { job, next: k, scan: s },
                a,
            ),
            FlowView::Done(_) => stray(),
        }
    }
}

/// The turn that a turn of the locking of a mapping amounts to.
pub open spec fn whole_lock(job: DiskJobView, k: nat, t: TurnView<LockView, ()>) -> TurnView<
    WholeDiskView,
    (),
> {
    lift(
        t,
        |p: LockView| WholeDiskView::Locking { job, next: k, part: p },
        |u: ()| whole_release(job, k + 1),
    )
}

/// The turn that closes a mapping.
pub open spec fn whole_close(job: DiskJobView, k: nat, mapper: Seq<char>) -> TurnView<
    WholeDiskView,
    (),
> {
    after(
        seq![info("Closing encrypted device "@ + mapper + "..."@)],
        whole_lock(job, k, lock_start(mapper)),
    )
}

/// The turn that a turn of the unmounting of a mapping amounts to.
pub open spec fn whole_unmount(
    job: DiskJobView,
    k: nat,
    mapper: Seq<char>,
    t: TurnView<UnmountView, ()>,
) -> TurnView<WholeDiskView, ()> {
    lift(
        t,
        |p: UnmountView| WholeDiskView::UnmountingMapper { job, next: k, mapper, part: p },
        |u: ()| whole_close(job, k, mapper),
    )
}

/// The turn that a turn of the status scan of partition `k` amounts to.
pub open spec fn whole_scan(job: DiskJobView, k: nat, t: TurnView<ScanView, LuksStatusView>)
    -> TurnView<WholeDiskView, ()> {
    lift(
        t,
        |s: ScanView| WholeDiskView::Scanning { job, next: k, scan: s },
        |st: LuksStatusView|
            if st.is_active && st.mapper_name is Some {
                wait(
                    Seq::empty(),
                    WholeDiskView::CheckingMapper { job, next: k, mapper: st.mapper_name->0 },
                    mount_query(mapper_path(st.mapper_name->0)),
                )
            } else {
                whole_release(job, k + 1)
            },
    )
}

/// The turn that a turn of the formatting amounts to.
pub open spec fn whole_format(disk: Seq<char>, fs: FilesystemType, t: TurnView<FormatView, ()>)
    -> TurnView<WholeDiskView, ()> {
    lift_closing(
        t,
        |p: FormatView| WholeDiskView::Formatting { disk, fs, part: p },
        |u: ()|
            finish(
                seq![
                    ended(),
                    info("Formatted "@ + disk + " as whole disk with "@ + fs_name(fs)),
                ],
                (),
            ),
    )
}

/// The turn on an outcome.
pub open spec fn whole_resume(s: WholeDiskView, o: OutcomeView) -> TurnView<WholeDiskView, ()> {
    match s {
        WholeDiskView::Reading { disk, fs } => match o {
            OutcomeView::Inventory(Some(devices)) => match find_disk(devices, disk) {
                Some(dev) => whole_release(
                    DiskJobView { disk, fs, names: names_of(dev.partitions) },
                    0,
                ),
                None => whole_release(DiskJobView { disk, fs, names: Seq::empty() }, 0),
            },
            OutcomeView::Inventory(None) => abort(
                Seq::empty(),
                ErrorKind::ToolExecution,
                inventory_fault(),
            ),
            _ => stray(),
        },
        WholeDiskView::Scanning { job, next, scan } => whole_scan(job, next, scan_resume(scan, o)),
        WholeDiskView::CheckingMapper { job, next, mapper } => match o {
            OutcomeView::Tool(_) => if succeeded(o) {
                whole_unmount(job, next, mapper, unmount_start(mapper))
            } else {
                whole_close(job, next, mapper)
            },
            _ => stray(),
        },
        WholeDiskView::UnmountingMapper { job, next, mapper, part } => whole_unmount(
            job,
            next,
            mapper,
            unmount_resume(part, o),
        ),
        WholeDiskView::Locking { job, next, part } => whole_lock(job, next, lock_resume(part, o)),
        WholeDiskView::FindingTool { disk, fs } => match o {
            OutcomeView::Tool(_) => if succeeded(o) {
                wait(
                    seq![started("Formatting "@ + disk + " as whole disk..."@)],
                    WholeDiskView::Labelling { disk, fs },
                    tool("parted"@, seq!["-s"@, raw_path(disk), "mklabel"@, "gpt"@]),
                )
            } else {
                abort(
                    Seq::empty(),
                    ErrorKind::ToolMissing,
                    "Formatting tool '"@ + maker_tool(fs)
                        + "' not found. Install the required package."@,
                )
            },
            _ => stray(),
        },
        WholeDiskView::Labelling { disk, fs } => match o {
            OutcomeView::Tool(ToolResultView::Exited { success, stderr, .. }) => if success {
                wait(
                    Seq::empty(),
                    WholeDiskView::Pausing { disk, fs },
                    ActionView::Pause(TABLE_PAUSE_MS),
                )
            } else {
                abort(
                    seq![ended()],
                    ErrorKind::ToolExecution,
                    "Failed to create partition table: "@ + stderr,
                )
            },
            OutcomeView::Tool(_) => abort(
                seq![ended()],
                ErrorKind::ToolExecution,
                "Failed to create partition table"@,
            ),
            _ => stray(),
        },
        WholeDiskView::Pausing { disk, fs } => match o {
            OutcomeView::Resumed => wait(
                Seq::empty(),
                WholeDiskView::Partitioning { disk, fs },
                tool(
                    "parted"@,
                    seq!["-s"@, raw_path(disk), "mkpart"@, "primary"@, "0%"@, "100%"@],
                ),
            ),
            _ => stray(),
        },
        WholeDiskView::Partitioning { disk, fs } => match o {
            OutcomeView::Tool(ToolResultView::Exited { success, stderr, .. }) => if success {
                wait(
                    Seq::empty(),
                    WholeDiskView::Reprobing { disk, fs },
                    tool("partprobe"@, seq![raw_path(disk)]),
                )
            } else {
                abort(
                    seq![ended()],
                    ErrorKind::ToolExecution,
                    "Failed to create partition: "@ + stderr,
                )
            },
            OutcomeView::Tool(_) => abort(
                seq![ended()],
                ErrorKind::ToolExecution,
                "Failed to create partition"@,
            ),
            _ => stray(),
        },
        WholeDiskView::Reprobing { disk, fs } => match o {
            OutcomeView::Tool(_) => wait(
                Seq::empty(),
                WholeDiskView::Settling { disk, fs },
                ActionView::Pause(REPROBE_PAUSE_MS),
            ),
            _ => stray(),
        },
        WholeDiskView::Settling { disk, fs } => match o {
            OutcomeView::Resumed => wait(
                Seq::empty(),
                WholeDiskView::Rereading { disk, fs },
                ActionView::ReadInventory,
            ),
            _ => stray(),
        },
        WholeDiskView::Rereading { disk, fs } => match o {
            OutcomeView::Inventory(Some(devices)) => {
                let dev = find_disk(devices, disk);
                if dev is Some && dev->0.partitions.len() > 0 {
                    whole_format(disk, fs, format_start(dev->0.partitions[0].name, fs))
                } else {
                    abort(seq![ended()], ErrorKind::NotFound, "Failed to find new partition"@)
                }
            },
            OutcomeView::Inventory(None) => abort(
                seq![ended()],
                ErrorKind::ToolExecution,
                inventory_fault(),
            ),
            _ => stray(),
        },
        WholeDiskView::Formatting { disk, fs, part } => whole_format(
            disk,
            fs,
            format_resume(part, o),
        ),
    }
}

fn release(job: DiskJob, k: usize) -> (t: Turn<WholeDisk, ()>)
    ensures
        t@ == whole_release(job@, k as nat),
{
    if k >= job.names.len() {
        let action = run("which", args1(job.fs.tool()));
        Turn::wait(ev0(), WholeDisk::FindingTool { disk: job.disk, fs: job.fs }, action)
    } else {
        let t = StatusScan::start(job.names[k].as_str());
        match t.flow {
            Flow::Wait(s, a) => Turn::wait(ev0(), WholeDisk::Scanning { job, next: k, scan: s }, a),
            Flow::Done(_) => Turn::stray(),
        }
    }
}

fn next_index(job: &DiskJob, k: usize) -> (n: usize)
    ensures
        n == k + 1 || (k >= job.names.len() && n == k),
        whole_release(job@, n as nat) == whole_release(job@, (k + 1) as nat),
{
    if k < job.names.len() {
        k + 1
    } else {
        k
    }
}

fn lift_lock(job: DiskJob, k: usize, t: Turn<Lock, ()>) -> (r: Turn<WholeDisk, ()>)
    ensures
        r@ == whole_lock(job@, k as nat, t@),
{
    let Turn { events, flow } = t;
    match flow {
        Flow::Wait(p, a) => Turn::wait(events, WholeDisk::Locking { job, next: k, part: p }, a),
        Flow::Done(Err(e)) => Turn::abort_with(events, e),
        Flow::Done(Ok(_)) => {
            let n = next_index(&job, k);
            release(job, n).after(events)
        },
    }
}

fn close(job: DiskJob, k: usize, mapper: String) -> (t: Turn<WholeDisk, ()>)
    ensures
        t@ == whole_close(job@, k as nat, mapper@),
{
    let note = ev1(Event::info(join3("Closing encrypted device ", mapper.as_str(), "...")));
    let t = Lock::start(mapper.as_str());
    lift_lock(job, k, t).after(note)
}

fn lift_unmount(job: DiskJob, k: usize, mapper: String, t: Turn<Unmount, ()>) -> (r: Turn<
    WholeDisk,
    (),
>)
    ensures
        r@ == whole_unmount(job@, k as nat, mapper@, t@),
{
    let Turn { events, flow } = t;
    match flow {
        Flow::Wait(p, a) => Turn::wait(
            events,
            WholeDisk::UnmountingMapper { job, next: k, mapper, part: p },
            a,
        ),
        Flow::Done(Err(e)) => Turn::abort_with(events, e),
        Flow::Done(Ok(_)) => close(job, k, mapper).after(events),
    }
}

fn lift_scan(job: DiskJob, k: usize, t: Turn<StatusScan, LuksStatus>) -> (r: Turn<WholeDisk, ()>)
    ensures
        r@ == whole_scan(job@, k as nat, t@),
{
    let Turn { events, flow } = t;
    match flow {
        Flow::Wait(s, a) => Turn::wait(events, WholeDisk::Scanning { job, next: k, scan: s }, a),
        Flow::Done(Err(e)) => Turn::abort_with(events, e),
        Flow::Done(Ok(st)) => {
            if st.is_active {
                match st.mapper_name {
                    Some(mapper) => {
                        let action = ask_mounted(mapper_node(mapper.as_str()).as_str());
                        return Turn::wait(
                            ev0(),
                            WholeDisk::CheckingMapper { job, next: k, mapper },
                            action,
                        ).after(events);
                    },
                    None => {},
                }
            }
            let n = next_index(&job, k);
            release(job, n).after(events)
        },
    }
}

fn lift_format(disk: String, fs: FilesystemType, t: Turn<Format, ()>) -> (r: Turn<WholeDisk, ()>)
    ensures
        r@ == whole_format(disk@, fs, t@),
{
    let Turn { events, flow } = t;
    match flow {
        Flow::Wait(p, a) => Turn::wait(events, WholeDisk::Formatting { disk, fs, part: p }, a),
        Flow::Done(Err(e)) => Turn::abort_closing(events, e),
        Flow::Done(Ok(_)) => Turn::finish(
            ev2(
                Event::ended(),
                Event::info(
                    join4("Formatted ", disk.as_str(), " as whole disk with ", fs.as_str()),
                ),
            ),
            (),
        ).after(events),
    }
}

impl WholeDisk {
    /// Begins to format the whole disk of the given name.
    pub fn start(disk: &str, fs: FilesystemType) -> (t: Turn<WholeDisk, ()>)
        ensures
            t@ == whole_start(disk@, fs),
    {
        match validate_device_name(disk) {
            Err(e) => Turn::abort(ev0(), ErrorKind::Validation, e.message),
            Ok(()) => Turn::wait(
                ev0(),
                WholeDisk::Reading { disk: copy(disk), fs },
                Action::ReadInventory,
            ),
        }
    }

    /// Continues with the outcome of the action that was waited for.
    pub fn resume(self, outcome: Outcome) -> (t: Turn<WholeDisk, ()>)
        ensures
            t@ == whole_resume(self@, outcome@),
    {
        match self {
            WholeDisk::Reading { disk, fs } => match outcome {
                Outcome::Inventory(Some(devices)) => {
                    let names = match find_device(&devices, disk.as_str()) {
                        Some(i) => partition_names(&devices[i].partitions),
                        None => {
                            let v: Vec<String> = Vec::new();
                            assert(texts(v@) =~= Seq::<Seq<char>>::empty());
                            v
                        },
                    };
                    release(DiskJob { disk, fs, names }, 0)
                },
                Outcome::Inventory(None) => Turn::abort(
                    ev0(),
                    ErrorKind::ToolExecution,
                    copy("Failed to read the device inventory"),
                ),
                _ => Turn::stray(),
            },
            WholeDisk::Scanning { job, next, scan } => lift_scan(job, next, scan.resume(outcome)),
            WholeDisk::CheckingMapper { job, next, mapper } => match outcome {
                Outcome::Tool(_) => {
                    if outcome.succeeded() {
                        let t = Unmount::start(mapper.as_str());
                        lift_unmount(job, next, mapper, t)
                    } else {
                        close(job, next, mapper)
                    }
                },
                _ => Turn::stray(),
            },
            WholeDisk::UnmountingMapper { job, next, mapper, part } => lift_unmount(
                job,
                next,
                mapper,
                part.resume(outcome),
            ),
            WholeDisk::Locking { job, next, part } => lift_lock(job, next, part.resume(outcome)),
            WholeDisk::FindingTool { disk, fs } => match outcome {
                Outcome::Tool(_) => {
                    if outcome.succeeded() {
                        let note = ev1(
                            Event::started(join3("Formatting ", disk.as_str(), " as whole disk...")),
                        );
                        let action = run(
                            "parted",
                            args4("-s", raw_node(disk.as_str()).as_str(), "mklabel", "gpt"),
                        );
                        Turn::wait(note, WholeDisk::Labelling { disk, fs }, action)
                    } else {
                        Turn::abort(
                            ev0(),
                            ErrorKind::ToolMissing,
                            join3(
                                "Formatting tool '",
                                fs.tool(),
                                "' not found. Install the required package.",
                            ),
                        )
                    }
                },
                _ => Turn::stray(),
            },
            WholeDisk::Labelling { disk, fs } => match outcome {
                Outcome::Tool(ToolResult::Exited { success, stderr, .. }) => {
                    if success {
                        Turn::wait(
                            ev0(),
                            WholeDisk::Pausing { disk, fs },
                            Action::Pause(TABLE_PAUSE_MS),
                        )
                    } else {
                        Turn::abort(
                            ev1(Event::ended()),
                            ErrorKind::ToolExecution,
                            join2("Failed to create partition table: ", stderr.as_str()),
                        )
                    }
                },
                Outcome::Tool(_) => Turn::abort(
                    ev1(Event::ended()),
                    ErrorKind::ToolExecution,
                    copy("Failed to create partition table"),
                ),
                _ => Turn::stray(),
            },
            WholeDisk::Pausing { disk, fs } => match outcome {
                Outcome::Resumed => {
                    let action = run(
                        "parted",
                        args6(
                            "-s",
                            raw_node(disk.as_str()).as_str(),
                            "mkpart",
                            "primary",
                            "0%",
                            "100%",
                        ),
                    );
                    Turn::wait(ev0(), WholeDisk::Partitioning { disk, fs }, action)
                },
                _ => Turn::stray(),
            },
            WholeDisk::Partitioning { disk, fs } => match outcome {
                Outcome::Tool(ToolResult::Exited { success, stderr, .. }) => {
                    if success {
                        let action = run("partprobe", args1(raw_node(disk.as_str()).as_str()));
                        Turn::wait(ev0(), WholeDisk::Reprobing { disk, fs }, action)
                    } else {
                        Turn::abort(
                            ev1(Event::ended()),
                            ErrorKind::ToolExecution,
                            join2("Failed to create partition: ", stderr.as_str()),
                        )
                    }
                },
                Outcome::Tool(_) => Turn::abort(
                    ev1(Event::ended()),
                    ErrorKind::ToolExecution,
                    copy("Failed to create partition"),
                ),
                _ => Turn::stray(),
            },
            WholeDisk::Reprobing { disk, fs } => match outcome {
                Outcome::Tool(_) => Turn::wait(
                    ev0(),
                    WholeDisk::Settling { disk, fs },
                    Action::Pause(REPROBE_PAUSE_MS),
                ),
                _ => Turn::stray(),
            },
            WholeDisk::Settling { disk, fs } => match outcome {
                Outcome::Resumed => Turn::wait(
                    ev0(),
                    WholeDisk::Rereading { disk, fs },
                    Action::ReadInventory,
                ),
                _ => Turn::stray(),
            },
            WholeDisk::Rereading { disk, fs } => match outcome {
                Outcome::Inventory(Some(devices)) => {
                    match find_device(&devices, disk.as_str()) {
                        Some(i) => {
                            let dev = &devices[i];
                            if dev.partitions.len() > 0 {
                                assert(dev@.partitions[0] == dev.partitions@[0]@);
                                let t = Format::start(dev.partitions[0].name.as_str(), fs);
                                return lift_format(disk, fs, t);
                            }
                        },
                        None => {},
                    }
                    Turn::abort(
                        ev1(Event::ended()),
                        ErrorKind::NotFound,
                        copy("Failed to find new partition"),
                    )
                },
                Outcome::Inventory(None) => Turn::abort(
                    ev1(Event::ended()),
                    ErrorKind::ToolExecution,
                    copy("Failed to read the device inventory"),
                ),
                _ => Turn::stray(),
            },
            WholeDisk::Formatting { disk, fs, part } => lift_format(disk, fs, part.resume(outcome)),
        }
    }
}

} // verus!
