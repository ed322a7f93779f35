//! Resizing a partition together with the filesystem inside it.
//!
//! A filesystem must never reach beyond its partition. So to shrink, the
//! filesystem is shrunk first and the partition after it; to grow, the
//! partition grows first and the filesystem after it.

use vstd::prelude::*;
use crate::device::{
    disk_part, index_part, name_fault, partition_split, raw_node, raw_path, split_partition_name,
    validate_device_name,
};
use crate::engine::{
    abort, after, args1, args2, args3, finish, lift, lift_closing, run, run_fed, stray, succeeded,
    tool, tool_fed, wait, Action, ActionView, Flow, Outcome, OutcomeView, ToolResult,
    ToolResultView, Turn, TurnView,
};
use crate::error::{join2, join3, join4, ErrorKind};
use crate::event::{ended, ev0, ev1, ev2, info, started, Event};
use crate::number::{number_of, parse_u64};
use crate::operations::check::{
    ask_luks, check_resume, check_start, luks_query, CheckView, MountCheck, Mounted, MountedView,
};
use crate::operations::create::inventory_fault;
use crate::operations::fsresize::{fs_resume, fs_start, FsResize, FsResizeView};
use crate::operations::inventory::{find_device, find_disk, find_part, find_partition};

use crate::size::{parse_size, size_fault, size_of_text};
use crate::table::{rewrite_table, rewritten_table, RewriteError};
use crate::text::{chars_of, copy, copy_opt, opt_text};
use crate::utils::{bytes_text, format_bytes};

verus! {

/// The milliseconds waited after the table was written, before the kernel
/// is asked to read it again.
pub const TABLE_PAUSE_MS: u64 = 1000;

/// The milliseconds waited after the kernel was asked to read the table.
pub const REPROBE_PAUSE_MS: u64 = 2000;

/// What a resize is about: the partition, its disk and index, and the size
/// asked for.
#[derive(Debug, Clone, PartialEq, Eq)]
pub struct ResizePlan {
    pub partition: String,
    pub disk: String,
    pub index: u64,
    pub new_size: u64,
}

/// The mathematical content of a [`ResizePlan`].
pub struct ResizePlanView {
    pub partition: Seq<char>,
    pub disk: Seq<char>,
    pub index: u64,
    pub new_size: u64,
}

impl View for ResizePlan {
    type V = ResizePlanView;

    open spec fn view(&self) -> ResizePlanView {
        ResizePlanView {
            partition: self.partition@,
            disk: self.disk@,
            index: self.index,
            new_size: self.new_size,
        }
    }
}

/// The resize, by the step it waits for.
#[derive(Debug, Clone, PartialEq, Eq)]
pub enum Resize {
    /// Is the partition an encrypted container?
    Probing { plan: ResizePlan },
    /// Is it mounted?
    Checking { plan: ResizePlan, check: MountCheck },
    /// The inventory is read, for the partition's size and filesystem.
    Reading { plan: ResizePlan },
    /// The filesystem is being shrunk, before the partition.
    Shrinking { plan: ResizePlan, filesystem: Option<String>, part: FsResize },
    /// The partition table is being dumped.
    Dumping { plan: ResizePlan, filesystem: Option<String>, growing: bool },
    /// The rewritten table is being written.
    Writing { plan: ResizePlan, filesystem: Option<String>, growing: bool },
    /// A rest after the table was written.
    Pausing { plan: ResizePlan, filesystem: Option<String>, growing: bool },
    /// The kernel reads the table again.
    Reprobing { plan: ResizePlan, filesystem: Option<String>, growing: bool },
    /// A rest after that.
    Settling { plan: ResizePlan, filesystem: Option<String>, growing: bool },
    /// The filesystem is being grown, after the partition.
    Growing { plan: ResizePlan, part: FsResize },
}

/// The mathematical content of a [`Resize`].
pub enum ResizeView {
    Probing { plan: ResizePlanView },
    Checking { plan: ResizePlanView, check: CheckView },
    Reading { plan: ResizePlanView },
    Shrinking { plan: ResizePlanView, filesystem: Option<Seq<char>>, part: FsResizeView },
    Dumping { plan: ResizePlanView, filesystem: Option<Seq<char>>, growing: bool },
    Writing { plan: ResizePlanView, filesystem: Option<Seq<char>>, growing: bool },
    Pausing { plan: ResizePlanView, filesystem: Option<Seq<char>>, growing: bool },
    Reprobing { plan: ResizePlanView, filesystem: Option<Seq<char>>, growing: bool },
    Settling { plan: ResizePlanView, filesystem: Option<Seq<char>>, growing: bool },
    Growing { plan: ResizePlanView, part: FsResizeView },
}

impl View for Resize {
    type V = ResizeView;

    open spec fn view(&self) -> ResizeView {
        match self {
            Resize::Probing { plan } => ResizeView::Probing { plan: plan@ },
            Resize::Checking { plan, check } => ResizeView::Checking {
                plan: plan@,
                check: check@,
            },
            Resize::Reading { plan } => ResizeView::Reading { plan: plan@ },
            Resize::Shrinking { plan, filesystem, part } => ResizeView::Shrinking {
                plan: plan@,
                filesystem: opt_text(*filesystem),
                part: part@,
            },
            Resize::Dumping { plan, filesystem, growing } => ResizeView::Dumping {
                plan: plan@,
                filesystem: opt_text(*filesystem),
                growing: *growing,
            },
            Resize::Writing { plan, filesystem, growing } => ResizeView::Writing {
                plan: plan@,
                filesystem: opt_text(*filesystem),
                growing: *growing,
            },
            Resize::Pausing { plan, filesystem, growing } => ResizeView::Pausing {
                plan: plan@,
                filesystem: opt_text(*filesystem),
                growing: *growing,
            },
            Resize::Reprobing { plan, filesystem, growing } => ResizeView::Reprobing {
                plan: plan@,
                filesystem: opt_text(*filesystem),
                growing: *growing,
            },
            Resize::Settling { plan, filesystem, growing } => ResizeView::Settling {
                plan: plan@,
                filesystem: opt_text(*filesystem),
                growing: *growing,
            },
            Resize::Growing { plan, part } => ResizeView::Growing { plan: plan@, part: part@ },
        }
    }
}

/// What is said of a name that does not divide into disk and index.
pub open spec fn bad_partition_name(partition: Seq<char>) -> Seq<char> {
    "Invalid partition name format: "@ + partition
}

/// The plan of a resize, or what is wrong with the request. The name must
/// be valid and divide into a disk and an index that fits 64 bits, and the
/// size must be readable.
pub open spec fn resize_plan(partition: Seq<char>, size_input: Seq<char>) -> Result<
    ResizePlanView,
    Seq<char>,
> {
    if name_fault(partition) is Some {
        Err(name_fault(partition)->0)
    } else if partition_split(partition) is None || number_of(index_part(partition)) > u64::MAX {
        Err(bad_partition_name(partition))
    } else if size_of_text(size_input) is None {
        Err(size_fault())
    } else {
        Ok(
            ResizePlanView {
                partition,
                disk: disk_part(partition),
                index: number_of(index_part(partition)) as u64,
                new_size: size_of_text(size_input)->0,
            },
        )
    }
}

/// The first turn. A request that is not well formed ends the operation
/// before anything is asked of the host.
pub open spec fn resize_start(partition: Seq<char>, size_input: Seq<char>) -> TurnView<
    ResizeView,
    (),
> {
    match resize_plan(partition, size_input) {
        Err(m) => abort(Seq::empty(), ErrorKind::Validation, m),
        Ok(plan) => wait(Seq::empty(), ResizeView::Probing { plan }, luks_query(partition)),
    }
}

/// The invocation that dumps the disk's partition table.
pub open spec fn table_dump(disk: Seq<char>) -> ActionView {
    tool("sfdisk"@, seq!["-d"@, raw_path(disk)])
}

/// The invocation that writes a partition table to the disk, forced and
/// without asking the kernel to read it again.
pub open spec fn table_write(disk: Seq<char>, table: Seq<char>) -> ActionView {
    tool_fed("sfdisk"@, seq!["--force"@, "--no-reread"@, raw_path(disk)], table)
}

/// The turn that begins to resize the partition itself.
pub open spec fn resize_table(plan: ResizePlanView, filesystem: Option<Seq<char>>, growing: bool)
    -> TurnView<ResizeView, ()> {
    wait(
        seq![info("Resizing partition..."@)],
        ResizeView::Dumping { plan, filesystem, growing },
        table_dump(plan.disk),
    )
}

/// The turn that ends a resize that worked.
pub open spec fn resize_done(plan: ResizePlanView) -> TurnView<ResizeView, ()> {
    finish(
        seq![
            ended(),
            info(
                "Successfully resized "@ + plan.partition + " to "@ + bytes_text(
                    plan.new_size as nat,
                ),
            ),
        ],
        (),
    )
}

/// The turn that a turn of the mount check amounts to.
pub open spec fn resize_check(plan: ResizePlanView, t: TurnView<CheckView, MountedView>)
    -> TurnView<ResizeView, ()> {
    lift(
        t,
        |c: CheckView| ResizeView::Checking { plan, check: c },
        |m: MountedView|
            if m.mounted {
                abort(
                    Seq::empty(),
                    ErrorKind::Precondition,
                    plan.partition + " is mounted. Unmount it first (press 'm')"@,
                )
            } else {
                wait(
                    seq![started("Resizing "@ + plan.partition + "..."@)],
                    ResizeView::Reading { plan },
                    ActionView::ReadInventory,
                )
            },
    )
}

/// The turn that a turn of the shrinking amounts to.
pub open spec fn resize_shrink(
    plan: ResizePlanView,
    filesystem: Option<Seq<char>>,
    t: TurnView<FsResizeView, ()>,
) -> TurnView<ResizeView, ()> {
    lift_closing(
        t,
        |p: FsResizeView| ResizeView::Shrinking { plan, filesystem, part: p },
        |u: ()| resize_table(plan, filesystem, false),
    )
}

/// The turn that a turn of the growing amounts to.
pub open spec fn resize_grow(plan: ResizePlanView, t: TurnView<FsResizeView, ()>) -> TurnView<
    ResizeView,
    (),
> {
    lift_closing(
        t,
        |p: FsResizeView| ResizeView::Growing { plan, part: p },
        |u: ()| resize_done(plan),
    )
}

/// The turn once the partition's present size and filesystem are known. A
/// size above the present one grows the partition; any other shrinks it,
/// and then the filesystem is shrunk first.
pub open spec fn resize_decided(
    plan: ResizePlanView,
    current_size: nat,
    filesystem: Option<Seq<char>>,
) -> TurnView<ResizeView, ()> {
    if plan.new_size > current_size {
        resize_table(plan, filesystem, true)
    } else {
        after(
            seq![info("Shrinking filesystem..."@)],
            resize_shrink(
                plan,
                filesystem,
                fs_start(plan.partition, filesystem, plan.new_size, false),
            ),
        )
    }
}

/// The turn on an outcome. An encrypted partition is not resized, nor a
/// mounted one. Once the progress display is on, every failure turns it
/// off.
pub open spec fn resize_resume(s: ResizeView, o: OutcomeView) -> TurnView<ResizeView, ()> {
    match s {
        ResizeView::Probing { plan } => match o {
            OutcomeView::Tool(_) => if succeeded(o) {
                abort(
                    Seq::empty(),
                    ErrorKind::Precondition,
                    plan.partition
                        + " is an encrypted partition. Resizing encrypted partitions is not supported as it risks data corruption. To resize: backup data, delete partition, create larger partition, restore data."@,
                )
            } else {
                resize_check(plan, check_start(plan.partition))
            },
            _ => stray(),
        },
        ResizeView::Checking { plan, check } => resize_check(plan, check_resume(check, o)),
        ResizeView::Reading { plan } => match o {
            OutcomeView::Inventory(Some(devices)) => match find_disk(devices, plan.disk) {
                None => abort(
                    seq![ended()],
                    ErrorKind::NotFound,
                    "Disk "@ + plan.disk + " not found"@,
                ),
                Some(dev) => match find_part(dev.partitions, plan.partition) {
                    None => abort(
                        seq![ended()],
                        ErrorKind::NotFound,
                        "Partition "@ + plan.partition + " not found"@,
                    ),
                    Some(part) => resize_decided(plan, part.size, part.filesystem),
                },
            },
            OutcomeView::Inventory(None) => abort(
                seq![ended()],
                ErrorKind::ToolExecution,
                inventory_fault(),
            ),
            _ => stray(),
        },
        ResizeView::Shrinking { plan, filesystem, part } => resize_shrink(
            plan,
            filesystem,
            fs_resume(part, o),
        ),
        ResizeView::Dumping { plan, filesystem, growing } => match o {
            OutcomeView::Tool(ToolResultView::Exited { success, stdout, stderr }) => if !success {
                abort(
                    seq![ended()],
                    ErrorKind::ToolExecution,
                    "Failed to read partition table: "@ + stderr,
                )
            } else {
                match rewritten_table(
                    stdout,
                    plan.disk,
                    plan.index as nat,
                    plan.new_size as nat,
                ) {
                    Err(RewriteError::NoStart) => abort(
                        seq![ended()],
                        ErrorKind::ToolExecution,
                        "Could not parse partition table"@,
                    ),
                    Err(RewriteError::NoSize) => abort(
                        seq![ended()],
                        ErrorKind::ToolExecution,
                        "Could not parse partition table"@,
                    ),
                    Err(RewriteError::NotFound) => abort(
                        seq![ended()],
                        ErrorKind::NotFound,
                        "Partition "@ + plan.partition + " not found in partition table"@,
                    ),
                    Ok(table) => wait(
                        Seq::empty(),
                        ResizeView::Writing { plan, filesystem, growing },
                        table_write(plan.disk, table),
                    ),
                }
            },
            OutcomeView::Tool(_) => abort(
                seq![ended()],
                ErrorKind::ToolExecution,
                "Failed to dump partition table"@,
            ),
            _ => stray(),
        },
        ResizeView::Writing { plan, filesystem, growing } => match o {
            OutcomeView::Tool(ToolResultView::Exited { success, stderr, .. }) => if success {
                wait(
                    Seq::empty(),
                    ResizeView::Pausing { plan, filesystem, growing },
                    ActionView::Pause(TABLE_PAUSE_MS),
                )
            } else {
                abort(
                    seq![ended()],
                    ErrorKind::ToolExecution,
                    "Failed to resize partition: "@ + stderr,
                )
            },
            OutcomeView::Tool(_) => abort(
                seq![ended()],
                ErrorKind::ToolExecution,
                "Failed to spawn sfdisk"@,
            ),
            _ => stray(),
        },
        ResizeView::Pausing { plan, filesystem, growing } => match o {
            OutcomeView::Resumed => wait(
                Seq::empty(),
                ResizeView::Reprobing { plan, filesystem, growing },
                tool("partprobe"@, seq![raw_path(plan.disk)]),
            ),
            _ => stray(),
        },
        ResizeView::Reprobing { plan, filesystem, growing } => match o {
            OutcomeView::Tool(_) => wait(
                Seq::empty(),
                ResizeView::Settling { plan, filesystem, growing },
                ActionView::Pause(REPROBE_PAUSE_MS),
            ),
            _ => stray(),
        },
        ResizeView::Settling { plan, filesystem, growing } => match o {
            OutcomeView::Resumed => if growing {
                after(
                    seq![info("Expanding filesystem..."@)],
                    resize_grow(
                        plan,
                        fs_start(plan.partition, filesystem, plan.new_size, true),
                    ),
                )
            } else {
                resize_done(plan)
            },
            _ => stray(),
        },
        ResizeView::Growing { plan, part } => resize_grow(plan, fs_resume(part, o)),
    }
}

/// Makes the plan of a resize.
pub fn plan_resize(partition: &str, size_input: &str) -> (r: Result<ResizePlan, String>)
    ensures
        r is Ok <==> resize_plan(partition@, size_input@) is Ok,
        r matches Ok(p) ==> resize_plan(partition@, size_input@) == Ok::<
            ResizePlanView,
            Seq<char>,
        >(p@),
        r matches Err(m) ==> resize_plan(partition@, size_input@) == Err::<
            ResizePlanView,
            Seq<char>,
        >(m@),
{
    match validate_device_name(partition) {
        Err(e) => {
            return Err(e.message);
        },
        Ok(()) => {},
    }
    let (disk, digits) = match split_partition_name(partition) {
        None => {
            return Err(join2("Invalid partition name format: ", partition));
        },
        Some(parts) => parts,
    };
    let index: u64 = match parse_u64(&chars_of(digits.as_str())) {
        None => {
            proof {
                crate::device::lemma_trailing_digits(partition@);
            }
            return Err(join2("Invalid partition name format: ", partition));
        },
        Some(n) => n,
    };
    match parse_size(size_input) {
        Err(e) => Err(e.message),
        Ok(new_size) => Ok(ResizePlan { partition: copy(partition), disk, index, new_size }),
    }
}

fn begin_table(plan: ResizePlan, filesystem: Option<String>, growing: bool) -> (t: Turn<
    Resize,
    (),
>)
    ensures
        t@ == resize_table(plan@, opt_text(filesystem), growing),
{
    let action = run("sfdisk", args2("-d", raw_node(plan.disk.as_str()).as_str()));
    Turn::wait(
        ev1(Event::info(copy("Resizing partition..."))),
        Resize::Dumping { plan, filesystem, growing },
        action,
    )
}

fn done(plan: ResizePlan) -> (t: Turn<Resize, ()>)
    ensures
        t@ == resize_done(plan@),
{
    Turn::finish(
        ev2(
            Event::ended(),
            Event::info(
                join4(
                    "Successfully resized ",
                    plan.partition.as_str(),
                    " to ",
                    format_bytes(plan.new_size).as_str(),
                ),
            ),
        ),
        (),
    )
}

fn lift_check(plan: ResizePlan, t: Turn<MountCheck, Mounted>) -> (r: Turn<Resize, ()>)
    ensures
        r@ == resize_check(plan@, t@),
{
    let Turn { events, flow } = t;
    match flow {
        Flow::Wait(c, a) => Turn::wait(events, Resize::Checking { plan, check: c }, a),
        Flow::Done(Err(e)) => Turn::abort_with(events, e),
        Flow::Done(Ok(m)) => {
            if m.mounted {
                Turn::abort(
                    ev0(),
                    ErrorKind::Precondition,
                    join2(plan.partition.as_str(), " is mounted. Unmount it first (press 'm')"),
                ).after(events)
            } else {
                let note = ev1(
                    Event::started(join3("Resizing ", plan.partition.as_str(), "...")),
                );
                Turn::wait(note, Resize::Reading { plan }, Action::ReadInventory).after(events)
            }
        },
    }
}

fn lift_shrink(plan: ResizePlan, filesystem: Option<String>, t: Turn<FsResize, ()>) -> (r: Turn<
    Resize,
    (),
>)
    ensures
        r@ == resize_shrink(plan@, opt_text(filesystem), t@),
{
    let Turn { events, flow } = t;
    match flow {
        Flow::Wait(p, a) => Turn::wait(events, Resize::Shrinking { plan, filesystem, part: p }, a),
        Flow::Done(Err(e)) => Turn::abort_closing(events, e),
        Flow::Done(Ok(_)) => begin_table(plan, filesystem, false).after(events),
    }
}

fn lift_grow(plan: ResizePlan, t: Turn<FsResize, ()>) -> (r: Turn<Resize, ()>)
    ensures
        r@ == resize_grow(plan@, t@),
{
    let Turn { events, flow } = t;
    match flow {
        Flow::Wait(p, a) => Turn::wait(events, Resize::Growing { plan, part: p }, a),
        Flow::Done(Err(e)) => Turn::abort_closing(events, e),
        Flow::Done(Ok(_)) => done(plan).after(events),
    }
}

fn decide(plan: ResizePlan, current_size: u64, filesystem: Option<String>) -> (t: Turn<
    Resize,
    (),
>)
    ensures
        t@ == resize_decided(plan@, current_size as nat, opt_text(filesystem)),
{
    if plan.new_size > current_size {
        begin_table(plan, filesystem, true)
    } else {
        let t = FsResize::start(plan.partition.as_str(), &filesystem, plan.new_size, false);
        lift_shrink(plan, filesystem, t).after(
            ev1(Event::info(copy("Shrinking filesystem..."))),
        )
    }
}

impl Resize {
    /// Begins to resize the partition of the given name to the given size.
    pub fn start(partition: &str, size_input: &str) -> (t: Turn<Resize, ()>)
        ensures
            t@ == resize_start(partition@, size_input@),
    {
        match plan_resize(partition, size_input) {
            Err(m) => Turn::abort(ev0(), ErrorKind::Validation, m),
            Ok(plan) => Turn::wait(ev0(), Resize::Probing { plan }, ask_luks(partition)),
        }
    }

    /// Continues with the outcome of the action that was waited for.
    pub fn resume(self, outcome: Outcome) -> (t: Turn<Resize, ()>)
        ensures
            t@ == resize_resume(self@, outcome@),
    {
        match self {
            Resize::Probing { plan } => match outcome {
                Outcome::Tool(_) => {
                    if outcome.succeeded() {
                        Turn::abort(
                            ev0(),
                            ErrorKind::Precondition,
                            join2(
                                plan.partition.as_str(),
                                " is an encrypted partition. Resizing encrypted partitions is not supported as it risks data corruption. To resize: backup data, delete partition, create larger partition, restore data.",
                            ),
                        )
                    } else {
                        let t = MountCheck::start(plan.partition.as_str());
                        lift_check(plan, t)
                    }
                },
                _ => Turn::stray(),
            },
            Resize::Checking { plan, check } => lift_check(plan, check.resume(outcome)),
            Resize::Reading { plan } => match outcome {
                Outcome::Inventory(Some(devices)) => {
                    match find_device(&devices, plan.disk.as_str()) {
                        None => Turn::abort(
                            ev1(Event::ended()),
                            ErrorKind::NotFound,
                            join3("Disk ", plan.disk.as_str(), " not found"),
                        ),
                        Some(i) => {
                            let dev = &devices[i];
                            match find_partition(&dev.partitions, plan.partition.as_str()) {
                                None => Turn::abort(
                                    ev1(Event::ended()),
                                    ErrorKind::NotFound,
                                    join3("Partition ", plan.partition.as_str(), " not found"),
                                ),
                                Some(j) => {
                                    let part = &dev.partitions[j];
                                    let fs = copy_opt(&part.filesystem);
                                    decide(plan, part.size, fs)
                                },
                            }
                        },
                    }
                },
                Outcome::Inventory(None) => Turn::abort(
                    ev1(Event::ended()),
                    ErrorKind::ToolExecution,
                    copy("Failed to read the device inventory"),
                ),
                _ => Turn::stray(),
            },
            Resize::Shrinking { plan, filesystem, part } => lift_shrink(
                plan,
                filesystem,
                part.resume(outcome),
            ),
            Resize::Dumping { plan, filesystem, growing } => match outcome {
                Outcome::Tool(ToolResult::Exited { success, stdout, stderr }) => {
                    if !success {
                        return Turn::abort(
                            ev1(Event::ended()),
                            ErrorKind::ToolExecution,
                            join2("Failed to read partition table: ", stderr.as_str()),
                        );
                    }
                    match rewrite_table(
                        stdout.as_str(),
                        plan.disk.as_str(),
                        plan.index,
                        plan.new_size,
                    ) {
                        Err(RewriteError::NoStart) => Turn::abort(
                            ev1(Event::ended()),
                            ErrorKind::ToolExecution,
                            copy("Could not parse partition table"),
                        ),
                        Err(RewriteError::NoSize) => Turn::abort(
                            ev1(Event::ended()),
                            ErrorKind::ToolExecution,
                            copy("Could not parse partition table"),
                        ),
                        Err(RewriteError::NotFound) => Turn::abort(
                            ev1(Event::ended()),
                            ErrorKind::NotFound,
                            join3(
                                "Partition ",
                                plan.partition.as_str(),
                                " not found in partition table",
                            ),
                        ),
                        Ok(table) => {
                            let action = run_fed(
                                "sfdisk",
                                args3(
                                    "--force",
                                    "--no-reread",
                                    raw_node(plan.disk.as_str()).as_str(),
                                ),
                                table,
                            );
                            Turn::wait(ev0(), Resize::Writing { plan, filesystem, growing }, action)
                        },
                    }
                },
                Outcome::Tool(_) => Turn::abort(
                    ev1(Event::ended()),
                    ErrorKind::ToolExecution,
                    copy("Failed to dump partition table"),
                ),
                _ => Turn::stray(),
            },
            Resize::Writing { plan, filesystem, growing } => match outcome {
                Outcome::Tool(ToolResult::Exited { success, stderr, .. }) => {
                    if success {
                        Turn::wait(
                            ev0(),
                            Resize::Pausing { plan, filesystem, growing },
                            Action::Pause(TABLE_PAUSE_MS),
                        )
                    } else {
                        Turn::abort(
                            ev1(Event::ended()),
                            ErrorKind::ToolExecution,
                            join2("Failed to resize partition: ", stderr.as_str()),
                        )
                    }
                },
                Outcome::Tool(_) => Turn::abort(
                    ev1(Event::ended()),
                    ErrorKind::ToolExecution,
                    copy("Failed to spawn sfdisk"),
                ),
                _ => Turn::stray(),
            },
            Resize::Pausing { plan, filesystem, growing } => match outcome {
                Outcome::Resumed => {
                    let action = run("partprobe", args1(raw_node(plan.disk.as_str()).as_str()));
                    Turn::wait(ev0(), Resize::Reprobing { plan, filesystem, growing }, action)
                },
                _ => Turn::stray(),
            },
            Resize::Reprobing { plan, filesystem, growing } => match outcome {
                Outcome::Tool(_) => Turn::wait(
                    ev0(),
                    Resize::Settling { plan, filesystem, growing },
                    Action::Pause(REPROBE_PAUSE_MS),
                ),
                _ => Turn::stray(),
            },
            Resize::Settling { plan, filesystem, growing } => match outcome {
                Outcome::Resumed => {
                    if growing {
                        let t = FsResize::start(
                            plan.partition.as_str(),
                            &filesystem,
                            plan.new_size,
                            true,
                        );
                        lift_grow(plan, t).after(ev1(Event::info(copy("Expanding filesystem..."))))
                    } else {
                        done(plan)
                    }
                },
                _ => Turn::stray(),
            },
            Resize::Growing { plan, part } => lift_grow(plan, part.resume(outcome)),
        }
    }
}

} // verus!
