//! Deleting a partition.
//!
//! Before the partition is removed from the table, whatever holds it is let
//! go: an unlocked mapping is unmounted and locked, the partition itself is
//! unmounted, and the header of an encrypted container is wiped.

use vstd::prelude::*;
use crate::device::{
    disk_part, index_part, mapper_node, mapper_path, name_fault, partition_split, raw_node,
    raw_path, split_partition_name, validate_device_name,
};
use crate::engine::{
    abort, after, args1, args2, args4, finish, lift, run, stray, succeeded, tool, wait, Action,
    ActionView, Flow, Outcome, OutcomeView, ToolResult, ToolResultView, Turn, TurnView,
};
use crate::error::{join2, join3, ErrorKind};
use crate::event::{ev0, ev1, info, warning, Event, EventView};
use crate::operations::check::{
    ask_luks, ask_mounted, check_resume, check_start, luks_query, mount_query, CheckView,
    MountCheck, Mounted, MountedView,
};
use crate::operations::lock::{lock_resume, lock_start, Lock, LockView};
use crate::operations::resize::bad_partition_name;
use crate::operations::scan::{scan_resume, scan_start, ScanView, StatusScan};
use crate::operations::unmount::{unmount_resume, unmount_start, Unmount, UnmountView};
use crate::operations::{LuksStatus, LuksStatusView};
use crate::text::copy;

verus! {

/// The milliseconds waited after the kernel was asked to read the table.
pub const DELETE_SETTLE_MS: u64 = 500;

/// What a deletion is about: the partition, its disk, and its index as it
/// stands in the name.
#[derive(Debug, Clone, PartialEq, Eq)]
pub struct DeletePlan {
    pub partition: String,
    pub disk: String,
    pub index: String,
}

/// The mathematical content of a [`DeletePlan`].
pub struct DeletePlanView {
    pub partition: Seq<char>,
    pub disk: Seq<char>,
    pub index: Seq<char>,
}

impl View for DeletePlan {
    type V = DeletePlanView;

    open spec fn view(&self) -> DeletePlanView {
        DeletePlanView { partition: self.partition@, disk: self.disk@, index: self.index@ }
    }
}

/// The deletion, by the step it waits for. `encrypted` says whether the
/// partition is an encrypted container.
#[derive(Debug, Clone, PartialEq, Eq)]
pub enum Delete {
    /// Is the partition an encrypted container?
    Probing { plan: DeletePlan },
    /// Is it unlocked?
    Scanning { plan: DeletePlan, encrypted: bool, scan: StatusScan },
    /// Is its mapping mounted?
    CheckingMapper { plan: DeletePlan, encrypted: bool, mapper: String },
    /// The mapping is being unmounted.
    UnmountingMapper { plan: DeletePlan, encrypted: bool, mapper: String, part: Unmount },
    /// The mapping is being locked.
    Locking { plan: DeletePlan, encrypted: bool, part: Lock },
    /// Is the partition itself mounted?
    Checking { plan: DeletePlan, encrypted: bool, check: MountCheck },
    /// The partition is being unmounted.
    Unmounting { plan: DeletePlan, encrypted: bool, part: Unmount },
    /// The container's header is being wiped.
    Wiping { plan: DeletePlan },
    /// The partition editor removes the partition.
    Removing { plan: DeletePlan },
    /// The kernel reads the table again.
    Reprobing { plan: DeletePlan },
    /// A short rest after that.
    Settling { plan: DeletePlan },
}

/// The mathematical content of a [`Delete`].
pub enum DeleteView {
    Probing { plan: DeletePlanView },
    Scanning { plan: DeletePlanView, encrypted: bool, scan: ScanView },
    CheckingMapper { plan: DeletePlanView, encrypted: bool, mapper: Seq<char> },
    UnmountingMapper { plan: DeletePlanView, encrypted: bool, mapper: Seq<char>, part: UnmountView },
    Locking { plan: DeletePlanView, encrypted: bool, part: LockView },
    Checking { plan: DeletePlanView, encrypted: bool, check: CheckView },
    Unmounting { plan: DeletePlanView, encrypted: bool, part: UnmountView },
    Wiping { plan: DeletePlanView },
    Removing { plan: DeletePlanView },
    Reprobing { plan: DeletePlanView },
    Settling { plan: DeletePlanView },
}

impl View for Delete {
    type V = DeleteView;

    open spec fn view(&self) -> DeleteView {
        match self {
            Delete::Probing { plan } => DeleteView::Probing { plan: plan@ },
            Delete::Scanning { plan, encrypted, scan } => DeleteView::Scanning {
                plan: plan@,
                encrypted: *encrypted,
                scan: scan@,
            },
            Delete::CheckingMapper { plan, encrypted, mapper } => DeleteView::CheckingMapper {
                plan: plan@,
                encrypted: *encrypted,
                mapper: mapper@,
            },
            Delete::UnmountingMapper { plan, encrypted, mapper, part } => DeleteView::UnmountingMapper {
                plan: plan@,
                encrypted: *encrypted,
                mapper: mapper@,
                part: part@,
            },
            Delete::Locking { plan, encrypted, part } => DeleteView::Locking {
                plan: plan@,
                encrypted: *encrypted,
                part: part@,
            },
            Delete::Checking { plan, encrypted, check } => DeleteView::Checking {
                plan: plan@,
                encrypted: *encrypted,
                check: check@,
            },
            Delete::Unmounting { plan, encrypted, part } => DeleteView::Unmounting {
                plan: plan@,
                encrypted: *encrypted,
                part: part@,
            },
            Delete::Wiping { plan } => DeleteView::Wiping { plan: plan@ },
            Delete::Removing { plan } => DeleteView::Removing { plan: plan@ },
            Delete::Reprobing { plan } => DeleteView::Reprobing { plan: plan@ },
            Delete::Settling { plan } => DeleteView::Settling { plan: plan@ },
        }
    }
}

/// The plan of a deletion, or what is wrong with the name: it must be valid
/// and divide into disk and index.
pub open spec fn delete_plan(partition: Seq<char>) -> Result<DeletePlanView, Seq<char>> {
    if name_fault(partition) is Some {
        Err(name_fault(partition)->0)
    } else if partition_split(partition) is None {
        Err(bad_partition_name(partition))
    } else {
        Ok(
            DeletePlanView {
                partition,
                disk: disk_part(partition),
                index: index_part(partition),
            },
        )
    }
}

/// The first turn. A name that is not well formed ends the operation before
/// anything is asked of the host.
pub open spec fn delete_start(partition: Seq<char>) -> TurnView<DeleteView, ()> {
    match delete_plan(partition) {
        Err(m) => abort(Seq::empty(), ErrorKind::Validation, m),
        Ok(plan) => wait(Seq::empty(), DeleteView::Probing { plan }, luks_query(partition)),
    }
}

/// The turn that removes the partition from the table.
pub open spec fn delete_remove(plan: DeletePlanView) -> TurnView<DeleteView, ()> {
    wait(
        seq![info("Deleting partition "@ + plan.partition + "..."@)],
        DeleteView::Removing { plan },
        tool("parted"@, seq!["-s"@, raw_path(plan.disk), "rm"@, plan.index]),
    )
}

/// The turn once nothing holds the partition any more: the header of an
/// encrypted container is wiped before the partition is removed.
pub open spec fn delete_released(plan: DeletePlanView, encrypted: bool) -> TurnView<
    DeleteView,
    (),
> {
    if encrypted {
        wait(
            seq![info("Wiping LUKS header from "@ + plan.partition + "..."@)],
            DeleteView::Wiping { plan },
            tool("wipefs"@, seq!["-a"@, raw_path(plan.partition)]),
        )
    } else {
        delete_remove(plan)
    }
}

/// What is said of the wiping of the header. That it failed is a warning;
/// the deletion goes on.
pub open spec fn wipe_note(partition: Seq<char>, o: OutcomeView) -> EventView {
    match o {
        OutcomeView::Tool(ToolResultView::Exited { success, stderr, .. }) => if success {
            info("LUKS header wiped from "@ + partition)
        } else {
            warning(
                "Warning: Failed to wipe LUKS header: "@ + stderr
                    + ". Continuing with deletion..."@,
            )
        },
        _ => warning("Warning: wipefs not available. Continuing with deletion..."@),
    }
}

/// The turn that a turn of the unmounting of the partition amounts to.
pub open spec fn delete_unmount(plan: DeletePlanView, encrypted: bool, t: TurnView<UnmountView, ()>)
    -> TurnView<DeleteView, ()> {
    lift(
        t,
        |p: UnmountView| DeleteView::Unmounting { plan, encrypted, part: p },
        |u: ()| delete_released(plan, encrypted),
    )
}

/// The turn that a turn of the mount check of the partition amounts to.
pub open spec fn delete_check(
    plan: DeletePlanView,
    encrypted: bool,
    t: TurnView<CheckView, MountedView>,
) -> TurnView<DeleteView, ()> {
    lift(
        t,
        |c: CheckView| DeleteView::Checking { plan, encrypted, check: c },
        |m: MountedView|
            if m.mounted {
                delete_unmount(plan, encrypted, unmount_start(plan.partition))
            } else {
                delete_released(plan, encrypted)
            },
    )
}

/// The turn that a turn of the locking of the mapping amounts to.
pub open spec fn delete_lock(plan: DeletePlanView, encrypted: bool, t: TurnView<LockView, ()>)
    -> TurnView<DeleteView, ()> {
    lift(
        t,
        |p: LockView| DeleteView::Locking { plan, encrypted, part: p },
        |u: ()| delete_check(plan, encrypted, check_start(plan.partition)),
    )
}

/// The turn that closes the mapping.
pub open spec fn delete_close(plan: DeletePlanView, encrypted: bool, mapper: Seq<char>)
    -> TurnView<DeleteView, ()> {
    after(
        seq![info("Closing encrypted device "@ + mapper + "..."@)],
        delete_lock(plan, encrypted, lock_start(mapper)),
    )
}

/// The turn that a turn of the unmounting of the mapping amounts to.
pub open spec fn delete_unmount_mapper(
    plan: DeletePlanView,
    encrypted: bool,
    mapper: Seq<char>,
    t: TurnView<UnmountView, ()>,
) -> TurnView<DeleteView, ()> {
    lift(
        t,
        |p: UnmountView| DeleteView::UnmountingMapper { plan, encrypted, mapper, part: p },
        |u: ()| delete_close(plan, encrypted, mapper),
    )
}

/// The turn that a turn of the status scan amounts to.
pub open spec fn delete_scan(
    plan: DeletePlanView,
    encrypted: bool,
    t: TurnView<ScanView, LuksStatusView>,
) -> TurnView<DeleteView, ()> {
    lift(
        t,
        |s: ScanView| DeleteView::Scanning { plan, encrypted, scan: s },
        |st: LuksStatusView|
            if st.is_active && st.mapper_name is Some {
                wait(
                    Seq::empty(),
                    DeleteView::CheckingMapper { plan, encrypted, mapper: st.mapper_name->0 },
                    mount_query(mapper_path(st.mapper_name->0)),
                )
            } else {
                delete_check(plan, encrypted, check_start(plan.partition))
            },
    )
}

/// The turn on an outcome. That the kernel cannot read the table again is
/// a warning: the partition is deleted all the same.
pub open spec fn delete_resume(s: DeleteView, o: OutcomeView) -> TurnView<DeleteView, ()> {
    match s {
        DeleteView::Probing { plan } => match o {
            OutcomeView::Tool(_) => delete_scan(plan, succeeded(o), scan_start(plan.partition)),
            _ => stray(),
        },
        DeleteView::Scanning { plan, encrypted, scan } => delete_scan(
            plan,
            encrypted,
            scan_resume(scan, o),
        ),
        DeleteView::CheckingMapper { plan, encrypted, mapper } => match o {
            OutcomeView::Tool(_) => if succeeded(o) {
                delete_unmount_mapper(plan, encrypted, mapper, unmount_start(mapper))
            } else {
                delete_close(plan, encrypted, mapper)
            },
            _ => stray(),
        },
        DeleteView::UnmountingMapper { plan, encrypted, mapper, part } => delete_unmount_mapper(
            plan,
            encrypted,
            mapper,
            unmount_resume(part, o),
        ),
        DeleteView::Locking { plan, encrypted, part } => delete_lock(
            plan,
            encrypted,
            lock_resume(part, o),
        ),
        DeleteView::Checking { plan, encrypted, check } => delete_check(
            plan,
            encrypted,
            check_resume(check, o),
        ),
        DeleteView::Unmounting { plan, encrypted, part } => delete_unmount(
            plan,
            encrypted,
            unmount_resume(part, o),
        ),
        DeleteView::Wiping { plan } => match o {
            OutcomeView::Tool(_) => after(seq![wipe_note(plan.partition, o)], delete_remove(plan)),
            _ => stray(),
        },
        DeleteView::Removing { plan } => match o {
            OutcomeView::Tool(ToolResultView::Exited { success, stderr, .. }) => if success {
                wait(
                    Seq::empty(),
                    DeleteView::Reprobing { plan },
                    tool("partprobe"@, seq![raw_path(plan.disk)]),
                )
            } else {
                abort(
                    Seq::empty(),
                    ErrorKind::ToolExecution,
                    "Delete partition failed: "@ + stderr,
                )
            },
            OutcomeView::Tool(_) => abort(
                Seq::empty(),
                ErrorKind::ToolExecution,
                "Failed to execute parted"@,
            ),
            _ => stray(),
        },
        DeleteView::Reprobing { plan } => match o {
            OutcomeView::Tool(ToolResultView::Exited { success, stderr, .. }) => wait(
                if success {
                    Seq::empty()
                } else {
                    seq![
                        warning(
                            "Warning: partprobe failed: "@ + stderr
                                + ". Partition deleted but you may need to reboot."@,
                        ),
                    ]
                },
                DeleteView::Settling { plan },
                ActionView::Pause(DELETE_SETTLE_MS),
            ),
            OutcomeView::Tool(_) => wait(
                Seq::empty(),
                DeleteView::Settling { plan },
                ActionView::Pause(DELETE_SETTLE_MS),
            ),
            _ => stray(),
        },
        DeleteView::Settling { plan } => match o {
            OutcomeView::Resumed => finish(
                seq![info("Successfully deleted partition "@ + plan.partition)],
                (),
            ),
            _ => stray(),
        },
    }
}

/// Makes the plan of a deletion.
pub fn plan_delete(partition: &str) -> (r: Result<DeletePlan, String>)
    ensures
        r is Ok <==> delete_plan(partition@) is Ok,
        r matches Ok(p) ==> delete_plan(partition@) == Ok::<DeletePlanView, Seq<char>>(p@),
        r matches Err(m) ==> delete_plan(partition@) == Err::<DeletePlanView, Seq<char>>(m@),
{
    match validate_device_name(partition) {
        Err(e) => {
            return Err(e.message);
        },
        Ok(()) => {},
    }
    match split_partition_name(partition) {
        None => Err(join2("Invalid partition name format: ", partition)),
        Some(parts) => {
            let (disk, index) = parts;
            Ok(DeletePlan { partition: copy(partition), disk, index })
        },
    }
}

fn remove(plan: DeletePlan) -> (t: Turn<Delete, ()>)
    ensures
        t@ == delete_remove(plan@),
{
    let note = ev1(Event::info(join3("Deleting partition ", plan.partition.as_str(), "...")));
    let action = run(
        "parted",
        args4("-s", raw_node(plan.disk.as_str()).as_str(), "rm", plan.index.as_str()),
    );
    Turn::wait(note, Delete::Removing { plan }, action)
}

fn released(plan: DeletePlan, encrypted: bool) -> (t: Turn<Delete, ()>)
    ensures
        t@ == delete_released(plan@, encrypted),
{
    if encrypted {
        let note = ev1(
            Event::info(join3("Wiping LUKS header from ", plan.partition.as_str(), "...")),
        );
        let action = run("wipefs", args2("-a", raw_node(plan.partition.as_str()).as_str()));
        Turn::wait(note, Delete::Wiping { plan }, action)
    } else {
        remove(plan)
    }
}

fn note_wipe(partition: &str, outcome: &Outcome) -> (e: Event)
    ensures
        e@ == wipe_note(partition@, outcome@),
{
    match outcome {
        Outcome::Tool(ToolResult::Exited { success, stderr, .. }) => {
            if *success {
                Event::info(join2("LUKS header wiped from ", partition))
            } else {
                Event::warning(
                    join3(
                        "Warning: Failed to wipe LUKS header: ",
                        stderr.as_str(),
                        ". Continuing with deletion...",
                    ),
                )
            }
        },
        _ => Event::warning(copy("Warning: wipefs not available. Continuing with deletion...")),
    }
}

fn lift_unmount(plan: DeletePlan, encrypted: bool, t: Turn<Unmount, ()>) -> (r: Turn<Delete, ()>)
    ensures
        r@ == delete_unmount(plan@, encrypted, t@),
{
    let Turn { events, flow } = t;
    match flow {
        Flow::Wait(p, a) => Turn::wait(events, Delete::Unmounting { plan, encrypted, part: p }, a),
        Flow::Done(Err(e)) => Turn::abort_with(events, e),
        Flow::Done(Ok(_)) => released(plan, encrypted).after(events),
    }
}

fn lift_check(plan: DeletePlan, encrypted: bool, t: Turn<MountCheck, Mounted>) -> (r: Turn<
    Delete,
    (),
>)
    ensures
        r@ == delete_check(plan@, encrypted, t@),
{
    let Turn { events, flow } = t;
    match flow {
        Flow::Wait(c, a) => Turn::wait(events, Delete::Checking { plan, encrypted, check: c }, a),
        Flow::Done(Err(e)) => Turn::abort_with(events, e),
        Flow::Done(Ok(m)) => {
            if m.mounted {
                let t2 = Unmount::start(plan.partition.as_str());
                lift_unmount(plan, encrypted, t2).after(events)
            } else {
                released(plan, encrypted).after(events)
            }
        },
    }
}

fn lift_lock(plan: DeletePlan, encrypted: bool, t: Turn<Lock, ()>) -> (r: Turn<Delete, ()>)
    ensures
        r@ == delete_lock(plan@, encrypted, t@),
{
    let Turn { events, flow } = t;
    match flow {
        Flow::Wait(p, a) => Turn::wait(events, Delete::Locking { plan, encrypted, part: p }, a),
        Flow::Done(Err(e)) => Turn::abort_with(events, e),
        Flow::Done(Ok(_)) => {
            let t2 = MountCheck::start(plan.partition.as_str());
            lift_check(plan, encrypted, t2).after(events)
        },
    }
}

fn close(plan: DeletePlan, encrypted: bool, mapper: String) -> (t: Turn<Delete, ()>)
    ensures
        t@ == delete_close(plan@, encrypted, mapper@),
{
    let note = ev1(Event::info(join3("Closing encrypted device ", mapper.as_str(), "...")));
    let t = Lock::start(mapper.as_str());
    lift_lock(plan, encrypted, t).after(note)
}

fn lift_unmount_mapper(plan: DeletePlan, encrypted: bool, mapper: String, t: Turn<Unmount, ()>)
    -> (r: Turn<Delete, ()>)
    ensures
        r@ == delete_unmount_mapper(plan@, encrypted, mapper@, t@),
{
    let Turn { events, flow } = t;
    match flow {
        Flow::Wait(p, a) => Turn::wait(
            events,
            Delete::UnmountingMapper { plan, encrypted, mapper, part: p },
            a,
        ),
        Flow::Done(Err(e)) => Turn::abort_with(events, e),
        Flow::Done(Ok(_)) => close(plan, encrypted, mapper).after(events),
    }
}

fn lift_scan(plan: DeletePlan, encrypted: bool, t: Turn<StatusScan, LuksStatus>) -> (r: Turn<
    Delete,
    (),
>)
    ensures
        r@ == delete_scan(plan@, encrypted, t@),
{
    let Turn { events, flow } = t;
    match flow {
        Flow::Wait(s, a) => Turn::wait(events, Delete::Scanning { plan, encrypted, scan: s }, a),
        Flow::Done(Err(e)) => Turn::abort_with(events, e),
        Flow::Done(Ok(st)) => {
            if st.is_active {
                match st.mapper_name {
                    Some(mapper) => {
                        let action = ask_mounted(mapper_node(mapper.as_str()).as_str());
                        return Turn::wait(
                            ev0(),
                            Delete::CheckingMapper { plan, encrypted, mapper },
                            action,
                        ).after(events);
                    },
                    None => {},
                }
            }
            let t2 = MountCheck::start(plan.partition.as_str());
            lift_check(plan, encrypted, t2).after(events)
        },
    }
}

impl Delete {
    /// Begins to delete the partition of the given name.
    pub fn start(partition: &str) -> (t: Turn<Delete, ()>)
        ensures
            t@ == delete_start(partition@),
    {
        match plan_delete(partition) {
            Err(m) => Turn::abort(ev0(), ErrorKind::Validation, m),
            Ok(plan) => Turn::wait(ev0(), Delete::Probing { plan }, ask_luks(partition)),
        }
    }

    /// Continues with the outcome of the action that was waited for.
    pub fn resume(self, outcome: Outcome) -> (t: Turn<Delete, ()>)
        ensures
            t@ == delete_resume(self@, outcome@),
    {
        match self {
            Delete::Probing { plan } => match outcome {
                Outcome::Tool(_) => {
                    let encrypted = outcome.succeeded();
                    let t = StatusScan::start(plan.partition.as_str());
                    lift_scan(plan, encrypted, t)
                },
                _ => Turn::stray(),
            },
            Delete::Scanning { plan, encrypted, scan } => lift_scan(
                plan,
                encrypted,
                scan.resume(outcome),
            ),
            Delete::CheckingMapper { plan, encrypted, mapper } => match outcome {
                Outcome::Tool(_) => {
                    if outcome.succeeded() {
                        let t = Unmount::start(mapper.as_str());
                        lift_unmount_mapper(plan, encrypted, mapper, t)
                    } else {
                        close(plan, encrypted, mapper)
                    }
                },
                _ => Turn::stray(),
            },
            Delete::UnmountingMapper { plan, encrypted, mapper, part } => lift_unmount_mapper(
                plan,
                encrypted,
                mapper,
                part.resume(outcome),
            ),
            Delete::Locking { plan, encrypted, part } => lift_lock(
                plan,
                encrypted,
                part.resume(outcome),
            ),
            Delete::Checking { plan, encrypted, check } => lift_check(
                plan,
                encrypted,
                check.resume(outcome),
            ),
            Delete::Unmounting { plan, encrypted, part } => lift_unmount(
                plan,
                encrypted,
                part.resume(outcome),
            ),
            Delete::Wiping { plan } => match outcome {
                Outcome::Tool(_) => {
                    let note = ev1(note_wipe(plan.partition.as_str(), &outcome));
                    remove(plan).after(note)
                },
                _ => Turn::stray(),
            },
            Delete::Removing { plan } => match outcome {
                Outcome::Tool(ToolResult::Exited { success, stderr, .. }) => {
                    if success {
                        let action = run("partprobe", args1(raw_node(plan.disk.as_str()).as_str()));
                        Turn::wait(ev0(), Delete::Reprobing { plan }, action)
                    } else {
                        Turn::abort(
                            ev0(),
                            ErrorKind::ToolExecution,
                            join2("Delete partition failed: ", stderr.as_str()),
                        )
                    }
                },
                Outcome::Tool(_) => Turn::abort(
                    ev0(),
                    ErrorKind::ToolExecution,
                    copy("Failed to execute parted"),
                ),
                _ => Turn::stray(),
            },
            Delete::Reprobing { plan } => match outcome {
                Outcome::Tool(ToolResult::Exited { success, stderr, .. }) => {
                    let note = if success {
                        ev0()
                    } else {
                        ev1(
                            Event::warning(
                                join3(
                                    "Warning: partprobe failed: ",
                                    stderr.as_str(),
                                    ". Partition deleted but you may need to reboot.",
                                ),
                            ),
                        )
                    };
                    Turn::wait(note, Delete::Settling { plan }, Action::Pause(DELETE_SETTLE_MS))
                },
                Outcome::Tool(_) => Turn::wait(
                    ev0(),
                    Delete::Settling { plan },
                    Action::Pause(DELETE_SETTLE_MS),
                ),
                _ => Turn::stray(),
            },
            Delete::Settling { plan } => match outcome {
                Outcome::Resumed => Turn::finish(
                    ev1(
                        Event::info(
                            join2("Successfully deleted partition ", plan.partition.as_str()),
                        ),
                    ),
                    (),
                ),
                _ => Turn::stray(),
            },
        }
    }
}

} // verus!
