//! Unmounting a partition, lazily where it is busy.

use vstd::prelude::*;
use crate::device::{name_fault, validate_device_name};
use crate::engine::{
    abort, args1, args2, finish, lift, run, run_within, stray, succeeded, tool, tool_within, wait,
    Action, ActionView, Flow, Outcome, OutcomeView, ToolResult, ToolResultView, Turn, TurnView,
};
use crate::error::{join2, join3, ErrorKind};
use crate::event::{ended, ev0, ev1, ev3, info, started, warning, Event};
use crate::operations::check::{
    ask_luks, check_resume, check_start, luks_query, CheckView, MountCheck, Mounted, MountedView,
};
use crate::operations::mount::{missing_device, missing_device_text, mount_dir, mount_point};
use crate::operations::scan::{scan_resume, scan_start, ScanView, StatusScan};
use crate::operations::{LuksStatus, LuksStatusView};
use crate::text::{contains, copy, has_sub};

verus! {

/// The seconds that the unmount tool is given before the lazy unmount is
/// tried.
pub const UNMOUNT_TIMEOUT_SECS: u64 = 5;

/// Whether the unmount tool's complaint says that the device is in use.
pub open spec fn says_busy(stderr: Seq<char>) -> bool {
    has_sub(stderr, "target is busy"@) || has_sub(stderr, "device is busy"@)
}

/// The unmounting of a partition, by the step it waits for.
#[derive(Debug, Clone, PartialEq, Eq)]
pub enum Unmount {
    /// Is the partition an encrypted container?
    Probing { partition: String },
    /// It is; is it unlocked?
    Scanning { partition: String, scan: StatusScan },
    /// Is it mounted at all?
    Checking { partition: String, check: MountCheck },
    /// Does its node exist?
    Locating { partition: String, path: String },
    /// The unmount tool runs, under its time limit.
    Unmounting { partition: String, path: String },
    /// The device was busy: the lazy unmount runs.
    Detaching { partition: String },
    /// The mount directory is being removed after an ordinary unmount.
    Cleaning { partition: String },
    /// The mount directory is being removed after a lazy unmount.
    CleaningDetached { partition: String },
}

/// The mathematical content of an [`Unmount`].
pub enum UnmountView {
    Probing { partition: Seq<char> },
    Scanning { partition: Seq<char>, scan: ScanView },
    Checking { partition: Seq<char>, check: CheckView },
    Locating { partition: Seq<char>, path: Seq<char> },
    Unmounting { partition: Seq<char>, path: Seq<char> },
    Detaching { partition: Seq<char> },
    Cleaning { partition: Seq<char> },
    CleaningDetached { partition: Seq<char> },
}

impl View for Unmount {
    type V = UnmountView;

    open spec fn view(&self) -> UnmountView {
        match self {
            Unmount::Probing { partition } => UnmountView::Probing { partition: partition@ },
            Unmount::Scanning { partition, scan } => UnmountView::Scanning {
                partition: partition@,
                scan: scan@,
            },
            Unmount::Checking { partition, check } => UnmountView::Checking {
                partition: partition@,
                check: check@,
            },
            Unmount::Locating { partition, path } => UnmountView::Locating {
                partition: partition@,
                path: path@,
            },
            Unmount::Unmounting { partition, path } => UnmountView::Unmounting {
                partition: partition@,
                path: path@,
            },
            Unmount::Detaching { partition } => UnmountView::Detaching { partition: partition@ },
            Unmount::Cleaning { partition } => UnmountView::Cleaning { partition: partition@ },
            Unmount::CleaningDetached { partition } => UnmountView::CleaningDetached {
                partition: partition@,
            },
        }
    }
}

/// The first turn. A name that is not valid ends the operation before
/// anything is asked of the host.
pub open spec fn unmount_start(partition: Seq<char>) -> TurnView<UnmountView, ()> {
    match name_fault(partition) {
        Some(m) => abort(Seq::empty(), ErrorKind::Validation, m),
        None => wait(Seq::empty(), UnmountView::Probing { partition }, luks_query(partition)),
    }
}

/// The turn once it is known how an encrypted partition stands: an unlocked
/// one is locked, not unmounted.
pub open spec fn unmount_scanned(partition: Seq<char>, status: LuksStatusView) -> TurnView<
    UnmountView,
    (),
> {
    if status.is_active {
        abort(
            Seq::empty(),
            ErrorKind::Precondition,
            partition
                + " is an encrypted device that is unlocked. Lock it first instead of unmounting."@,
        )
    } else {
        unmount_check(partition, check_start(partition))
    }
}

/// The turn once it is known whether the partition is mounted. To unmount
/// what is not mounted is no failure: a warning says so.
pub open spec fn unmount_checked(partition: Seq<char>, m: MountedView) -> TurnView<
    UnmountView,
    (),
> {
    if m.mounted {
        wait(
            Seq::empty(),
            UnmountView::Locating { partition, path: m.path },
            ActionView::ProbePath(m.path),
        )
    } else {
        finish(seq![warning(partition + " not mounted"@)], ())
    }
}

/// The turn that a turn of the status scan amounts to.
pub open spec fn unmount_scan(
    partition: Seq<char>,
    t: TurnView<ScanView, LuksStatusView>,
) -> TurnView<UnmountView, ()> {
    lift(
        t,
        |s: ScanView| UnmountView::Scanning { partition, scan: s },
        |st: LuksStatusView| unmount_scanned(partition, st),
    )
}

/// The turn that a turn of the mount check amounts to.
pub open spec fn unmount_check(partition: Seq<char>, t: TurnView<CheckView, MountedView>)
    -> TurnView<UnmountView, ()> {
    lift(
        t,
        |c: CheckView| UnmountView::Checking { partition, check: c },
        |m: MountedView| unmount_checked(partition, m),
    )
}

/// The turn that falls back to the lazy unmount.
pub open spec fn unmount_detach(partition: Seq<char>, path: Seq<char>) -> TurnView<
    UnmountView,
    (),
> {
    wait(
        seq![
            ended(),
            info("Device is busy. Attempting lazy unmount..."@),
            started("Lazy unmounting "@ + partition + "..."@),
        ],
        UnmountView::Detaching { partition },
        tool("umount"@, seq!["-l"@, path]),
    )
}

/// The turn on an outcome. When the unmount tool exceeds its time, or says
/// that the device is busy, the lazy unmount is tried; its success is
/// reported as a device still in use, not as an unmount.
pub open spec fn unmount_resume(s: UnmountView, o: OutcomeView) -> TurnView<UnmountView, ()> {
    match s {
        UnmountView::Probing { partition } => match o {
            OutcomeView::Tool(_) => if succeeded(o) {
                unmount_scan(partition, scan_start(partition))
            } else {
                unmount_check(partition, check_start(partition))
            },
            _ => stray(),
        },
        UnmountView::Scanning { partition, scan } => unmount_scan(
            partition,
            scan_resume(scan, o),
        ),
        UnmountView::Checking { partition, check } => unmount_check(
            partition,
            check_resume(check, o),
        ),
        UnmountView::Locating { partition, path } => match o {
            OutcomeView::Exists(b) => if b {
                wait(
                    seq![started("Unmounting "@ + partition + "..."@)],
                    UnmountView::Unmounting { partition, path },
                    tool_within("umount"@, seq![path], UNMOUNT_TIMEOUT_SECS),
                )
            } else {
                abort(Seq::empty(), ErrorKind::NotFound, missing_device(path))
            },
            _ => stray(),
        },
        UnmountView::Unmounting { partition, path } => match o {
            OutcomeView::Tool(ToolResultView::NotRun { error }) => abort(
                seq![ended()],
                ErrorKind::ToolExecution,
                "Failed to unmount: "@ + error,
            ),
            OutcomeView::Tool(ToolResultView::TimedOut) => unmount_detach(partition, path),
            OutcomeView::Tool(ToolResultView::Exited { success, stderr, .. }) => if success {
                wait(
                    seq![ended()],
                    UnmountView::Cleaning { partition },
                    tool("rmdir"@, seq![mount_point(partition)]),
                )
            } else if says_busy(stderr) {
                unmount_detach(partition, path)
            } else {
                abort(seq![ended()], ErrorKind::ToolExecution, "Unmount failed: "@ + stderr)
            },
            _ => stray(),
        },
        UnmountView::Detaching { partition } => match o {
            OutcomeView::Tool(ToolResultView::Exited { success, stderr, .. }) => if success {
                wait(
                    seq![ended()],
                    UnmountView::CleaningDetached { partition },
                    tool("rmdir"@, seq![mount_point(partition)]),
                )
            } else {
                abort(seq![ended()], ErrorKind::ToolExecution, "Lazy unmount failed: "@ + stderr)
            },
            OutcomeView::Tool(_) => abort(
                seq![ended()],
                ErrorKind::ToolExecution,
                "Failed to lazy unmount"@,
            ),
            _ => stray(),
        },
        UnmountView::Cleaning { partition } => match o {
            OutcomeView::Tool(_) => finish(seq![info("Unmounted "@ + partition)], ()),
            _ => stray(),
        },
        UnmountView::CleaningDetached { partition } => match o {
            OutcomeView::Tool(_) => finish(
                seq![
                    warning(
                        "Lazy unmount initiated for "@ + partition + ". Device still in use."@,
                    ),
                ],
                (),
            ),
            _ => stray(),
        },
    }
}

fn scanned(partition: String, status: LuksStatus) -> (t: Turn<Unmount, ()>)
    ensures
        t@ == unmount_scanned(partition@, status@),
{
    if status.is_active {
        Turn::abort(
            ev0(),
            ErrorKind::Precondition,
            join2(
                partition.as_str(),
                " is an encrypted device that is unlocked. Lock it first instead of unmounting.",
            ),
        )
    } else {
        let t = MountCheck::start(partition.as_str());
        lift_check(partition, t)
    }
}

fn checked(partition: String, m: Mounted) -> (t: Turn<Unmount, ()>)
    ensures
        t@ == unmount_checked(partition@, m@),
{
    if m.mounted {
        let action = Action::ProbePath(copy(m.path.as_str()));
        Turn::wait(ev0(), Unmount::Locating { partition, path: m.path }, action)
    } else {
        Turn::finish(ev1(Event::warning(join2(partition.as_str(), " not mounted"))), ())
    }
}

fn lift_scan(partition: String, t: Turn<StatusScan, LuksStatus>) -> (r: Turn<Unmount, ()>)
    ensures
        r@ == unmount_scan(partition@, t@),
{
    let Turn { events, flow } = t;
    match flow {
        Flow::Wait(s, a) => Turn::wait(events, Unmount::Scanning { partition, scan: s }, a),
        Flow::Done(Err(e)) => Turn::abort_with(events, e),
        Flow::Done(Ok(st)) => scanned(partition, st).after(events),
    }
}

fn lift_check(partition: String, t: Turn<MountCheck, Mounted>) -> (r: Turn<Unmount, ()>)
    ensures
        r@ == unmount_check(partition@, t@),
{
    let Turn { events, flow } = t;
    match flow {
        Flow::Wait(c, a) => Turn::wait(events, Unmount::Checking { partition, check: c }, a),
        Flow::Done(Err(e)) => Turn::abort_with(events, e),
        Flow::Done(Ok(m)) => checked(partition, m).after(events),
    }
}

fn detach(partition: String, path: String) -> (t: Turn<Unmount, ()>)
    ensures
        t@ == unmount_detach(partition@, path@),
{
    let events = ev3(
        Event::ended(),
        Event::info(copy("Device is busy. Attempting lazy unmount...")),
        Event::started(join3("Lazy unmounting ", partition.as_str(), "...")),
    );
    let action = run("umount", args2("-l", path.as_str()));
    Turn::wait(events, Unmount::Detaching { partition }, action)
}

impl Unmount {
    /// Begins to unmount the partition of the given name.
    pub fn start(partition: &str) -> (t: Turn<Unmount, ()>)
        ensures
            t@ == unmount_start(partition@),
    {
        match validate_device_name(partition) {
            Err(e) => Turn::abort(ev0(), ErrorKind::Validation, e.message),
            Ok(()) => Turn::wait(
                ev0(),
                Unmount::Probing { partition: copy(partition) },
                ask_luks(partition),
            ),
        }
    }

    /// Continues with the outcome of the action that was waited for.
    pub fn resume(self, outcome: Outcome) -> (t: Turn<Unmount, ()>)
        ensures
            t@ == unmount_resume(self@, outcome@),
    {
        match self {
            Unmount::Probing { partition } => match outcome {
                Outcome::Tool(_) => {
                    if outcome.succeeded() {
                        let t = StatusScan::start(partition.as_str());
                        lift_scan(partition, t)
                    } else {
                        let t = MountCheck::start(partition.as_str());
                        lift_check(partition, t)
                    }
                },
                _ => Turn::stray(),
            },
            Unmount::Scanning { partition, scan } => lift_scan(partition, scan.resume(outcome)),
            Unmount::Checking { partition, check } => lift_check(partition, check.resume(outcome)),
            Unmount::Locating { partition, path } => match outcome {
                Outcome::Exists(b) => {
                    if b {
                        let events = ev1(
                            Event::started(join3("Unmounting ", partition.as_str(), "...")),
                        );
                        let action = run_within(
                            "umount",
                            args1(path.as_str()),
                            UNMOUNT_TIMEOUT_SECS,
                        );
                        Turn::wait(events, Unmount::Unmounting { partition, path }, action)
                    } else {
                        Turn::abort(ev0(), ErrorKind::NotFound, missing_device_text(path.as_str()))
                    }
                },
                _ => Turn::stray(),
            },
            Unmount::Unmounting { partition, path } => match outcome {
                Outcome::Tool(ToolResult::NotRun { error }) => Turn::abort(
                    ev1(Event::ended()),
                    ErrorKind::ToolExecution,
                    join2("Failed to unmount: ", error.as_str()),
                ),
                Outcome::Tool(ToolResult::TimedOut) => detach(partition, path),
                Outcome::Tool(ToolResult::Exited { success, stderr, .. }) => {
                    if success {
                        let action = run("rmdir", args1(mount_dir(partition.as_str()).as_str()));
                        Turn::wait(ev1(Event::ended()), Unmount::Cleaning { partition }, action)
                    } else if contains(stderr.as_str(), "target is busy") || contains(
                        stderr.as_str(),
                        "device is busy",
                    ) {
                        detach(partition, path)
                    } else {
                        Turn::abort(
                            ev1(Event::ended()),
                            ErrorKind::ToolExecution,
                            join2("Unmount failed: ", stderr.as_str()),
                        )
                    }
                },
                _ => Turn::stray(),
            },
            Unmount::Detaching { partition } => match outcome {
                Outcome::Tool(ToolResult::Exited { success, stderr, .. }) => {
                    if success {
                        let action = run("rmdir", args1(mount_dir(partition.as_str()).as_str()));
                        Turn::wait(
                            ev1(Event::ended()),
                            Unmount::CleaningDetached { partition },
                            action,
                        )
                    } else {
                        Turn::abort(
                            ev1(Event::ended()),
                            ErrorKind::ToolExecution,
                            join2("Lazy unmount failed: ", stderr.as_str()),
                        )
                    }
                },
                Outcome::Tool(_) => Turn::abort(
                    ev1(Event::ended()),
                    ErrorKind::ToolExecution,
                    copy("Failed to lazy unmount"),
                ),
                _ => Turn::stray(),
            },
            Unmount::Cleaning { partition } => match outcome {
                Outcome::Tool(_) => Turn::finish(
                    ev1(Event::info(join2("Unmounted ", partition.as_str()))),
                    (),
                ),
                _ => Turn::stray(),
            },
            Unmount::CleaningDetached { partition } => match outcome {
                Outcome::Tool(_) => Turn::finish(
                    ev1(
                        Event::warning(
                            join3(
                                "Lazy unmount initiated for ",
                                partition.as_str(),
                                ". Device still in use.",
                            ),
                        ),
                    ),
                    (),
                ),
                _ => Turn::stray(),
            },
        }
    }
}

} // verus!
