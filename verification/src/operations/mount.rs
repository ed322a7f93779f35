//! Mounting a partition under `/mnt`.

use vstd::prelude::*;
use crate::device::{name_fault, validate_device_name};
use crate::engine::{
    abort, args1, args2, finish, lift, run, stray, succeeded, tool, wait, Action, ActionView, Flow,
    Outcome, OutcomeView, ToolResult, ToolResultView, Turn, TurnView,
};
use crate::error::{join2, join3, join4, ErrorKind};
use crate::event::{ev0, ev1, info, warning, Event};
use crate::operations::check::{
    ask_luks, check_resume, check_start, luks_query, CheckView, MountCheck, Mounted, MountedView,
};
use crate::operations::scan::{scan_resume, scan_start, ScanView, StatusScan};
use crate::operations::{LuksStatus, LuksStatusView};
use crate::text::copy;

verus! {

/// Where a partition of the given name is mounted.
pub open spec fn mount_point(partition: Seq<char>) -> Seq<char> {
    "/mnt/"@ + partition
}

/// What is said of a device node that does not exist.
pub open spec fn missing_device(path: Seq<char>) -> Seq<char> {
    "Device "@ + path
        + " does not exist. If this is a LUKS device, ensure it is unlocked first."@
}

/// Builds [`mount_point`].
pub fn mount_dir(partition: &str) -> (p: String)
    ensures
        p@ == mount_point(partition@),
{
    join2("/mnt/", partition)
}

/// Builds [`missing_device`].
pub fn missing_device_text(path: &str) -> (s: String)
    ensures
        s@ == missing_device(path@),
{
    join3(
        "Device ",
        path,
        " does not exist. If this is a LUKS device, ensure it is unlocked first.",
    )
}

/// The mounting of a partition, by the step it waits for.
#[derive(Debug, Clone, PartialEq, Eq)]
pub enum Mount {
    /// Is the partition an encrypted container?
    Probing { partition: String },
    /// It is; is it unlocked?
    Scanning { partition: String, scan: StatusScan },
    /// Is it mounted already?
    Checking { partition: String, check: MountCheck },
    /// Does its node exist?
    Locating { partition: String, path: String },
    /// The mount directory is being made.
    MakingDir { partition: String, path: String },
    /// The mount tool runs.
    Mounting { partition: String },
    /// The mount failed; the directory made for it is being removed.
    RollingBack { message: String },
}

/// The mathematical content of a [`Mount`].
pub enum MountView {
    Probing { partition: Seq<char> },
    Scanning { partition: Seq<char>, scan: ScanView },
    Checking { partition: Seq<char>, check: CheckView },
    Locating { partition: Seq<char>, path: Seq<char> },
    MakingDir { partition: Seq<char>, path: Seq<char> },
    Mounting { partition: Seq<char> },
    RollingBack { message: Seq<char> },
}

impl View for Mount {
    type V = MountView;

    open spec fn view(&self) -> MountView {
        match self {
            Mount::Probing { partition } => MountView::Probing { partition: partition@ },
            Mount::Scanning { partition, scan } => MountView::Scanning {
                partition: partition@,
                scan: scan@,
            },
            Mount::Checking { partition, check } => MountView::Checking {
                partition: partition@,
                check: check@,
            },
            Mount::Locating { partition, path } => MountView::Locating {
                partition: partition@,
                path: path@,
            },
            Mount::MakingDir { partition, path } => MountView::MakingDir {
                partition: partition@,
                path: path@,
            },
            Mount::Mounting { partition } => MountView::Mounting { partition: partition@ },
            Mount::RollingBack { message } => MountView::RollingBack { message: message@ },
        }
    }
}

/// The first turn. A name that is not valid ends the operation before
/// anything is asked of the host.
pub open spec fn mount_start(partition: Seq<char>) -> TurnView<MountView, ()> {
    match name_fault(partition) {
        Some(m) => abort(Seq::empty(), ErrorKind::Validation, m),
        None => wait(Seq::empty(), MountView::Probing { partition }, luks_query(partition)),
    }
}

/// The turn once it is known how an encrypted partition stands. Neither a
/// locked container nor the raw device of an unlocked one is mounted.
pub open spec fn mount_scanned(partition: Seq<char>, status: LuksStatusView) -> TurnView<
    MountView,
    (),
> {
    if status.is_active && status.mapper_name is Some {
        abort(
            Seq::empty(),
            ErrorKind::Precondition,
            partition + " is an unlocked encrypted device. Mount the mapper device instead: "@
                + status.mapper_name->0,
        )
    } else if status.is_active {
        mount_check(partition, check_start(partition))
    } else {
        abort(
            Seq::empty(),
            ErrorKind::Precondition,
            partition + " is a locked encrypted device. Unlock it first (press 'l')."@,
        )
    }
}

/// The turn once it is known whether the partition is mounted. To mount
/// what is mounted is no failure: a warning says so.
pub open spec fn mount_checked(partition: Seq<char>, m: MountedView) -> TurnView<MountView, ()> {
    if m.mounted {
        finish(seq![warning(partition + " already mounted"@)], ())
    } else {
        wait(
            Seq::empty(),
            MountView::Locating { partition, path: m.path },
            ActionView::ProbePath(m.path),
        )
    }
}

/// The turn that a turn of the status scan amounts to.
pub open spec fn mount_scan(
    partition: Seq<char>,
    t: TurnView<ScanView, LuksStatusView>,
) -> TurnView<MountView, ()> {
    lift(
        t,
        |s: ScanView| MountView::Scanning { partition, scan: s },
        |st: LuksStatusView| mount_scanned(partition, st),
    )
}

/// The turn that a turn of the mount check amounts to.
pub open spec fn mount_check(partition: Seq<char>, t: TurnView<CheckView, MountedView>)
    -> TurnView<MountView, ()> {
    lift(
        t,
        |c: CheckView| MountView::Checking { partition, check: c },
        |m: MountedView| mount_checked(partition, m),
    )
}

/// The turn on an outcome.
pub open spec fn mount_resume(s: MountView, o: OutcomeView) -> TurnView<MountView, ()> {
    match s {
        MountView::Probing { partition } => match o {
            OutcomeView::Tool(_) => if succeeded(o) {
                mount_scan(partition, scan_start(partition))
            } else {
                mount_check(partition, check_start(partition))
            },
            _ => stray(),
        },
        MountView::Scanning { partition, scan } => mount_scan(partition, scan_resume(scan, o)),
        MountView::Checking { partition, check } => mount_check(
            partition,
            check_resume(check, o),
        ),
        MountView::Locating { partition, path } => match o {
            OutcomeView::Exists(b) => if b {
                wait(
                    Seq::empty(),
                    MountView::MakingDir { partition, path },
                    tool("mkdir"@, seq!["-p"@, mount_point(partition)]),
                )
            } else {
                abort(Seq::empty(), ErrorKind::NotFound, missing_device(path))
            },
            _ => stray(),
        },
        MountView::MakingDir { partition, path } => match o {
            OutcomeView::Tool(ToolResultView::Exited { .. }) => wait(
                Seq::empty(),
                MountView::Mounting { partition },
                tool("mount"@, seq![path, mount_point(partition)]),
            ),
            OutcomeView::Tool(_) => abort(
                Seq::empty(),
                ErrorKind::ToolExecution,
                "Failed to create mount point"@,
            ),
            _ => stray(),
        },
        MountView::Mounting { partition } => match o {
            OutcomeView::Tool(ToolResultView::Exited { success, stderr, .. }) => if success {
                finish(
                    seq![info("Mounted "@ + partition + " at "@ + mount_point(partition))],
                    (),
                )
            } else {
                wait(
                    Seq::empty(),
                    MountView::RollingBack { message: "Mount failed: "@ + stderr },
                    tool("rmdir"@, seq![mount_point(partition)]),
                )
            },
            OutcomeView::Tool(_) => abort(
                Seq::empty(),
                ErrorKind::ToolExecution,
                "Failed to mount partition"@,
            ),
            _ => stray(),
        },
        MountView::RollingBack { message } => match o {
            OutcomeView::Tool(_) => abort(Seq::empty(), ErrorKind::ToolExecution, message),
            _ => stray(),
        },
    }
}

fn scanned(partition: String, status: LuksStatus) -> (t: Turn<Mount, ()>)
    ensures
        t@ == mount_scanned(partition@, status@),
{
    if status.is_active {
        match status.mapper_name {
            Some(m) => Turn::abort(
                ev0(),
                ErrorKind::Precondition,
                join3(
                    partition.as_str(),
                    " is an unlocked encrypted device. Mount the mapper device instead: ",
                    m.as_str(),
                ),
            ),
            None => {
                let t = MountCheck::start(partition.as_str());
                lift_check(partition, t)
            },
        }
    } else {
        Turn::abort(
            ev0(),
            ErrorKind::Precondition,
            join2(
                partition.as_str(),
                " is a locked encrypted device. Unlock it first (press 'l').",
            ),
        )
    }
}

fn checked(partition: String, m: Mounted) -> (t: Turn<Mount, ()>)
    ensures
        t@ == mount_checked(partition@, m@),
{
    if m.mounted {
        Turn::finish(ev1(Event::warning(join2(partition.as_str(), " already mounted"))), ())
    } else {
        let action = Action::ProbePath(copy(m.path.as_str()));
        Turn::wait(ev0(), Mount::Locating { partition, path: m.path }, action)
    }
}

fn lift_scan(partition: String, t: Turn<StatusScan, LuksStatus>) -> (r: Turn<Mount, ()>)
    ensures
        r@ == mount_scan(partition@, t@),
{
    let Turn { events, flow } = t;
    match flow {
        Flow::Wait(s, a) => Turn::wait(events, Mount::Scanning { partition, scan: s }, a),
        Flow::Done(Err(e)) => Turn::abort_with(events, e),
        Flow::Done(Ok(st)) => scanned(partition, st).after(events),
    }
}

fn lift_check(partition: String, t: Turn<MountCheck, Mounted>) -> (r: Turn<Mount, ()>)
    ensures
        r@ == mount_check(partition@, t@),
{
    let Turn { events, flow } = t;
    match flow {
        Flow::Wait(c, a) => Turn::wait(events, Mount::Checking { partition, check: c }, a),
        Flow::Done(Err(e)) => Turn::abort_with(events, e),
        Flow::Done(Ok(m)) => checked(partition, m).after(events),
    }
}

impl Mount {
    /// Begins to mount the partition of the given name.
    pub fn start(partition: &str) -> (t: Turn<Mount, ()>)
        ensures
            t@ == mount_start(partition@),
    {
        match validate_device_name(partition) {
            Err(e) => Turn::abort(ev0(), ErrorKind::Validation, e.message),
            Ok(()) => Turn::wait(
                ev0(),
                Mount::Probing { partition: copy(partition) },
                ask_luks(partition),
            ),
        }
    }

    /// Continues with the outcome of the action that was waited for.
    pub fn resume(self, outcome: Outcome) -> (t: Turn<Mount, ()>)
        ensures
            t@ == mount_resume(self@, outcome@),
    {
        match self {
            Mount::Probing { partition } => match outcome {
                Outcome::Tool(_) => {
                    if outcome.succeeded() {
                        let t = StatusScan::start(partition.as_str());
                        lift_scan(partition, t)
                    } else {
                        let t = MountCheck::start(partition.as_str());
                        lift_check(partition, t)
                    }
                },
                _ => Turn::stray(),
            },
            Mount::Scanning { partition, scan } => lift_scan(partition, scan.resume(outcome)),
            Mount::Checking { partition, check } => lift_check(partition, check.resume(outcome)),
            Mount::Locating { partition, path } => match outcome {
                Outcome::Exists(b) => {
                    if b {
                        let action = run("mkdir", args2("-p", mount_dir(partition.as_str()).as_str()));
                        Turn::wait(ev0(), Mount::MakingDir { partition, path }, action)
                    } else {
                        Turn::abort(ev0(), ErrorKind::NotFound, missing_device_text(path.as_str()))
                    }
                },
                _ => Turn::stray(),
            },
            Mount::MakingDir { partition, path } => match outcome {
                Outcome::Tool(ToolResult::Exited { .. }) => {
                    let action = run(
                        "mount",
                        args2(path.as_str(), mount_dir(partition.as_str()).as_str()),
                    );
                    Turn::wait(ev0(), Mount::Mounting { partition }, action)
                },
                Outcome::Tool(_) => Turn::abort(
                    ev0(),
                    ErrorKind::ToolExecution,
                    copy("Failed to create mount point"),
                ),
                _ => Turn::stray(),
            },
            Mount::Mounting { partition } => match outcome {
                Outcome::Tool(ToolResult::Exited { success, stderr, .. }) => {
                    if success {
                        let text = join4(
                            "Mounted ",
                            partition.as_str(),
                            " at ",
                            mount_dir(partition.as_str()).as_str(),
                        );
                        Turn::finish(ev1(Event::info(text)), ())
                    } else {
                        let action = run("rmdir", args1(mount_dir(partition.as_str()).as_str()));
                        Turn::wait(
                            ev0(),
                            Mount::RollingBack { message: join2("Mount failed: ", stderr.as_str()) },
                            action,
                        )
                    }
                },
                Outcome::Tool(_) => Turn::abort(
                    ev0(),
                    ErrorKind::ToolExecution,
                    copy("Failed to mount partition"),
                ),
                _ => Turn::stray(),
            },
            Mount::RollingBack { message } => match outcome {
                Outcome::Tool(_) => Turn::abort(ev0(), ErrorKind::ToolExecution, message),
                _ => Turn::stray(),
            },
        }
    }
}

} // verus!
