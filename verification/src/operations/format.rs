//! Making a filesystem on a partition.

use vstd::prelude::*;
use crate::device::{name_fault, validate_device_name};
use crate::engine::{
    abort, args1, args2, args3, args4, finish, lift, run, stray, succeeded, tool, wait, Action,
    ActionView, Flow, Outcome, OutcomeView, ToolResult, ToolResultView, Turn, TurnView,
};
use crate::error::{join2, join3, join4, join5, ErrorKind};
use crate::event::{ended, ev0, ev1, ev2, info, started, Event};
use crate::operations::check::{
    ask_luks, check_resume, check_start, luks_query, CheckView, MountCheck, Mounted, MountedView,
};
use crate::operations::mount::{missing_device, missing_device_text};
use crate::operations::scan::{scan_resume, scan_start, ScanView, StatusScan};
use crate::operations::{
    fs_name, maker_args, maker_tool, FilesystemType, LuksStatus, LuksStatusView,
};
use crate::text::{copy, texts};

verus! {

/// Builds [`maker_args`].
pub fn build_maker_args(fs: FilesystemType, path: &str) -> (v: Vec<String>)
    ensures
        texts(v@) == maker_args(fs, path@),
{
    match fs {
        FilesystemType::Ext4 => args4("-F", "-E", "lazy_itable_init=1,lazy_journal_init=1", path),
        FilesystemType::Fat32 => args3("-F", "32", path),
        FilesystemType::Ntfs => args3("-f", "-Q", path),
        FilesystemType::Exfat => args1(path),
        FilesystemType::Btrfs => args2("-f", path),
        FilesystemType::Xfs => args2("-f", path),
    }
}

/// The making of a filesystem, by the step it waits for. `target` is the
/// device that is formatted: the partition itself, or the mapping as which
/// an encrypted partition is unlocked.
#[derive(Debug, Clone, PartialEq, Eq)]
pub enum Format {
    /// Is the partition an encrypted container?
    Probing { partition: String, fs: FilesystemType },
    /// It is; is it unlocked?
    Scanning { partition: String, fs: FilesystemType, scan: StatusScan },
    /// Is the target mounted?
    Checking { target: String, fs: FilesystemType, check: MountCheck },
    /// Does the target's node exist?
    Locating { target: String, fs: FilesystemType, path: String },
    /// Is the maker tool installed?
    FindingTool { target: String, fs: FilesystemType, path: String },
    /// The maker tool runs.
    Making { target: String, fs: FilesystemType },
}

/// The mathematical content of a [`Format`].
pub enum FormatView {
    Probing { partition: Seq<char>, fs: FilesystemType },
    Scanning { partition: Seq<char>, fs: FilesystemType, scan: ScanView },
    Checking { target: Seq<char>, fs: FilesystemType, check: CheckView },
    Locating { target: Seq<char>, fs: FilesystemType, path: Seq<char> },
    FindingTool { target: Seq<char>, fs: FilesystemType, path: Seq<char> },
    Making { target: Seq<char>, fs: FilesystemType },
}

impl View for Format {
    type V = FormatView;

    open spec fn view(&self) -> FormatView {
        match self {
            Format::Probing { partition, fs } => FormatView::Probing {
                partition: partition@,
                fs: *fs,
            },
            Format::Scanning { partition, fs, scan } => FormatView::Scanning {
                partition: partition@,
                fs: *fs,
                scan: scan@,
            },
            Format::Checking { target, fs, check } => FormatView::Checking {
                target: target@,
                fs: *fs,
                check: check@,
            },
            Format::Locating { target, fs, path } => FormatView::Locating {
                target: target@,
                fs: *fs,
                path: path@,
            },
            Format::FindingTool { target, fs, path } => FormatView::FindingTool {
                target: target@,
                fs: *fs,
                path: path@,
            },
            Format::Making { target, fs } => FormatView::Making { target: target@, fs: *fs },
        }
    }
}

/// The first turn. A name that is not valid ends the operation before
/// anything is asked of the host.
pub open spec fn format_start(partition: Seq<char>, fs: FilesystemType) -> TurnView<
    FormatView,
    (),
> {
    match name_fault(partition) {
        Some(m) => abort(Seq::empty(), ErrorKind::Validation, m),
        None => wait(Seq::empty(), FormatView::Probing { partition, fs }, luks_query(partition)),
    }
}

/// The turn once it is known how an encrypted partition stands. An unlocked
/// one is formatted through its mapping; a locked one is not formatted.
pub open spec fn format_scanned(
    partition: Seq<char>,
    fs: FilesystemType,
    status: LuksStatusView,
) -> TurnView<FormatView, ()> {
    if status.is_active && status.mapper_name is Some {
        let mapper = status.mapper_name->0;
        crate::engine::after(
            seq![
                info(
                    partition
                        + " is encrypted and unlocked. Formatting the encrypted filesystem at "@
                        + mapper + "..."@,
                ),
            ],
            format_check(mapper, fs, check_start(mapper)),
        )
    } else if status.is_active {
        abort(
            Seq::empty(),
            ErrorKind::NotFound,
            "LUKS device is active but mapper name not found"@,
        )
    } else {
        abort(
            Seq::empty(),
            ErrorKind::Precondition,
            partition
                + " is encrypted and locked. Unlock it first (press 'l') to format the encrypted filesystem."@,
        )
    }
}

/// The turn once it is known whether the target is mounted.
pub open spec fn format_checked(target: Seq<char>, fs: FilesystemType, m: MountedView)
    -> TurnView<FormatView, ()> {
    if m.mounted {
        abort(
            Seq::empty(),
            ErrorKind::Precondition,
            target + " is mounted. Unmount it first (press 'm')"@,
        )
    } else {
        wait(
            Seq::empty(),
            FormatView::Locating { target, fs, path: m.path },
            ActionView::ProbePath(m.path),
        )
    }
}

/// The turn that a turn of the status scan amounts to.
pub open spec fn format_scan(
    partition: Seq<char>,
    fs: FilesystemType,
    t: TurnView<ScanView, LuksStatusView>,
) -> TurnView<FormatView, ()> {
    lift(
        t,
        |s: ScanView| FormatView::Scanning { partition, fs, scan: s },
        |st: LuksStatusView| format_scanned(partition, fs, st),
    )
}

/// The turn that a turn of the mount check amounts to.
pub open spec fn format_check(
    target: Seq<char>,
    fs: FilesystemType,
    t: TurnView<CheckView, MountedView>,
) -> TurnView<FormatView, ()> {
    lift(
        t,
        |c: CheckView| FormatView::Checking { target, fs, check: c },
        |m: MountedView| format_checked(target, fs, m),
    )
}

/// The turn on an outcome. The maker tool is looked for before it is run,
/// so that a missing tool is told apart from a failed run.
pub open spec fn format_resume(s: FormatView, o: OutcomeView) -> TurnView<FormatView, ()> {
    match s {
        FormatView::Probing { partition, fs } => match o {
            OutcomeView::Tool(_) => if succeeded(o) {
                format_scan(partition, fs, scan_start(partition))
            } else {
                format_check(partition, fs, check_start(partition))
            },
            _ => stray(),
        },
        FormatView::Scanning { partition, fs, scan } => format_scan(
            partition,
            fs,
            scan_resume(scan, o),
        ),
        FormatView::Checking { target, fs, check } => format_check(
            target,
            fs,
            check_resume(check, o),
        ),
        FormatView::Locating { target, fs, path } => match o {
            OutcomeView::Exists(b) => if b {
                wait(
                    Seq::empty(),
                    FormatView::FindingTool { target, fs, path },
                    tool("which"@, seq![maker_tool(fs)]),
                )
            } else {
                abort(Seq::empty(), ErrorKind::NotFound, missing_device(path))
            },
            _ => stray(),
        },
        FormatView::FindingTool { target, fs, path } => match o {
            OutcomeView::Tool(_) => if succeeded(o) {
                wait(
                    seq![started("Formatting "@ + target + " as "@ + fs_name(fs) + "..."@)],
                    FormatView::Making { target, fs },
                    tool(maker_tool(fs), maker_args(fs, path)),
                )
            } else {
                abort(
                    Seq::empty(),
                    ErrorKind::ToolMissing,
                    "Formatting tool '"@ + maker_tool(fs)
                        + "' not found. Install the required package."@,
                )
            },
            _ => stray(),
        },
        FormatView::Making { target, fs } => match o {
            OutcomeView::Tool(ToolResultView::NotRun { error }) => abort(
                seq![ended()],
                ErrorKind::ToolExecution,
                "Failed to execute "@ + maker_tool(fs) + ": "@ + error,
            ),
            OutcomeView::Tool(ToolResultView::TimedOut) => abort(
                seq![ended()],
                ErrorKind::Timeout,
                "Failed to execute "@ + maker_tool(fs),
            ),
            OutcomeView::Tool(ToolResultView::Exited { success, stderr, .. }) => if success {
                finish(
                    seq![ended(), info("Formatted "@ + target + " as "@ + fs_name(fs))],
                    (),
                )
            } else {
                abort(seq![ended()], ErrorKind::ToolExecution, "Format failed: "@ + stderr)
            },
            _ => stray(),
        },
    }
}

fn scanned(partition: String, fs: FilesystemType, status: LuksStatus) -> (t: Turn<Format, ()>)
    ensures
        t@ == format_scanned(partition@, fs, status@),
{
    if status.is_active {
        match status.mapper_name {
            Some(mapper) => {
                let events = ev1(
                    Event::info(
                        join4(
                            partition.as_str(),
                            " is encrypted and unlocked. Formatting the encrypted filesystem at ",
                            mapper.as_str(),
                            "...",
                        ),
                    ),
                );
                let t = MountCheck::start(mapper.as_str());
                lift_check(mapper, fs, t).after(events)
            },
            None => Turn::abort(
                ev0(),
                ErrorKind::NotFound,
                copy("LUKS device is active but mapper name not found"),
            ),
        }
    } else {
        Turn::abort(
            ev0(),
            ErrorKind::Precondition,
            join2(
                partition.as_str(),
                " is encrypted and locked. Unlock it first (press 'l') to format the encrypted filesystem.",
            ),
        )
    }
}

fn checked(target: String, fs: FilesystemType, m: Mounted) -> (t: Turn<Format, ()>)
    ensures
        t@ == format_checked(target@, fs, m@),
{
    if m.mounted {
        Turn::abort(
            ev0(),
            ErrorKind::Precondition,
            join2(target.as_str(), " is mounted. Unmount it first (press 'm')"),
        )
    } else {
        let action = Action::ProbePath(copy(m.path.as_str()));
        Turn::wait(ev0(), Format::Locating { target, fs, path: m.path }, action)
    }
}

fn lift_scan(partition: String, fs: FilesystemType, t: Turn<StatusScan, LuksStatus>) -> (r: Turn<
    Format,
    (),
>)
    ensures
        r@ == format_scan(partition@, fs, t@),
{
    let Turn { events, flow } = t;
    match flow {
        Flow::Wait(s, a) => Turn::wait(events, Format::Scanning { partition, fs, scan: s }, a),
        Flow::Done(Err(e)) => Turn::abort_with(events, e),
        Flow::Done(Ok(st)) => scanned(partition, fs, st).after(events),
    }
}

fn lift_check(target: String, fs: FilesystemType, t: Turn<MountCheck, Mounted>) -> (r: Turn<
    Format,
    (),
>)
    ensures
        r@ == format_check(target@, fs, t@),
{
    let Turn { events, flow } = t;
    match flow {
        Flow::Wait(c, a) => Turn::wait(events, Format::Checking { target, fs, check: c }, a),
        Flow::Done(Err(e)) => Turn::abort_with(events, e),
        Flow::Done(Ok(m)) => checked(target, fs, m).after(events),
    }
}

impl Format {
    /// Begins to format the partition of the given name.
    pub fn start(partition: &str, fs: FilesystemType) -> (t: Turn<Format, ()>)
        ensures
            t@ == format_start(partition@, fs),
    {
        match validate_device_name(partition) {
            Err(e) => Turn::abort(ev0(), ErrorKind::Validation, e.message),
            Ok(()) => Turn::wait(
                ev0(),
                Format::Probing { partition: copy(partition), fs },
                ask_luks(partition),
            ),
        }
    }

    /// Continues with the outcome of the action that was waited for.
    pub fn resume(self, outcome: Outcome) -> (t: Turn<Format, ()>)
        ensures
            t@ == format_resume(self@, outcome@),
    {
        match self {
            Format::Probing { partition, fs } => match outcome {
                Outcome::Tool(_) => {
                    if outcome.succeeded() {
                        let t = StatusScan::start(partition.as_str());
                        lift_scan(partition, fs, t)
                    } else {
                        let t = MountCheck::start(partition.as_str());
                        lift_check(partition, fs, t)
                    }
                },
                _ => Turn::stray(),
            },
            Format::Scanning { partition, fs, scan } => lift_scan(
                partition,
                fs,
                scan.resume(outcome),
            ),
            Format::Checking { target, fs, check } => lift_check(
                target,
                fs,
                check.resume(outcome),
            ),
            Format::Locating { target, fs, path } => match outcome {
                Outcome::Exists(b) => {
                    if b {
                        let action = run("which", args1(fs.tool()));
                        Turn::wait(ev0(), Format::FindingTool { target, fs, path }, action)
                    } else {
                        Turn::abort(ev0(), ErrorKind::NotFound, missing_device_text(path.as_str()))
                    }
                },
                _ => Turn::stray(),
            },
            Format::FindingTool { target, fs, path } => match outcome {
                Outcome::Tool(_) => {
                    if outcome.succeeded() {
                        let events = ev1(
                            Event::started(
                                join5("Formatting ", target.as_str(), " as ", fs.as_str(), "..."),
                            ),
                        );
                        let action = run(fs.tool(), build_maker_args(fs, path.as_str()));
                        Turn::wait(events, Format::Making { target, fs }, action)
                    } else {
                        Turn::abort(
                            ev0(),
                            ErrorKind::ToolMissing,
                            join3(
                                "Formatting tool '",
                                fs.tool(),
                                "' not found. Install the required package.",
                            ),
                        )
                    }
                },
                _ => Turn::stray(),
            },
            Format::Making { target, fs } => match outcome {
                Outcome::Tool(ToolResult::NotRun { error }) => Turn::abort(
                    ev1(Event::ended()),
                    ErrorKind::ToolExecution,
                    join4("Failed to execute ", fs.tool(), ": ", error.as_str()),
                ),
                Outcome::Tool(ToolResult::TimedOut) => Turn::abort(
                    ev1(Event::ended()),
                    ErrorKind::Timeout,
                    join2("Failed to execute ", fs.tool()),
                ),
                Outcome::Tool(ToolResult::Exited { success, stderr, .. }) => {
                    if success {
                        Turn::finish(
                            ev2(
                                Event::ended(),
                                Event::info(
                                    join4("Formatted ", target.as_str(), " as ", fs.as_str()),
                                ),
                            ),
                            (),
                        )
                    } else {
                        Turn::abort(
                            ev1(Event::ended()),
                            ErrorKind::ToolExecution,
                            join2("Format failed: ", stderr.as_str()),
                        )
                    }
                },
                _ => Turn::stray(),
            },
        }
    }
}

} // verus!
