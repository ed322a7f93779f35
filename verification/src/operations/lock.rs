//! Locking and unlocking an encrypted device.

use vstd::prelude::*;
use crate::device::{mapper_node, mapper_path, name_fault, raw_node, raw_path, validate_device_name};
use crate::engine::{
    abort, args2, args3, finish, lift, run_fed, run_within, stray, succeeded, tool, tool_fed,
    tool_within, wait, Action, ActionView, Flow, Outcome, OutcomeView, ToolResult, ToolResultView,
    Turn, TurnView,
};
use crate::error::{join2, join3, join4, ErrorKind};
use crate::event::{ended, ev0, ev1, ev2, info, started, warning, Event};
use crate::operations::check::{ask_mounted, ask_settle, mount_query, settle_query};
use crate::operations::scan::{scan_resume, scan_start, ScanView, StatusScan};
use crate::operations::{LuksStatus, LuksStatusView};
use crate::text::{chars_of, contains, copy, has_sub, string_of, trim, trimmed};

verus! {

/// The seconds that closing a mapping is given.
pub const LOCK_TIMEOUT_SECS: u64 = 10;

/// The milliseconds waited after the device nodes have settled.
pub const SETTLE_PAUSE_MS: u64 = 500;

/// Whether the complaint of the closing tool says that the mapping is in
/// use.
pub open spec fn says_in_use(stderr: Seq<char>) -> bool {
    has_sub(stderr, "busy"@) || has_sub(stderr, "in use"@)
}

/// Whether the complaint of the opening tool says that the passphrase is
/// wrong.
pub open spec fn says_wrong_passphrase(stderr: Seq<char>) -> bool {
    has_sub(stderr, "No key available"@) || has_sub(stderr, "incorrect passphrase"@)
}

/// What is written to a tool that reads a passphrase: the passphrase and a
/// line feed.
pub open spec fn passphrase_line(passphrase: Seq<char>) -> Seq<char> {
    passphrase + seq!['\n']
}

/// Builds [`passphrase_line`].
pub fn passphrase_input(passphrase: &str) -> (s: String)
    ensures
        s@ == passphrase_line(passphrase@),
{
    let mut v = chars_of(passphrase);
    v.push('\n');
    string_of(&v)
}

/// `s` without white space at its ends.
pub fn trim_text(s: &str) -> (r: String)
    ensures
        r@ == trimmed(s@),
{
    let v = chars_of(s);
    let t = trim(&v);
    string_of(&t)
}

/// The locking of a mapping, by the step it waits for.
#[derive(Debug, Clone, PartialEq, Eq)]
pub enum Lock {
    /// Is the mapping mounted?
    Checking { mapper: String },
    /// The closing tool runs, under its time limit.
    Closing { mapper: String },
    /// The device nodes settle.
    Settling { mapper: String },
    /// A short rest after settling.
    Resting { mapper: String },
}

/// The mathematical content of a [`Lock`].
pub enum LockView {
    Checking { mapper: Seq<char> },
    Closing { mapper: Seq<char> },
    Settling { mapper: Seq<char> },
    Resting { mapper: Seq<char> },
}

impl View for Lock {
    type V = LockView;

    open spec fn view(&self) -> LockView {
        match self {
            Lock::Checking { mapper } => LockView::Checking { mapper: mapper@ },
            Lock::Closing { mapper } => LockView::Closing { mapper: mapper@ },
            Lock::Settling { mapper } => LockView::Settling { mapper: mapper@ },
            Lock::Resting { mapper } => LockView::Resting { mapper: mapper@ },
        }
    }
}

/// The first turn of a lock. A name that is not valid ends the operation
/// before anything is asked of the host.
pub open spec fn lock_start(mapper: Seq<char>) -> TurnView<LockView, ()> {
    match name_fault(mapper) {
        Some(m) => abort(Seq::empty(), ErrorKind::Validation, m),
        None => wait(
            Seq::empty(),
            LockView::Checking { mapper },
            mount_query(mapper_path(mapper)),
        ),
    }
}

/// The turn of a lock on an outcome. A mounted mapping is not closed. A
/// closing tool that exceeds its time, or says that the mapping is in use,
/// fails with a message of its own.
pub open spec fn lock_resume(s: LockView, o: OutcomeView) -> TurnView<LockView, ()> {
    match s {
        LockView::Checking { mapper } => match o {
            OutcomeView::Tool(_) => if succeeded(o) {
                abort(
                    Seq::empty(),
                    ErrorKind::Precondition,
                    mapper + " is mounted. Unmount it first."@,
                )
            } else {
                wait(
                    seq![started("Locking "@ + mapper + "..."@)],
                    LockView::Closing { mapper },
                    tool_within("cryptsetup"@, seq!["close"@, mapper], LOCK_TIMEOUT_SECS),
                )
            },
            _ => stray(),
        },
        LockView::Closing { mapper } => match o {
            OutcomeView::Tool(ToolResultView::NotRun { error }) => abort(
                seq![ended()],
                ErrorKind::ToolExecution,
                "Failed to lock: "@ + error,
            ),
            OutcomeView::Tool(ToolResultView::TimedOut) => abort(
                seq![ended()],
                ErrorKind::Timeout,
                "Lock operation timed out. Device may still be in use. Try closing any applications accessing the device."@,
            ),
            OutcomeView::Tool(ToolResultView::Exited { success, stderr, .. }) => if success {
                wait(Seq::empty(), LockView::Settling { mapper }, settle_query())
            } else if says_in_use(stderr) {
                abort(
                    seq![ended()],
                    ErrorKind::ToolExecution,
                    "Device is busy. Close any applications using "@ + mapper
                        + " and try again."@,
                )
            } else {
                abort(
                    seq![ended()],
                    ErrorKind::ToolExecution,
                    "Lock failed: "@ + trimmed(stderr),
                )
            },
            _ => stray(),
        },
        LockView::Settling { mapper } => match o {
            OutcomeView::Tool(_) => wait(
                Seq::empty(),
                LockView::Resting { mapper },
                ActionView::Pause(SETTLE_PAUSE_MS),
            ),
            _ => stray(),
        },
        LockView::Resting { mapper } => match o {
            OutcomeView::Resumed => finish(seq![ended(), info("Locked "@ + mapper)], ()),
            _ => stray(),
        },
    }
}

impl Lock {
    /// Begins to lock the mapping of the given name.
    pub fn start(mapper: &str) -> (t: Turn<Lock, ()>)
        ensures
            t@ == lock_start(mapper@),
    {
        match validate_device_name(mapper) {
            Err(e) => Turn::abort(ev0(), ErrorKind::Validation, e.message),
            Ok(()) => Turn::wait(
                ev0(),
                Lock::Checking { mapper: copy(mapper) },
                ask_mounted(mapper_node(mapper).as_str()),
            ),
        }
    }

    /// Continues with the outcome of the action that was waited for.
    pub fn resume(self, outcome: Outcome) -> (t: Turn<Lock, ()>)
        ensures
            t@ == lock_resume(self@, outcome@),
    {
        match self {
            Lock::Checking { mapper } => match outcome {
                Outcome::Tool(_) => {
                    if outcome.succeeded() {
                        Turn::abort(
                            ev0(),
                            ErrorKind::Precondition,
                            join2(mapper.as_str(), " is mounted. Unmount it first."),
                        )
                    } else {
                        let events = ev1(Event::started(join3("Locking ", mapper.as_str(), "...")));
                        let action = run_within(
                            "cryptsetup",
                            args2("close", mapper.as_str()),
                            LOCK_TIMEOUT_SECS,
                        );
                        Turn::wait(events, Lock::Closing { mapper }, action)
                    }
                },
                _ => Turn::stray(),
            },
            Lock::Closing { mapper } => match outcome {
                Outcome::Tool(ToolResult::NotRun { error }) => Turn::abort(
                    ev1(Event::ended()),
                    ErrorKind::ToolExecution,
                    join2("Failed to lock: ", error.as_str()),
                ),
                Outcome::Tool(ToolResult::TimedOut) => Turn::abort(
                    ev1(Event::ended()),
                    ErrorKind::Timeout,
                    copy(
                        "Lock operation timed out. Device may still be in use. Try closing any applications accessing the device.",
                    ),
                ),
                Outcome::Tool(ToolResult::Exited { success, stderr, .. }) => {
                    if success {
                        Turn::wait(ev0(), Lock::Settling { mapper }, ask_settle())
                    } else if contains(stderr.as_str(), "busy") || contains(
                        stderr.as_str(),
                        "in use",
                    ) {
                        Turn::abort(
                            ev1(Event::ended()),
                            ErrorKind::ToolExecution,
                            join3(
                                "Device is busy. Close any applications using ",
                                mapper.as_str(),
                                " and try again.",
                            ),
                        )
                    } else {
                        Turn::abort(
                            ev1(Event::ended()),
                            ErrorKind::ToolExecution,
                            join2("Lock failed: ", trim_text(stderr.as_str()).as_str()),
                        )
                    }
                },
                _ => Turn::stray(),
            },
            Lock::Settling { mapper } => match outcome {
                Outcome::Tool(_) => Turn::wait(
                    ev0(),
                    Lock::Resting { mapper },
                    Action::Pause(SETTLE_PAUSE_MS),
                ),
                _ => Turn::stray(),
            },
            Lock::Resting { mapper } => match outcome {
                Outcome::Resumed => Turn::finish(
                    ev2(Event::ended(), Event::info(join2("Locked ", mapper.as_str()))),
                    (),
                ),
                _ => Turn::stray(),
            },
        }
    }
}

/// The unlocking of an encrypted device, by the step it waits for.
#[derive(Debug, Clone, PartialEq, Eq)]
pub enum Unlock {
    /// Is the device unlocked already?
    Scanning { device: String, passphrase: String, mapper: String, scan: StatusScan },
    /// The opening tool runs.
    Opening { device: String, mapper: String },
    /// The device nodes settle.
    Settling { device: String, mapper: String },
    /// A short rest after settling.
    Resting { device: String, mapper: String },
}

/// The mathematical content of an [`Unlock`].
pub enum UnlockView {
    Scanning { device: Seq<char>, passphrase: Seq<char>, mapper: Seq<char>, scan: ScanView },
    Opening { device: Seq<char>, mapper: Seq<char> },
    Settling { device: Seq<char>, mapper: Seq<char> },
    Resting { device: Seq<char>, mapper: Seq<char> },
}

impl View for Unlock {
    type V = UnlockView;

    open spec fn view(&self) -> UnlockView {
        match self {
            Unlock::Scanning { device, passphrase, mapper, scan } => UnlockView::Scanning {
                device: device@,
                passphrase: passphrase@,
                mapper: mapper@,
                scan: scan@,
            },
            Unlock::Opening { device, mapper } => UnlockView::Opening {
                device: device@,
                mapper: mapper@,
            },
            Unlock::Settling { device, mapper } => UnlockView::Settling {
                device: device@,
                mapper: mapper@,
            },
            Unlock::Resting { device, mapper } => UnlockView::Resting {
                device: device@,
                mapper: mapper@,
            },
        }
    }
}

/// The turn of an unlock once it is known how the device stands. To unlock
/// what is unlocked is no failure: a warning says so.
pub open spec fn unlock_scanned(
    device: Seq<char>,
    passphrase: Seq<char>,
    mapper: Seq<char>,
    status: LuksStatusView,
) -> TurnView<UnlockView, ()> {
    if status.is_active {
        finish(seq![warning(device + " is already unlocked"@)], ())
    } else {
        wait(
            seq![started("Unlocking "@ + device + "..."@)],
            UnlockView::Opening { device, mapper },
            tool_fed(
                "cryptsetup"@,
                seq!["open"@, raw_path(device), mapper],
                passphrase_line(passphrase),
            ),
        )
    }
}

/// The turn of an unlock that a turn of the status scan amounts to.
pub open spec fn unlock_scan(
    device: Seq<char>,
    passphrase: Seq<char>,
    mapper: Seq<char>,
    t: TurnView<ScanView, LuksStatusView>,
) -> TurnView<UnlockView, ()> {
    lift(
        t,
        |s: ScanView| UnlockView::Scanning { device, passphrase, mapper, scan: s },
        |st: LuksStatusView| unlock_scanned(device, passphrase, mapper, st),
    )
}

/// The first turn of an unlock. Both names are checked before anything is
/// asked of the host.
pub open spec fn unlock_start(device: Seq<char>, passphrase: Seq<char>, mapper: Seq<char>)
    -> TurnView<UnlockView, ()> {
    if name_fault(device) is Some {
        abort(Seq::empty(), ErrorKind::Validation, name_fault(device)->0)
    } else if name_fault(mapper) is Some {
        abort(Seq::empty(), ErrorKind::Validation, name_fault(mapper)->0)
    } else {
        unlock_scan(device, passphrase, mapper, scan_start(device))
    }
}

/// The turn of an unlock on an outcome. A complaint about the passphrase is
/// reported as such.
pub open spec fn unlock_resume(s: UnlockView, o: OutcomeView) -> TurnView<UnlockView, ()> {
    match s {
        UnlockView::Scanning { device, passphrase, mapper, scan } => unlock_scan(
            device,
            passphrase,
            mapper,
            scan_resume(scan, o),
        ),
        UnlockView::Opening { device, mapper } => match o {
            OutcomeView::Tool(ToolResultView::Exited { success, stderr, .. }) => if success {
                wait(Seq::empty(), UnlockView::Settling { device, mapper }, settle_query())
            } else if says_wrong_passphrase(stderr) {
                abort(seq![ended()], ErrorKind::ToolExecution, "Incorrect passphrase"@)
            } else {
                abort(
                    seq![ended()],
                    ErrorKind::ToolExecution,
                    "Unlock failed: "@ + trimmed(stderr),
                )
            },
            OutcomeView::Tool(_) => abort(
                seq![ended()],
                ErrorKind::ToolExecution,
                "Failed to spawn cryptsetup"@,
            ),
            _ => stray(),
        },
        UnlockView::Settling { device, mapper } => match o {
            OutcomeView::Tool(_) => wait(
                Seq::empty(),
                UnlockView::Resting { device, mapper },
                ActionView::Pause(SETTLE_PAUSE_MS),
            ),
            _ => stray(),
        },
        UnlockView::Resting { device, mapper } => match o {
            OutcomeView::Resumed => finish(
                seq![ended(), info("Unlocked "@ + device + " as "@ + mapper_path(mapper))],
                (),
            ),
            _ => stray(),
        },
    }
}

fn unlock_after_scan(device: String, passphrase: String, mapper: String, status: LuksStatus) -> (t:
    Turn<Unlock, ()>)
    ensures
        t@ == unlock_scanned(device@, passphrase@, mapper@, status@),
{
    if status.is_active {
        Turn::finish(ev1(Event::warning(join2(device.as_str(), " is already unlocked"))), ())
    } else {
        let events = ev1(Event::started(join3("Unlocking ", device.as_str(), "...")));
        let action = run_fed(
            "cryptsetup",
            args3("open", raw_node(device.as_str()).as_str(), mapper.as_str()),
            passphrase_input(passphrase.as_str()),
        );
        Turn::wait(events, Unlock::Opening { device, mapper }, action)
    }
}

fn unlock_lift_scan(
    device: String,
    passphrase: String,
    mapper: String,
    t: Turn<StatusScan, LuksStatus>,
) -> (r: Turn<Unlock, ()>)
    ensures
        r@ == unlock_scan(device@, passphrase@, mapper@, t@),
{
    let Turn { events, flow } = t;
    match flow {
        Flow::Wait(s, a) => Turn::wait(
            events,
            Unlock::Scanning { device, passphrase, mapper, scan: s },
            a,
        ),
        Flow::Done(Err(e)) => Turn::abort_with(events, e),
        Flow::Done(Ok(st)) => unlock_after_scan(device, passphrase, mapper, st).after(events),
    }
}

impl Unlock {
    /// Begins to unlock `device` as the mapping `mapper`.
    pub fn start(device: &str, passphrase: &str, mapper: &str) -> (t: Turn<Unlock, ()>)
        ensures
            t@ == unlock_start(device@, passphrase@, mapper@),
    {
        match validate_device_name(device) {
            Err(e) => {
                return Turn::abort(ev0(), ErrorKind::Validation, e.message);
            },
            Ok(()) => {},
        }
        match validate_device_name(mapper) {
            Err(e) => {
                return Turn::abort(ev0(), ErrorKind::Validation, e.message);
            },
            Ok(()) => {},
        }
        let t = StatusScan::start(device);
        unlock_lift_scan(copy(device), copy(passphrase), copy(mapper), t)
    }

    /// Continues with the outcome of the action that was waited for.
    pub fn resume(self, outcome: Outcome) -> (t: Turn<Unlock, ()>)
        ensures
            t@ == unlock_resume(self@, outcome@),
    {
        match self {
            Unlock::Scanning { device, passphrase, mapper, scan } => unlock_lift_scan(
                device,
                passphrase,
                mapper,
                scan.resume(outcome),
            ),
            Unlock::Opening { device, mapper } => match outcome {
                Outcome::Tool(ToolResult::Exited { success, stderr, .. }) => {
                    if success {
                        Turn::wait(ev0(), Unlock::Settling { device, mapper }, ask_settle())
                    } else if contains(stderr.as_str(), "No key available") || contains(
                        stderr.as_str(),
                        "incorrect passphrase",
                    ) {
                        Turn::abort(
                            ev1(Event::ended()),
                            ErrorKind::ToolExecution,
                            copy("Incorrect passphrase"),
                        )
                    } else {
                        Turn::abort(
                            ev1(Event::ended()),
                            ErrorKind::ToolExecution,
                            join2("Unlock failed: ", trim_text(stderr.as_str()).as_str()),
                        )
                    }
                },
                Outcome::Tool(_) => Turn::abort(
                    ev1(Event::ended()),
                    ErrorKind::ToolExecution,
                    copy("Failed to spawn cryptsetup"),
                ),
                _ => Turn::stray(),
            },
            Unlock::Settling { device, mapper } => match outcome {
                Outcome::Tool(_) => Turn::wait(
                    ev0(),
                    Unlock::Resting { device, mapper },
                    Action::Pause(SETTLE_PAUSE_MS),
                ),
                _ => Turn::stray(),
            },
            Unlock::Resting { device, mapper } => match outcome {
                Outcome::Resumed => Turn::finish(
                    ev2(
                        Event::ended(),
                        Event::info(
                            join4(
                                "Unlocked ",
                                device.as_str(),
                                " as ",
                                mapper_node(mapper.as_str()).as_str(),
                            ),
                        ),
                    ),
                    (),
                ),
                _ => Turn::stray(),
            },
        }
    }
}

} // verus!
