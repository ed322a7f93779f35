//! Turning a partition into an encrypted container, and making a filesystem
//! inside a fresh one.

use vstd::prelude::*;
use crate::device::{mapper_node, mapper_path, name_fault, raw_node, raw_path, validate_device_name};
use crate::engine::{
    abort, after, args5, finish, lift, run_fed, stray, tool_fed, wait, Action, ActionView, Flow,
    Outcome, OutcomeView, ToolResult, ToolResultView, Turn, TurnView,
};
use crate::error::{join2, join3, ErrorKind};
use crate::event::{ended, ev0, ev1, ev2, info, started, Event};
use crate::operations::check::{
    ask_settle, check_resume, check_start, settle_query, CheckView, MountCheck, Mounted,
    MountedView,
};
use crate::operations::format::{format_resume, format_start, Format, FormatView};
use crate::operations::lock::{
    passphrase_input, passphrase_line, trim_text, unlock_resume, unlock_start, Unlock, UnlockView,
    SETTLE_PAUSE_MS,
};
use crate::operations::{fs_name, FilesystemType};
use crate::text::{copy, trimmed};

verus! {

/// How often the node of a fresh mapping is looked for.
pub const MAPPER_POLLS: u64 = 10;

/// The milliseconds between two looks for the node of a fresh mapping.
pub const MAPPER_POLL_MS: u64 = 500;

/// The name under which a partition encrypted here is unlocked.
pub open spec fn mapper_name_for(partition: Seq<char>) -> Seq<char> {
    "luks-"@ + partition
}

/// The encrypting of a partition, by the step it waits for.
#[derive(Debug, Clone, PartialEq, Eq)]
pub enum Encrypt {
    /// Is the partition mounted?
    Checking { partition: String, passphrase: String, check: MountCheck },
    /// The header is being written.
    Writing { partition: String },
}

/// The mathematical content of an [`Encrypt`].
pub enum EncryptView {
    Checking { partition: Seq<char>, passphrase: Seq<char>, check: CheckView },
    Writing { partition: Seq<char> },
}

impl View for Encrypt {
    type V = EncryptView;

    open spec fn view(&self) -> EncryptView {
        match self {
            Encrypt::Checking { partition, passphrase, check } => EncryptView::Checking {
                partition: partition@,
                passphrase: passphrase@,
                check: check@,
            },
            Encrypt::Writing { partition } => EncryptView::Writing { partition: partition@ },
        }
    }
}

/// The turn of an encryption once it is known whether the partition is
/// mounted. The header tool runs in batch mode and reads the passphrase
/// from its input.
pub open spec fn encrypt_checked(partition: Seq<char>, passphrase: Seq<char>, m: MountedView)
    -> TurnView<EncryptView, ()> {
    if m.mounted {
        abort(
            Seq::empty(),
            ErrorKind::Precondition,
            partition + " is mounted. Unmount it first."@,
        )
    } else {
        wait(
            seq![started("Encrypting "@ + partition + "..."@)],
            EncryptView::Writing { partition },
            tool_fed(
                "cryptsetup"@,
                seq!["luksFormat"@, "--type"@, "luks2"@, "--batch-mode"@, raw_path(partition)],
                passphrase_line(passphrase),
            ),
        )
    }
}

/// The turn of an encryption that a turn of the mount check amounts to.
pub open spec fn encrypt_check(
    partition: Seq<char>,
    passphrase: Seq<char>,
    t: TurnView<CheckView, MountedView>,
) -> TurnView<EncryptView, ()> {
    lift(
        t,
        |c: CheckView| EncryptView::Checking { partition, passphrase, check: c },
        |m: MountedView| encrypt_checked(partition, passphrase, m),
    )
}

/// The first turn of an encryption.
pub open spec fn encrypt_start(partition: Seq<char>, passphrase: Seq<char>) -> TurnView<
    EncryptView,
    (),
> {
    match name_fault(partition) {
        Some(m) => abort(Seq::empty(), ErrorKind::Validation, m),
        None => encrypt_check(partition, passphrase, check_start(partition)),
    }
}

/// The turn of an encryption on an outcome.
pub open spec fn encrypt_resume(s: EncryptView, o: OutcomeView) -> TurnView<EncryptView, ()> {
    match s {
        EncryptView::Checking { partition, passphrase, check } => encrypt_check(
            partition,
            passphrase,
            check_resume(check, o),
        ),
        EncryptView::Writing { partition } => match o {
            OutcomeView::Tool(ToolResultView::Exited { success, stderr, .. }) => if success {
                finish(seq![ended(), info("Encrypted "@ + partition + " with LUKS2"@)], ())
            } else {
                abort(
                    seq![ended()],
                    ErrorKind::ToolExecution,
                    "Encryption failed: "@ + trimmed(stderr),
                )
            },
            OutcomeView::Tool(_) => abort(
                seq![ended()],
                ErrorKind::ToolExecution,
                "Failed to spawn cryptsetup"@,
            ),
            _ => stray(),
        },
    }
}

fn encrypt_after_check(partition: String, passphrase: String, m: Mounted) -> (t: Turn<
    Encrypt,
    (),
>)
    ensures
        t@ == encrypt_checked(partition@, passphrase@, m@),
{
    if m.mounted {
        Turn::abort(
            ev0(),
            ErrorKind::Precondition,
            join2(partition.as_str(), " is mounted. Unmount it first."),
        )
    } else {
        let events = ev1(Event::started(join3("Encrypting ", partition.as_str(), "...")));
        let action = run_fed(
            "cryptsetup",
            args5(
                "luksFormat",
                "--type",
                "luks2",
                "--batch-mode",
                raw_node(partition.as_str()).as_str(),
            ),
            passphrase_input(passphrase.as_str()),
        );
        Turn::wait(events, Encrypt::Writing { partition }, action)
    }
}

fn encrypt_lift_check(partition: String, passphrase: String, t: Turn<MountCheck, Mounted>) -> (r:
    Turn<Encrypt, ()>)
    ensures
        r@ == encrypt_check(partition@, passphrase@, t@),
{
    let Turn { events, flow } = t;
    match flow {
        Flow::Wait(c, a) => Turn::wait(
            events,
            Encrypt::Checking { partition, passphrase, check: c },
            a,
        ),
        Flow::Done(Err(e)) => Turn::abort_with(events, e),
        Flow::Done(Ok(m)) => encrypt_after_check(partition, passphrase, m).after(events),
    }
}

impl Encrypt {
    /// Begins to encrypt the partition of the given name.
    pub fn start(partition: &str, passphrase: &str) -> (t: Turn<Encrypt, ()>)
        ensures
            t@ == encrypt_start(partition@, passphrase@),
    {
        match validate_device_name(partition) {
            Err(e) => Turn::abort(ev0(), ErrorKind::Validation, e.message),
            Ok(()) => {
                let t = MountCheck::start(partition);
                encrypt_lift_check(copy(partition), copy(passphrase), t)
            },
        }
    }

    /// Continues with the outcome of the action that was waited for.
    pub fn resume(self, outcome: Outcome) -> (t: Turn<Encrypt, ()>)
        ensures
            t@ == encrypt_resume(self@, outcome@),
    {
        match self {
            Encrypt::Checking { partition, passphrase, check } => encrypt_lift_check(
                partition,
                passphrase,
                check.resume(outcome),
            ),
            Encrypt::Writing { partition } => match outcome {
                Outcome::Tool(ToolResult::Exited { success, stderr, .. }) => {
                    if success {
                        Turn::finish(
                            ev2(
                                Event::ended(),
                                Event::info(join3("Encrypted ", partition.as_str(), " with LUKS2")),
                            ),
                            (),
                        )
                    } else {
                        Turn::abort(
                            ev1(Event::ended()),
                            ErrorKind::ToolExecution,
                            join2("Encryption failed: ", trim_text(stderr.as_str()).as_str()),
                        )
                    }
                },
                Outcome::Tool(_) => Turn::abort(
                    ev1(Event::ended()),
                    ErrorKind::ToolExecution,
                    copy("Failed to spawn cryptsetup"),
                ),
                _ => Turn::stray(),
            },
        }
    }
}

/// Encrypting a partition and making a filesystem inside it, by the stage
/// and the step it waits for. Each stage that fails ends the whole.
#[derive(Debug, Clone, PartialEq, Eq)]
pub enum EncryptAndFormat {
    /// The partition is being encrypted.
    Encrypting { partition: String, passphrase: String, fs: FilesystemType, part: Encrypt },
    /// A short rest after the header was written.
    Pausing { partition: String, passphrase: String, fs: FilesystemType },
    /// The fresh container is being unlocked.
    Unlocking { partition: String, fs: FilesystemType, part: Unlock },
    /// The node of the mapping is looked for; `polls` looks were in vain.
    Polling { partition: String, fs: FilesystemType, polls: u64 },
    /// A rest between two looks.
    Waiting { partition: String, fs: FilesystemType, polls: u64 },
    /// The device nodes settle.
    Settling { partition: String, fs: FilesystemType },
    /// A short rest after settling.
    Resting { partition: String, fs: FilesystemType },
    /// The filesystem is being made inside the mapping.
    Formatting { partition: String, part: Format },
}

/// The mathematical content of an [`EncryptAndFormat`].
pub enum EncryptAndFormatView {
    Encrypting { partition: Seq<char>, passphrase: Seq<char>, fs: FilesystemType, part: EncryptView },
    Pausing { partition: Seq<char>, passphrase: Seq<char>, fs: FilesystemType },
    Unlocking { partition: Seq<char>, fs: FilesystemType, part: UnlockView },
    Polling { partition: Seq<char>, fs: FilesystemType, polls: u64 },
    Waiting { partition: Seq<char>, fs: FilesystemType, polls: u64 },
    Settling { partition: Seq<char>, fs: FilesystemType },
    Resting { partition: Seq<char>, fs: FilesystemType },
    Formatting { partition: Seq<char>, part: FormatView },
}

impl View for EncryptAndFormat {
    type V = EncryptAndFormatView;

    open spec fn view(&self) -> EncryptAndFormatView {
        match self {
            EncryptAndFormat::Encrypting {
                partition,
                passphrase,
                fs,
                part,
            } => EncryptAndFormatView::Encrypting {
                partition: partition@,
                passphrase: passphrase@,
                fs: *fs,
                part: part@,
            },
            EncryptAndFormat::Pausing { partition, passphrase, fs } => EncryptAndFormatView::Pausing {
                partition: partition@,
                passphrase: passphrase@,
                fs: *fs,
            },
            EncryptAndFormat::Unlocking { partition, fs, part } => EncryptAndFormatView::Unlocking {
                partition: partition@,
                fs: *fs,
                part: part@,
            },
            EncryptAndFormat::Polling { partition, fs, polls } => EncryptAndFormatView::Polling {
                partition: partition@,
                fs: *fs,
                polls: *polls,
            },
            EncryptAndFormat::Waiting { partition, fs, polls } => EncryptAndFormatView::Waiting {
                partition: partition@,
                fs: *fs,
                polls: *polls,
            },
            EncryptAndFormat::Settling { partition, fs } => EncryptAndFormatView::Settling {
                partition: partition@,
                fs: *fs,
            },
            EncryptAndFormat::Resting { partition, fs } => EncryptAndFormatView::Resting {
                partition: partition@,
                fs: *fs,
            },
            EncryptAndFormat::Formatting { partition, part } => EncryptAndFormatView::Formatting {
                partition: partition@,
                part: part@,
            },
        }
    }
}

/// The turn that a turn of the encryption stage amounts to.
pub open spec fn eaf_encrypt(
    partition: Seq<char>,
    passphrase: Seq<char>,
    fs: FilesystemType,
    t: TurnView<EncryptView, ()>,
) -> TurnView<EncryptAndFormatView, ()> {
    lift(
        t,
        |p: EncryptView| EncryptAndFormatView::Encrypting { partition, passphrase, fs, part: p },
        |u: ()|
            wait(
                Seq::empty(),
                EncryptAndFormatView::Pausing { partition, passphrase, fs },
                ActionView::Pause(SETTLE_PAUSE_MS),
            ),
    )
}

/// The turn that a turn of the unlocking stage amounts to.
pub open spec fn eaf_unlock(partition: Seq<char>, fs: FilesystemType, t: TurnView<UnlockView, ()>)
    -> TurnView<EncryptAndFormatView, ()> {
    lift(
        t,
        |p: UnlockView| EncryptAndFormatView::Unlocking { partition, fs, part: p },
        |u: ()|
            wait(
                Seq::empty(),
                EncryptAndFormatView::Polling { partition, fs, polls: 0 },
                ActionView::ProbePath(mapper_path(mapper_name_for(partition))),
            ),
    )
}

/// The turn that a turn of the formatting stage amounts to.
pub open spec fn eaf_format(partition: Seq<char>, t: TurnView<FormatView, ()>) -> TurnView<
    EncryptAndFormatView,
    (),
> {
    lift(
        t,
        |p: FormatView| EncryptAndFormatView::Formatting { partition, part: p },
        |u: ()|
            finish(
                seq![
                    ended(),
                    info("Partition "@ + partition + " encrypted and formatted successfully"@),
                ],
                (),
            ),
    )
}

/// The first turn.
pub open spec fn eaf_start(partition: Seq<char>, passphrase: Seq<char>, fs: FilesystemType)
    -> TurnView<EncryptAndFormatView, ()> {
    match name_fault(partition) {
        Some(m) => abort(Seq::empty(), ErrorKind::Validation, m),
        None => after(
            seq![started("Encrypting "@ + partition + "..."@)],
            eaf_encrypt(partition, passphrase, fs, encrypt_start(partition, passphrase)),
        ),
    }
}

/// The turn on an outcome. The node of the mapping is looked for a bounded
/// number of times at a fixed interval; if it never appears, the operation
/// fails.
pub open spec fn eaf_resume(s: EncryptAndFormatView, o: OutcomeView) -> TurnView<
    EncryptAndFormatView,
    (),
> {
    match s {
        EncryptAndFormatView::Encrypting { partition, passphrase, fs, part } => eaf_encrypt(
            partition,
            passphrase,
            fs,
            encrypt_resume(part, o),
        ),
        EncryptAndFormatView::Pausing { partition, passphrase, fs } => match o {
            OutcomeView::Resumed => after(
                seq![info("Unlocking encrypted partition..."@)],
                eaf_unlock(
                    partition,
                    fs,
                    unlock_start(partition, passphrase, mapper_name_for(partition)),
                ),
            ),
            _ => stray(),
        },
        EncryptAndFormatView::Unlocking { partition, fs, part } => eaf_unlock(
            partition,
            fs,
            unlock_resume(part, o),
        ),
        EncryptAndFormatView::Polling { partition, fs, polls } => match o {
            OutcomeView::Exists(b) => if b {
                wait(
                    Seq::empty(),
                    EncryptAndFormatView::Settling { partition, fs },
                    settle_query(),
                )
            } else if polls + 1 < MAPPER_POLLS {
                wait(
                    Seq::empty(),
                    EncryptAndFormatView::Waiting { partition, fs, polls: (polls + 1) as u64 },
                    ActionView::Pause(MAPPER_POLL_MS),
                )
            } else {
                abort(
                    Seq::empty(),
                    ErrorKind::Timeout,
                    "Timeout waiting for device: "@ + mapper_path(mapper_name_for(partition)),
                )
            },
            _ => stray(),
        },
        EncryptAndFormatView::Waiting { partition, fs, polls } => match o {
            OutcomeView::Resumed => wait(
                Seq::empty(),
                EncryptAndFormatView::Polling { partition, fs, polls },
                ActionView::ProbePath(mapper_path(mapper_name_for(partition))),
            ),
            _ => stray(),
        },
        EncryptAndFormatView::Settling { partition, fs } => match o {
            OutcomeView::Tool(_) => wait(
                Seq::empty(),
                EncryptAndFormatView::Resting { partition, fs },
                ActionView::Pause(SETTLE_PAUSE_MS),
            ),
            _ => stray(),
        },
        EncryptAndFormatView::Resting { partition, fs } => match o {
            OutcomeView::Resumed => after(
                seq![info("Formatting with "@ + fs_name(fs) + "..."@)],
                eaf_format(partition, format_start(mapper_name_for(partition), fs)),
            ),
            _ => stray(),
        },
        EncryptAndFormatView::Formatting { partition, part } => eaf_format(
            partition,
            format_resume(part, o),
        ),
    }
}

/// Builds [`mapper_name_for`].
pub fn mapper_for(partition: &str) -> (s: String)
    ensures
        s@ == mapper_name_for(partition@),
{
    join2("luks-", partition)
}

fn lift_encrypt(partition: String, passphrase: String, fs: FilesystemType, t: Turn<Encrypt, ()>)
    -> (r: Turn<EncryptAndFormat, ()>)
    ensures
        r@ == eaf_encrypt(partition@, passphrase@, fs, t@),
{
    let Turn { events, flow } = t;
    match flow {
        Flow::Wait(p, a) => Turn::wait(
            events,
            EncryptAndFormat::Encrypting { partition, passphrase, fs, part: p },
            a,
        ),
        Flow::Done(Err(e)) => Turn::abort_with(events, e),
        Flow::Done(Ok(_)) => Turn::wait(
            ev0(),
            EncryptAndFormat::Pausing { partition, passphrase, fs },
            Action::Pause(SETTLE_PAUSE_MS),
        ).after(events),
    }
}

fn lift_unlock(partition: String, fs: FilesystemType, t: Turn<Unlock, ()>) -> (r: Turn<
    EncryptAndFormat,
    (),
>)
    ensures
        r@ == eaf_unlock(partition@, fs, t@),
{
    let Turn { events, flow } = t;
    match flow {
        Flow::Wait(p, a) => Turn::wait(
            events,
            EncryptAndFormat::Unlocking { partition, fs, part: p },
            a,
        ),
        Flow::Done(Err(e)) => Turn::abort_with(events, e),
        Flow::Done(Ok(_)) => {
            let action = Action::ProbePath(
                mapper_node(mapper_for(partition.as_str()).as_str()),
            );
            Turn::wait(ev0(), EncryptAndFormat::Polling { partition, fs, polls: 0 }, action).after(
                events,
            )
        },
    }
}

fn lift_format(partition: String, t: Turn<Format, ()>) -> (r: Turn<EncryptAndFormat, ()>)
    ensures
        r@ == eaf_format(partition@, t@),
{
    let Turn { events, flow } = t;
    match flow {
        Flow::Wait(p, a) => Turn::wait(events, EncryptAndFormat::Formatting { partition, part: p }, a),
        Flow::Done(Err(e)) => Turn::abort_with(events, e),
        Flow::Done(Ok(_)) => Turn::finish(
            ev2(
                Event::ended(),
                Event::info(
                    join3("Partition ", partition.as_str(), " encrypted and formatted successfully"),
                ),
            ),
            (),
        ).after(events),
    }
}

impl EncryptAndFormat {
    /// Begins to encrypt the partition and to make a filesystem inside it.
    pub fn start(partition: &str, passphrase: &str, fs: FilesystemType) -> (t: Turn<
        EncryptAndFormat,
        (),
    >)
        ensures
            t@ == eaf_start(partition@, passphrase@, fs),
    {
        match validate_device_name(partition) {
            Err(e) => Turn::abort(ev0(), ErrorKind::Validation, e.message),
            Ok(()) => {
                let events = ev1(Event::started(join3("Encrypting ", partition, "...")));
                let t = Encrypt::start(partition, passphrase);
                lift_encrypt(copy(partition), copy(passphrase), fs, t).after(events)
            },
        }
    }

    /// Continues with the outcome of the action that was waited for.
    pub fn resume(self, outcome: Outcome) -> (t: Turn<EncryptAndFormat, ()>)
        ensures
            t@ == eaf_resume(self@, outcome@),
    {
        match self {
            EncryptAndFormat::Encrypting { partition, passphrase, fs, part } => lift_encrypt(
                partition,
                passphrase,
                fs,
                part.resume(outcome),
            ),
            EncryptAndFormat::Pausing { partition, passphrase, fs } => match outcome {
                Outcome::Resumed => {
                    let events = ev1(Event::info(copy("Unlocking encrypted partition...")));
                    let t = Unlock::start(
                        partition.as_str(),
                        passphrase.as_str(),
                        mapper_for(partition.as_str()).as_str(),
                    );
                    lift_unlock(partition, fs, t).after(events)
                },
                _ => Turn::stray(),
            },
            EncryptAndFormat::Unlocking { partition, fs, part } => lift_unlock(
                partition,
                fs,
                part.resume(outcome),
            ),
            EncryptAndFormat::Polling { partition, fs, polls } => match outcome {
                Outcome::Exists(b) => {
                    if b {
                        Turn::wait(ev0(), EncryptAndFormat::Settling { partition, fs }, ask_settle())
                    } else if polls < MAPPER_POLLS - 1 {
                        Turn::wait(
                            ev0(),
                            EncryptAndFormat::Waiting { partition, fs, polls: polls + 1 },
                            Action::Pause(MAPPER_POLL_MS),
                        )
                    } else {
                        Turn::abort(
                            ev0(),
                            ErrorKind::Timeout,
                            join2(
                                "Timeout waiting for device: ",
                                mapper_node(mapper_for(partition.as_str()).as_str()).as_str(),
                            ),
                        )
                    }
                },
                _ => Turn::stray(),
            },
            EncryptAndFormat::Waiting { partition, fs, polls } => match outcome {
                Outcome::Resumed => {
                    let action = Action::ProbePath(
                        mapper_node(mapper_for(partition.as_str()).as_str()),
                    );
                    Turn::wait(ev0(), EncryptAndFormat::Polling { partition, fs, polls }, action)
                },
                _ => Turn::stray(),
            },
            EncryptAndFormat::Settling { partition, fs } => match outcome {
                Outcome::Tool(_) => Turn::wait(
                    ev0(),
                    EncryptAndFormat::Resting { partition, fs },
                    Action::Pause(SETTLE_PAUSE_MS),
                ),
                _ => Turn::stray(),
            },
            EncryptAndFormat::Resting { partition, fs } => match outcome {
                Outcome::Resumed => {
                    let events = ev1(
                        Event::info(join3("Formatting with ", fs.as_str(), "...")),
                    );
                    let t = Format::start(mapper_for(partition.as_str()).as_str(), fs);
                    lift_format(partition, t).after(events)
                },
                _ => Turn::stray(),
            },
            EncryptAndFormat::Formatting { partition, part } => lift_format(
                partition,
                part.resume(outcome),
            ),
        }
    }
}

} // verus!
