//! Adding a partition to a disk, alone or with what is put inside it.

use vstd::prelude::*;
use crate::device::{name_fault, raw_node, raw_path, validate_device_name};
use crate::engine::{
    abort, after, args6, finish, lift, run, stray, tool, wait, Action, ActionView, Flow, Outcome,
    OutcomeView, ToolResult, ToolResultView, Turn, TurnView,
};
use crate::error::{join2, join3, join5, ErrorKind, OpError};
use crate::event::{ended, ev0, ev1, ev2, info, started, Event};
use crate::number::{decimal, decimal_string};
use crate::operations::encrypt::{eaf_resume, eaf_start, EncryptAndFormat, EncryptAndFormatView};
use crate::operations::format::{format_resume, format_start, Format, FormatView};
use crate::operations::inventory::{
    find_device, find_disk, free_bytes, free_space, used_bytes, used_space,
};
use crate::operations::lock::trim_text;
use crate::operations::{fs_name, BlockDevice, BlockDeviceView, FilesystemType};
use crate::size::{parse_size, size_fault, size_of_text};
use crate::text::{blank, chars_of, contains, copy, has_sub, is_blank, trimmed};
use crate::utils::{bytes_text, format_bytes};

verus! {

/// The milliseconds waited after the partition editor ran, before the
/// inventory is read again.
pub const PARTITION_SETTLE_MS: u64 = 2000;

/// The size that is asked for: all free space where the text is blank,
/// otherwise what the text says.
pub open spec fn requested(size_input: Seq<char>, free: nat) -> Option<nat> {
    if is_blank(size_input) {
        Some(free)
    } else {
        match size_of_text(size_input) {
            Some(n) => Some(n as nat),
            None => None,
        }
    }
}

/// Finds the size that is asked for, given the free space.
pub fn requested_size(size_input: &str, free_space: u64) -> (r: Result<u64, OpError>)
    ensures
        r is Ok <==> requested(size_input@, free_space as nat) is Some,
        r matches Ok(n) ==> requested(size_input@, free_space as nat) == Some(n as nat),
        r matches Err(e) ==> e.kind == ErrorKind::Validation && e.message@ == size_fault(),
{
    let v = chars_of(size_input);
    if blank(&v) {
        Ok(free_space)
    } else {
        parse_size(size_input)
    }
}

/// Whether the partition editor's complaint says that the disk has no
/// partition table.
pub open spec fn says_no_table(stderr: Seq<char>) -> bool {
    has_sub(stderr, "unrecognised disk label"@) || has_sub(stderr, "unrecognized disk label"@)
}

/// An offset of `n` bytes as the partition editor reads it: the number and
/// the unit `B`, which the editor takes as the exact byte.
pub open spec fn byte_offset(n: nat) -> Seq<char> {
    decimal(n) + "B"@
}

/// The invocation that adds a partition that reaches from byte `start` to
/// byte `end` of the disk. Both offsets are handed on as they are.
pub open spec fn add_partition(disk: Seq<char>, start: nat, end: nat) -> ActionView {
    tool(
        "parted"@,
        seq![
            "-s"@,
            raw_path(disk),
            "mkpart"@,
            "primary"@,
            byte_offset(start),
            byte_offset(end),
        ],
    )
}

/// What is said when the inventory cannot be read.
pub open spec fn inventory_fault() -> Seq<char> {
    "Failed to read the device inventory"@
}

/// The adding of a partition, by the step it waits for. Its result is the
/// name of the new partition.
#[derive(Debug, Clone, PartialEq, Eq)]
pub enum CreateRaw {
    /// The inventory is read, for the disk's free space.
    Reading { disk: String, size_input: String },
    /// The partition editor runs.
    Making { disk: String },
    /// The new partition's node settles.
    Settling { disk: String },
    /// The inventory is read again, for the new partition's name.
    Rereading { disk: String },
}

/// The mathematical content of a [`CreateRaw`].
pub enum CreateRawView {
    Reading { disk: Seq<char>, size_input: Seq<char> },
    Making { disk: Seq<char> },
    Settling { disk: Seq<char> },
    Rereading { disk: Seq<char> },
}

impl View for CreateRaw {
    type V = CreateRawView;

    open spec fn view(&self) -> CreateRawView {
        match self {
            CreateRaw::Reading { disk, size_input } => CreateRawView::Reading {
                disk: disk@,
                size_input: size_input@,
            },
            CreateRaw::Making { disk } => CreateRawView::Making { disk: disk@ },
            CreateRaw::Settling { disk } => CreateRawView::Settling { disk: disk@ },
            CreateRaw::Rereading { disk } => CreateRawView::Rereading { disk: disk@ },
        }
    }
}

/// The first turn. A name that is not valid ends the operation before
/// anything is asked of the host.
pub open spec fn create_start(disk: Seq<char>, size_input: Seq<char>) -> TurnView<
    CreateRawView,
    Seq<char>,
> {
    match name_fault(disk) {
        Some(m) => abort(Seq::empty(), ErrorKind::Validation, m),
        None => wait(
            Seq::empty(),
            CreateRawView::Reading { disk, size_input },
            ActionView::ReadInventory,
        ),
    }
}

/// The turn once the disk is known. The new partition begins where the
/// space used so far ends, and may take no more than what is free.
pub open spec fn create_planned(disk: Seq<char>, size_input: Seq<char>, dev: BlockDeviceView)
    -> TurnView<CreateRawView, Seq<char>> {
    let used = used_space(dev.partitions);
    let free = free_space(dev);
    if free == 0 {
        abort(Seq::empty(), ErrorKind::Precondition, "No free space available"@)
    } else {
        match requested(size_input, free) {
            None => abort(Seq::empty(), ErrorKind::Validation, size_fault()),
            Some(r) => if r > free {
                abort(
                    Seq::empty(),
                    ErrorKind::Validation,
                    "Requested size exceeds available space ("@ + bytes_text(r) + " > "@
                        + bytes_text(free) + ")"@,
                )
            } else {
                wait(
                    Seq::empty(),
                    CreateRawView::Making { disk },
                    add_partition(disk, used, used + r),
                )
            },
        }
    }
}

/// The turn on an outcome.
pub open spec fn create_resume(s: CreateRawView, o: OutcomeView) -> TurnView<
    CreateRawView,
    Seq<char>,
> {
    match s {
        CreateRawView::Reading { disk, size_input } => match o {
            OutcomeView::Inventory(Some(devices)) => match find_disk(devices, disk) {
                None => abort(
                    Seq::empty(),
                    ErrorKind::NotFound,
                    "Disk "@ + disk + " not found"@,
                ),
                Some(dev) => create_planned(disk, size_input, dev),
            },
            OutcomeView::Inventory(None) => abort(
                Seq::empty(),
                ErrorKind::ToolExecution,
                inventory_fault(),
            ),
            _ => stray(),
        },
        CreateRawView::Making { disk } => match o {
            OutcomeView::Tool(ToolResultView::Exited { success, stderr, .. }) => if success {
                wait(
                    Seq::empty(),
                    CreateRawView::Settling { disk },
                    ActionView::Pause(PARTITION_SETTLE_MS),
                )
            } else if says_no_table(stderr) {
                abort(
                    Seq::empty(),
                    ErrorKind::Precondition,
                    "No partition table on "@ + disk + ". Press 'p' to create one first."@,
                )
            } else {
                abort(
                    Seq::empty(),
                    ErrorKind::ToolExecution,
                    "Create partition failed: "@ + trimmed(stderr),
                )
            },
            OutcomeView::Tool(_) => abort(
                Seq::empty(),
                ErrorKind::ToolExecution,
                "Failed to execute parted"@,
            ),
            _ => stray(),
        },
        CreateRawView::Settling { disk } => match o {
            OutcomeView::Resumed => wait(
                Seq::empty(),
                CreateRawView::Rereading { disk },
                ActionView::ReadInventory,
            ),
            _ => stray(),
        },
        CreateRawView::Rereading { disk } => match o {
            OutcomeView::Inventory(Some(devices)) => {
                let dev = find_disk(devices, disk);
                if dev is Some && dev->0.partitions.len() > 0 {
                    finish(Seq::empty(), dev->0.partitions.last().name)
                } else {
                    abort(Seq::empty(), ErrorKind::NotFound, "Failed to find new partition"@)
                }
            },
            OutcomeView::Inventory(None) => abort(
                Seq::empty(),
                ErrorKind::ToolExecution,
                inventory_fault(),
            ),
            _ => stray(),
        },
    }
}

fn byte_offset_text(n: u64) -> (s: String)
    ensures
        s@ == byte_offset(n as nat),
{
    join2(decimal_string(n).as_str(), "B")
}

fn plan(disk: String, size_input: String, dev: &BlockDevice) -> (t: Turn<CreateRaw, String>)
    ensures
        t@ == create_planned(disk@, size_input@, dev@),
{
    let free: u64 = free_bytes(dev);
    if free == 0 {
        return Turn::abort(ev0(), ErrorKind::Precondition, copy("No free space available"));
    }
    let used: u64 = match used_bytes(&dev.partitions) {
        Some(u) => u,
        None => 0,
    };
    match requested_size(size_input.as_str(), free) {
        Err(e) => Turn::abort(ev0(), ErrorKind::Validation, e.message),
        Ok(r) => {
            if r > free {
                Turn::abort(
                    ev0(),
                    ErrorKind::Validation,
                    join5(
                        "Requested size exceeds available space (",
                        format_bytes(r).as_str(),
                        " > ",
                        format_bytes(free).as_str(),
                        ")",
                    ),
                )
            } else {
                let start: u64 = used;
                let end: u64 = used + r;
                let action = run(
                    "parted",
                    args6(
                        "-s",
                        raw_node(disk.as_str()).as_str(),
                        "mkpart",
                        "primary",
                        byte_offset_text(start).as_str(),
                        byte_offset_text(end).as_str(),
                    ),
                );
                Turn::wait(ev0(), CreateRaw::Making { disk }, action)
            }
        },
    }
}

impl CreateRaw {
    /// Begins to add a partition of the given size to the disk.
    pub fn start(disk: &str, size_input: &str) -> (t: Turn<CreateRaw, String>)
        ensures
            t@ == create_start(disk@, size_input@),
    {
        match validate_device_name(disk) {
            Err(e) => Turn::abort(ev0(), ErrorKind::Validation, e.message),
            Ok(()) => Turn::wait(
                ev0(),
                CreateRaw::Reading { disk: copy(disk), size_input: copy(size_input) },
                Action::ReadInventory,
            ),
        }
    }

    /// Continues with the outcome of the action that was waited for.
    pub fn resume(self, outcome: Outcome) -> (t: Turn<CreateRaw, String>)
        ensures
            t@ == create_resume(self@, outcome@),
    {
        match self {
            CreateRaw::Reading { disk, size_input } => match outcome {
                Outcome::Inventory(Some(devices)) => match find_device(&devices, disk.as_str()) {
                    None => Turn::abort(
                        ev0(),
                        ErrorKind::NotFound,
                        join3("Disk ", disk.as_str(), " not found"),
                    ),
                    Some(i) => plan(disk, size_input, &devices[i]),
                },
                Outcome::Inventory(None) => Turn::abort(
                    ev0(),
                    ErrorKind::ToolExecution,
                    copy("Failed to read the device inventory"),
                ),
                _ => Turn::stray(),
            },
            CreateRaw::Making { disk } => match outcome {
                Outcome::Tool(ToolResult::Exited { success, stderr, .. }) => {
                    if success {
                        Turn::wait(
                            ev0(),
                            CreateRaw::Settling { disk },
                            Action::Pause(PARTITION_SETTLE_MS),
                        )
                    } else if contains(stderr.as_str(), "unrecognised disk label") || contains(
                        stderr.as_str(),
                        "unrecognized disk label",
                    ) {
                        Turn::abort(
                            ev0(),
                            ErrorKind::Precondition,
                            join3(
                                "No partition table on ",
                                disk.as_str(),
                                ". Press 'p' to create one first.",
                            ),
                        )
                    } else {
                        Turn::abort(
                            ev0(),
                            ErrorKind::ToolExecution,
                            join2(
                                "Create partition failed: ",
                                trim_text(stderr.as_str()).as_str(),
                            ),
                        )
                    }
                },
                Outcome::Tool(_) => Turn::abort(
                    ev0(),
                    ErrorKind::ToolExecution,
                    copy("Failed to execute parted"),
                ),
                _ => Turn::stray(),
            },
            CreateRaw::Settling { disk } => match outcome {
                Outcome::Resumed => Turn::wait(
                    ev0(),
                    CreateRaw::Rereading { disk },
                    Action::ReadInventory,
                ),
                _ => Turn::stray(),
            },
            CreateRaw::Rereading { disk } => match outcome {
                Outcome::Inventory(Some(devices)) => {
                    match find_device(&devices, disk.as_str()) {
                        Some(i) => {
                            let dev = &devices[i];
                            let n: usize = dev.partitions.len();
                            if n > 0 {
                                let name = copy(dev.partitions[n - 1].name.as_str());
                                assert(dev@.partitions.last() == dev.partitions@[n - 1]@);
                                return Turn::finish(ev0(), name);
                            }
                        },
                        None => {},
                    }
                    Turn::abort(ev0(), ErrorKind::NotFound, copy("Failed to find new partition"))
                },
                Outcome::Inventory(None) => Turn::abort(
                    ev0(),
                    ErrorKind::ToolExecution,
                    copy("Failed to read the device inventory"),
                ),
                _ => Turn::stray(),
            },
        }
    }
}

/// Adding a partition and making a filesystem on it, by the stage it is in.
/// A partition whose formatting fails stays as it is.
#[derive(Debug, Clone, PartialEq, Eq)]
pub enum CreateWithFs {
    /// The partition is being added.
    Creating { disk: String, fs: FilesystemType, part: CreateRaw },
    /// The filesystem is being made.
    Formatting { disk: String, part: Format },
}

/// The mathematical content of a [`CreateWithFs`].
pub enum CreateWithFsView {
    Creating { disk: Seq<char>, fs: FilesystemType, part: CreateRawView },
    Formatting { disk: Seq<char>, part: FormatView },
}

impl View for CreateWithFs {
    type V = CreateWithFsView;

    open spec fn view(&self) -> CreateWithFsView {
        match self {
            CreateWithFs::Creating { disk, fs, part } => CreateWithFsView::Creating {
                disk: disk@,
                fs: *fs,
                part: part@,
            },
            CreateWithFs::Formatting { disk, part } => CreateWithFsView::Formatting {
                disk: disk@,
                part: part@,
            },
        }
    }
}

/// The turn that a turn of the formatting stage amounts to.
pub open spec fn cwf_format(disk: Seq<char>, t: TurnView<FormatView, ()>) -> TurnView<
    CreateWithFsView,
    (),
> {
    lift(
        t,
        |p: FormatView| CreateWithFsView::Formatting { disk, part: p },
        |u: ()|
            finish(seq![ended(), info("Created and formatted partition on "@ + disk)], ()),
    )
}

/// The turn that a turn of the adding stage amounts to.
pub open spec fn cwf_create(
    disk: Seq<char>,
    fs: FilesystemType,
    t: TurnView<CreateRawView, Seq<char>>,
) -> TurnView<CreateWithFsView, ()> {
    lift(
        t,
        |p: CreateRawView| CreateWithFsView::Creating { disk, fs, part: p },
        |name: Seq<char>|
            after(
                seq![info("Formatting "@ + name + " as "@ + fs_name(fs) + "..."@)],
                cwf_format(disk, format_start(name, fs)),
            ),
    )
}

/// The first turn.
pub open spec fn cwf_start(disk: Seq<char>, size_input: Seq<char>, fs: FilesystemType)
    -> TurnView<CreateWithFsView, ()> {
    after(
        seq![started("Creating partition on "@ + disk + "..."@)],
        cwf_create(disk, fs, create_start(disk, size_input)),
    )
}

/// The turn on an outcome.
pub open spec fn cwf_resume(s: CreateWithFsView, o: OutcomeView) -> TurnView<
    CreateWithFsView,
    (),
> {
    match s {
        CreateWithFsView::Creating { disk, fs, part } => cwf_create(
            disk,
            fs,
            create_resume(part, o),
        ),
        CreateWithFsView::Formatting { disk, part } => cwf_format(disk, format_resume(part, o)),
    }
}

fn cwf_lift_format(disk: String, t: Turn<Format, ()>) -> (r: Turn<CreateWithFs, ()>)
    ensures
        r@ == cwf_format(disk@, t@),
{
    let Turn { events, flow } = t;
    match flow {
        Flow::Wait(p, a) => Turn::wait(events, CreateWithFs::Formatting { disk, part: p }, a),
        Flow::Done(Err(e)) => Turn::abort_with(events, e),
        Flow::Done(Ok(_)) => Turn::finish(
            ev2(
                Event::ended(),
                Event::info(join2("Created and formatted partition on ", disk.as_str())),
            ),
            (),
        ).after(events),
    }
}

fn cwf_lift_create(disk: String, fs: FilesystemType, t: Turn<CreateRaw, String>) -> (r: Turn<
    CreateWithFs,
    (),
>)
    ensures
        r@ == cwf_create(disk@, fs, t@),
{
    let Turn { events, flow } = t;
    match flow {
        Flow::Wait(p, a) => Turn::wait(events, CreateWithFs::Creating { disk, fs, part: p }, a),
        Flow::Done(Err(e)) => Turn::abort_with(events, e),
        Flow::Done(Ok(name)) => {
            let note = ev1(
                Event::info(join5("Formatting ", name.as_str(), " as ", fs.as_str(), "...")),
            );
            let t2 = Format::start(name.as_str(), fs);
            cwf_lift_format(disk, t2).after(note).after(events)
        },
    }
}

impl CreateWithFs {
    /// Begins to add a partition and to make a filesystem on it.
    pub fn start(disk: &str, size_input: &str, fs: FilesystemType) -> (t: Turn<CreateWithFs, ()>)
        ensures
            t@ == cwf_start(disk@, size_input@, fs),
    {
        let events = ev1(Event::started(join3("Creating partition on ", disk, "...")));
        let t = CreateRaw::start(disk, size_input);
        cwf_lift_create(copy(disk), fs, t).after(events)
    }

    /// Continues with the outcome of the action that was waited for.
    pub fn resume(self, outcome: Outcome) -> (t: Turn<CreateWithFs, ()>)
        ensures
            t@ == cwf_resume(self@, outcome@),
    {
        match self {
            CreateWithFs::Creating { disk, fs, part } => cwf_lift_create(
                disk,
                fs,
                part.resume(outcome),
            ),
            CreateWithFs::Formatting { disk, part } => cwf_lift_format(disk, part.resume(outcome)),
        }
    }
}

/// Adding a partition, encrypting it and making a filesystem inside, by the
/// stage it is in.
#[derive(Debug, Clone, PartialEq, Eq)]
pub enum CreateEncrypted {
    /// The partition is being added.
    Creating { disk: String, passphrase: String, fs: FilesystemType, part: CreateRaw },
    /// The partition is being encrypted and formatted.
    Encrypting { disk: String, part: EncryptAndFormat },
}

/// The mathematical content of a [`CreateEncrypted`].
pub enum CreateEncryptedView {
    Creating { disk: Seq<char>, passphrase: Seq<char>, fs: FilesystemType, part: CreateRawView },
    Encrypting { disk: Seq<char>, part: EncryptAndFormatView },
}

impl View for CreateEncrypted {
    type V = CreateEncryptedView;

    open spec fn view(&self) -> CreateEncryptedView {
        match self {
            CreateEncrypted::Creating { disk, passphrase, fs, part } => CreateEncryptedView::Creating {
                disk: disk@,
                passphrase: passphrase@,
                fs: *fs,
                part: part@,
            },
            CreateEncrypted::Encrypting { disk, part } => CreateEncryptedView::Encrypting {
                disk: disk@,
                part: part@,
            },
        }
    }
}

/// The turn that a turn of the encrypting stage amounts to.
pub open spec fn ce_encrypt(disk: Seq<char>, t: TurnView<EncryptAndFormatView, ()>) -> TurnView<
    CreateEncryptedView,
    (),
> {
    lift(
        t,
        |p: EncryptAndFormatView| CreateEncryptedView::Encrypting { disk, part: p },
        |u: ()| finish(seq![info("Created encrypted partition on "@ + disk)], ()),
    )
}

/// The turn that a turn of the adding stage amounts to.
pub open spec fn ce_create(
    disk: Seq<char>,
    passphrase: Seq<char>,
    fs: FilesystemType,
    t: TurnView<CreateRawView, Seq<char>>,
) -> TurnView<CreateEncryptedView, ()> {
    lift(
        t,
        |p: CreateRawView| CreateEncryptedView::Creating { disk, passphrase, fs, part: p },
        |name: Seq<char>| ce_encrypt(disk, eaf_start(name, passphrase, fs)),
    )
}

/// The first turn.
pub open spec fn ce_start(
    disk: Seq<char>,
    size_input: Seq<char>,
    passphrase: Seq<char>,
    fs: FilesystemType,
) -> TurnView<CreateEncryptedView, ()> {
    after(
        seq![started("Creating encrypted partition on "@ + disk + "..."@)],
        ce_create(disk, passphrase, fs, create_start(disk, size_input)),
    )
}

/// The turn on an outcome.
pub open spec fn ce_resume(s: CreateEncryptedView, o: OutcomeView) -> TurnView<
    CreateEncryptedView,
    (),
> {
    match s {
        CreateEncryptedView::Creating { disk, passphrase, fs, part } => ce_create(
            disk,
            passphrase,
            fs,
            create_resume(part, o),
        ),
        CreateEncryptedView::Encrypting { disk, part } => ce_encrypt(disk, eaf_resume(part, o)),
    }
}

fn ce_lift_encrypt(disk: String, t: Turn<EncryptAndFormat, ()>) -> (r: Turn<CreateEncrypted, ()>)
    ensures
        r@ == ce_encrypt(disk@, t@),
{
    let Turn { events, flow } = t;
    match flow {
        Flow::Wait(p, a) => Turn::wait(events, CreateEncrypted::Encrypting { disk, part: p }, a),
        Flow::Done(Err(e)) => Turn::abort_with(events, e),
        Flow::Done(Ok(_)) => Turn::finish(
            ev1(Event::info(join2("Created encrypted partition on ", disk.as_str()))),
            (),
        ).after(events),
    }
}

fn ce_lift_create(
    disk: String,
    passphrase: String,
    fs: FilesystemType,
    t: Turn<CreateRaw, String>,
) -> (r: Turn<CreateEncrypted, ()>)
    ensures
        r@ == ce_create(disk@, passphrase@, fs, t@),
{
    let Turn { events, flow } = t;
    match flow {
        Flow::Wait(p, a) => Turn::wait(
            events,
            CreateEncrypted::Creating { disk, passphrase, fs, part: p },
            a,
        ),
        Flow::Done(Err(e)) => Turn::abort_with(events, e),
        Flow::Done(Ok(name)) => {
            let t2 = EncryptAndFormat::start(name.as_str(), passphrase.as_str(), fs);
            ce_lift_encrypt(disk, t2).after(events)
        },
    }
}

impl CreateEncrypted {
    /// Begins to add a partition, to encrypt it and to make a filesystem
    /// inside.
    pub fn start(disk: &str, size_input: &str, passphrase: &str, fs: FilesystemType) -> (t: Turn<
        CreateEncrypted,
        (),
    >)
        ensures
            t@ == ce_start(disk@, size_input@, passphrase@, fs),
    {
        let events = ev1(Event::started(join3("Creating encrypted partition on ", disk, "...")));
        let t = CreateRaw::start(disk, size_input);
        ce_lift_create(copy(disk), copy(passphrase), fs, t).after(events)
    }

    /// Continues with the outcome of the action that was waited for.
    pub fn resume(self, outcome: Outcome) -> (t: Turn<CreateEncrypted, ()>)
        ensures
            t@ == ce_resume(self@, outcome@),
    {
        match self {
            CreateEncrypted::Creating { disk, passphrase, fs, part } => ce_lift_create(
                disk,
                passphrase,
                fs,
                part.resume(outcome),
            ),
            CreateEncrypted::Encrypting { disk, part } => ce_lift_encrypt(
                disk,
                part.resume(outcome),
            ),
        }
    }
}

} // verus!
