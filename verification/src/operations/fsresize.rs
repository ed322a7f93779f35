//! Growing or shrinking the filesystem inside a partition.
//!
//! How a filesystem is resized depends on its kind. Some are resized in
//! place; some must be mounted for it, and are then mounted at a temporary
//! place that is given up again whether the resize worked or not; some
//! cannot be resized at all, which is said and is no failure.

use vstd::prelude::*;
use crate::device::{raw_node, raw_path};
use crate::engine::{
    abort, args1, args2, args4, finish, run, stray, tool, wait, ActionView, Outcome, OutcomeView,
    ToolResult, ToolResultView, Turn, TurnView,
};
use crate::error::{join2, join3, ErrorKind};
use crate::event::{ev0, ev1, warning, Event};
use crate::number::{decimal, decimal_string};
use crate::text::{copy, equal, opt_text};

verus! {

/// The bytes in the unit in which the ext resize tool is given a size.
pub const EXT_UNIT: u64 = 1024;

/// A filesystem that is mounted to be resized.
#[derive(Debug, Clone, Copy, PartialEq, Eq, Structural)]
pub enum MountedKind {
    Xfs,
    Btrfs,
}

/// How a filesystem of the given kind is resized.
#[derive(Debug, Clone, Copy, PartialEq, Eq, Structural)]
pub enum ResizeWay {
    /// ext2, ext3 and ext4: in place.
    Ext,
    /// XFS: mounted, and only to grow.
    Xfs,
    /// NTFS: in place.
    Ntfs,
    /// Btrfs: mounted.
    Btrfs,
    /// FAT and exFAT: not at all.
    Fat,
    /// Any other kind: not at all.
    Unknown,
}

/// The way in which the filesystem of the given kind is resized.
pub open spec fn way_of(fs: Seq<char>) -> ResizeWay {
    if fs == "ext4"@ || fs == "ext3"@ || fs == "ext2"@ {
        ResizeWay::Ext
    } else if fs == "xfs"@ {
        ResizeWay::Xfs
    } else if fs == "ntfs"@ {
        ResizeWay::Ntfs
    } else if fs == "btrfs"@ {
        ResizeWay::Btrfs
    } else if fs == "vfat"@ || fs == "fat32"@ || fs == "exfat"@ {
        ResizeWay::Fat
    } else {
        ResizeWay::Unknown
    }
}

/// Finds the way in which a filesystem is resized.
pub fn resize_way(fs: &str) -> (w: ResizeWay)
    ensures
        w == way_of(fs@),
{
    if equal(fs, "ext4") || equal(fs, "ext3") || equal(fs, "ext2") {
        ResizeWay::Ext
    } else if equal(fs, "xfs") {
        ResizeWay::Xfs
    } else if equal(fs, "ntfs") {
        ResizeWay::Ntfs
    } else if equal(fs, "btrfs") {
        ResizeWay::Btrfs
    } else if equal(fs, "vfat") || equal(fs, "fat32") || equal(fs, "exfat") {
        ResizeWay::Fat
    } else {
        ResizeWay::Unknown
    }
}

/// Where a partition is mounted for the time of its resize.
pub open spec fn temp_mount_point(partition: Seq<char>) -> Seq<char> {
    "/tmp/disktui_resize_"@ + partition
}

/// The name of a mounted kind in messages.
pub open spec fn kind_name(kind: MountedKind) -> Seq<char> {
    match kind {
        MountedKind::Xfs => "XFS"@,
        MountedKind::Btrfs => "Btrfs"@,
    }
}

/// The invocation that resizes a filesystem mounted at the temporary place.
/// `size` is what the Btrfs tool is told: `max` to grow, the byte count to
/// shrink.
pub open spec fn mounted_resize(kind: MountedKind, partition: Seq<char>, size: Seq<char>)
    -> ActionView {
    match kind {
        MountedKind::Xfs => tool("xfs_growfs"@, seq![temp_mount_point(partition)]),
        MountedKind::Btrfs => tool(
            "btrfs"@,
            seq!["filesystem"@, "resize"@, size, temp_mount_point(partition)],
        ),
    }
}

/// What is reported of a resize tool that ran on a mounted filesystem:
/// nothing where it succeeded, its complaint where it failed.
pub open spec fn mounted_fault(kind: MountedKind, o: OutcomeView) -> Option<Seq<char>> {
    match o {
        OutcomeView::Tool(ToolResultView::Exited { success, stderr, .. }) => if success {
            None
        } else {
            Some(kind_name(kind) + " resize failed: "@ + stderr)
        },
        _ => Some("Failed to resize "@ + kind_name(kind) + " filesystem"@),
    }
}

/// The resizing of a filesystem, by the step it waits for.
#[derive(Debug, Clone, PartialEq, Eq)]
pub enum FsResize {
    /// The ext resize tool runs.
    Ext,
    /// The NTFS resize tool runs.
    Ntfs,
    /// The temporary mount point is being made.
    MakingDir { kind: MountedKind, partition: String, size: String },
    /// The partition is being mounted there.
    Mounting { kind: MountedKind, partition: String, size: String },
    /// The mount failed; the mount point is being removed.
    GivingUp { message: String },
    /// The resize tool runs on the mounted filesystem.
    Resizing { kind: MountedKind, partition: String },
    /// The partition is being unmounted again.
    Unmounting { partition: String, fault: Option<String> },
    /// The mount point is being removed.
    Removing { fault: Option<String> },
}

/// The mathematical content of an [`FsResize`].
pub enum FsResizeView {
    Ext,
    Ntfs,
    MakingDir { kind: MountedKind, partition: Seq<char>, size: Seq<char> },
    Mounting { kind: MountedKind, partition: Seq<char>, size: Seq<char> },
    GivingUp { message: Seq<char> },
    Resizing { kind: MountedKind, partition: Seq<char> },
    Unmounting { partition: Seq<char>, fault: Option<Seq<char>> },
    Removing { fault: Option<Seq<char>> },
}

impl View for FsResize {
    type V = FsResizeView;

    open spec fn view(&self) -> FsResizeView {
        match self {
            FsResize::Ext => FsResizeView::Ext,
            FsResize::Ntfs => FsResizeView::Ntfs,
            FsResize::MakingDir { kind, partition, size } => FsResizeView::MakingDir {
                kind: *kind,
                partition: partition@,
                size: size@,
            },
            FsResize::Mounting { kind, partition, size } => FsResizeView::Mounting {
                kind: *kind,
                partition: partition@,
                size: size@,
            },
            FsResize::GivingUp { message } => FsResizeView::GivingUp { message: message@ },
            FsResize::Resizing { kind, partition } => FsResizeView::Resizing {
                kind: *kind,
                partition: partition@,
            },
            FsResize::Unmounting { partition, fault } => FsResizeView::Unmounting {
                partition: partition@,
                fault: opt_text(*fault),
            },
            FsResize::Removing { fault } => FsResizeView::Removing { fault: opt_text(*fault) },
        }
    }
}

/// The turn that begins to mount a filesystem for its resize.
pub open spec fn fs_mounted_start(kind: MountedKind, partition: Seq<char>, size: Seq<char>)
    -> TurnView<FsResizeView, ()> {
    wait(
        Seq::empty(),
        FsResizeView::MakingDir { kind, partition, size },
        tool("mkdir"@, seq!["-p"@, temp_mount_point(partition)]),
    )
}

/// The first turn. Without a filesystem there is nothing to resize. An ext
/// filesystem grows to fill the partition and shrinks to a given size; XFS
/// only grows.
pub open spec fn fs_start(
    partition: Seq<char>,
    filesystem: Option<Seq<char>>,
    new_size: u64,
    growing: bool,
) -> TurnView<FsResizeView, ()> {
    match filesystem {
        None => finish(
            seq![warning("No filesystem detected, skipping filesystem resize"@)],
            (),
        ),
        Some(fs) => match way_of(fs) {
            ResizeWay::Ext => wait(
                Seq::empty(),
                FsResizeView::Ext,
                if growing {
                    tool("resize2fs"@, seq![raw_path(partition)])
                } else {
                    tool(
                        "resize2fs"@,
                        seq![raw_path(partition), decimal((new_size / 1024) as nat) + "K"@],
                    )
                },
            ),
            ResizeWay::Xfs => if growing {
                fs_mounted_start(MountedKind::Xfs, partition, Seq::empty())
            } else {
                abort(Seq::empty(), ErrorKind::Precondition, "XFS does not support shrinking"@)
            },
            ResizeWay::Ntfs => wait(
                Seq::empty(),
                FsResizeView::Ntfs,
                if growing {
                    tool("ntfsresize"@, seq!["-f"@, raw_path(partition)])
                } else {
                    tool(
                        "ntfsresize"@,
                        seq!["-f"@, "-s"@, decimal(new_size as nat), raw_path(partition)],
                    )
                },
            ),
            ResizeWay::Btrfs => fs_mounted_start(
                MountedKind::Btrfs,
                partition,
                if growing {
                    "max"@
                } else {
                    decimal(new_size as nat)
                },
            ),
            ResizeWay::Fat => finish(
                seq![
                    warning(fs + " filesystem cannot be easily resized. Consider reformatting."@),
                ],
                (),
            ),
            ResizeWay::Unknown => finish(
                seq![
                    warning(
                        "Filesystem '"@ + fs + "' resize not supported. Partition resized only."@,
                    ),
                ],
                (),
            ),
        },
    }
}

/// The turn on an outcome. A filesystem that was mounted for its resize is
/// unmounted, and its mount point removed, before the resize tool's failure
/// is reported.
pub open spec fn fs_resume(s: FsResizeView, o: OutcomeView) -> TurnView<FsResizeView, ()> {
    match s {
        FsResizeView::Ext => match o {
            OutcomeView::Tool(ToolResultView::Exited { success, stderr, .. }) => if success {
                finish(Seq::empty(), ())
            } else {
                abort(
                    Seq::empty(),
                    ErrorKind::ToolExecution,
                    "Filesystem resize failed: "@ + stderr,
                )
            },
            OutcomeView::Tool(_) => abort(
                Seq::empty(),
                ErrorKind::ToolExecution,
                "Failed to execute resize2fs"@,
            ),
            _ => stray(),
        },
        FsResizeView::Ntfs => match o {
            OutcomeView::Tool(ToolResultView::Exited { success, stderr, .. }) => if success {
                finish(Seq::empty(), ())
            } else {
                abort(Seq::empty(), ErrorKind::ToolExecution, "NTFS resize failed: "@ + stderr)
            },
            OutcomeView::Tool(_) => abort(
                Seq::empty(),
                ErrorKind::ToolMissing,
                "ntfsresize not found. Install ntfs-3g package."@,
            ),
            _ => stray(),
        },
        FsResizeView::MakingDir { kind, partition, size } => match o {
            OutcomeView::Tool(ToolResultView::Exited { .. }) => wait(
                Seq::empty(),
                FsResizeView::Mounting { kind, partition, size },
                tool("mount"@, seq![raw_path(partition), temp_mount_point(partition)]),
            ),
            OutcomeView::Tool(_) => abort(
                Seq::empty(),
                ErrorKind::ToolExecution,
                "Failed to create temporary mount point"@,
            ),
            _ => stray(),
        },
        FsResizeView::Mounting { kind, partition, size } => match o {
            OutcomeView::Tool(ToolResultView::Exited { success, stderr, .. }) => if success {
                wait(
                    Seq::empty(),
                    FsResizeView::Resizing { kind, partition },
                    mounted_resize(kind, partition, size),
                )
            } else {
                wait(
                    Seq::empty(),
                    FsResizeView::GivingUp {
                        message: "Failed to mount for "@ + kind_name(kind) + " resize: "@
                            + stderr,
                    },
                    tool("rmdir"@, seq![temp_mount_point(partition)]),
                )
            },
            OutcomeView::Tool(_) => abort(
                Seq::empty(),
                ErrorKind::ToolExecution,
                "Failed to mount the filesystem for its resize"@,
            ),
            _ => stray(),
        },
        FsResizeView::GivingUp { message } => match o {
            OutcomeView::Tool(_) => abort(Seq::empty(), ErrorKind::ToolExecution, message),
            _ => stray(),
        },
        FsResizeView::Resizing { kind, partition } => match o {
            OutcomeView::Tool(_) => wait(
                Seq::empty(),
                FsResizeView::Unmounting { partition, fault: mounted_fault(kind, o) },
                tool("umount"@, seq![temp_mount_point(partition)]),
            ),
            _ => stray(),
        },
        FsResizeView::Unmounting { partition, fault } => match o {
            OutcomeView::Tool(_) => wait(
                Seq::empty(),
                FsResizeView::Removing { fault },
                tool("rmdir"@, seq![temp_mount_point(partition)]),
            ),
            _ => stray(),
        },
        FsResizeView::Removing { fault } => match o {
            OutcomeView::Tool(_) => match fault {
                None => finish(Seq::empty(), ()),
                Some(m) => abort(Seq::empty(), ErrorKind::ToolExecution, m),
            },
            _ => stray(),
        },
    }
}

/// Builds [`temp_mount_point`].
pub fn temp_dir(partition: &str) -> (s: String)
    ensures
        s@ == temp_mount_point(partition@),
{
    join2("/tmp/disktui_resize_", partition)
}

fn kind_text(kind: MountedKind) -> (s: &'static str)
    ensures
        s@ == kind_name(kind),
{
    match kind {
        MountedKind::Xfs => "XFS",
        MountedKind::Btrfs => "Btrfs",
    }
}

fn mounted_begin(kind: MountedKind, partition: &str, size: String) -> (t: Turn<FsResize, ()>)
    ensures
        t@ == fs_mounted_start(kind, partition@, size@),
{
    let action = run("mkdir", args2("-p", temp_dir(partition).as_str()));
    Turn::wait(ev0(), FsResize::MakingDir { kind, partition: copy(partition), size }, action)
}

fn fault_of(kind: MountedKind, outcome: &Outcome) -> (r: Option<String>)
    ensures
        opt_text(r) == mounted_fault(kind, outcome@),
{
    match outcome {
        Outcome::Tool(ToolResult::Exited { success, stderr, .. }) => {
            if *success {
                None
            } else {
                Some(join3(kind_text(kind), " resize failed: ", stderr.as_str()))
            }
        },
        _ => Some(join3("Failed to resize ", kind_text(kind), " filesystem")),
    }
}

impl FsResize {
    /// Begins to resize the filesystem of the given kind inside the
    /// partition.
    pub fn start(partition: &str, filesystem: &Option<String>, new_size: u64, growing: bool) -> (t:
        Turn<FsResize, ()>)
        ensures
            t@ == fs_start(partition@, opt_text(*filesystem), new_size, growing),
    {
        let fs = match filesystem {
            None => {
                return Turn::finish(
                    ev1(
                        Event::warning(copy("No filesystem detected, skipping filesystem resize")),
                    ),
                    (),
                );
            },
            Some(fs) => fs.as_str(),
        };
        match resize_way(fs) {
            ResizeWay::Ext => {
                let action = if growing {
                    run("resize2fs", args1(raw_node(partition).as_str()))
                } else {
                    let size = join2(decimal_string(new_size / EXT_UNIT).as_str(), "K");
                    run("resize2fs", args2(raw_node(partition).as_str(), size.as_str()))
                };
                Turn::wait(ev0(), FsResize::Ext, action)
            },
            ResizeWay::Xfs => {
                if growing {
                    mounted_begin(MountedKind::Xfs, partition, String::new())
                } else {
                    Turn::abort(
                        ev0(),
                        ErrorKind::Precondition,
                        copy("XFS does not support shrinking"),
                    )
                }
            },
            ResizeWay::Ntfs => {
                let action = if growing {
                    run("ntfsresize", args2("-f", raw_node(partition).as_str()))
                } else {
                    run(
                        "ntfsresize",
                        args4(
                            "-f",
                            "-s",
                            decimal_string(new_size).as_str(),
                            raw_node(partition).as_str(),
                        ),
                    )
                };
                Turn::wait(ev0(), FsResize::Ntfs, action)
            },
            ResizeWay::Btrfs => {
                let size = if growing {
                    copy("max")
                } else {
                    decimal_string(new_size)
                };
                mounted_begin(MountedKind::Btrfs, partition, size)
            },
            ResizeWay::Fat => Turn::finish(
                ev1(
                    Event::warning(
                        join2(fs, " filesystem cannot be easily resized. Consider reformatting."),
                    ),
                ),
                (),
            ),
            ResizeWay::Unknown => Turn::finish(
                ev1(
                    Event::warning(
                        join3(
                            "Filesystem '",
                            fs,
                            "' resize not supported. Partition resized only.",
                        ),
                    ),
                ),
                (),
            ),
        }
    }

    /// Continues with the outcome of the action that was waited for.
    pub fn resume(self, outcome: Outcome) -> (t: Turn<FsResize, ()>)
        ensures
            t@ == fs_resume(self@, outcome@),
    {
        match self {
            FsResize::Ext => match outcome {
                Outcome::Tool(ToolResult::Exited { success, stderr, .. }) => {
                    if success {
                        Turn::finish(ev0(), ())
                    } else {
                        Turn::abort(
                            ev0(),
                            ErrorKind::ToolExecution,
                            join2("Filesystem resize failed: ", stderr.as_str()),
                        )
                    }
                },
                Outcome::Tool(_) => Turn::abort(
                    ev0(),
                    ErrorKind::ToolExecution,
                    copy("Failed to execute resize2fs"),
                ),
                _ => Turn::stray(),
            },
            FsResize::Ntfs => match outcome {
                Outcome::Tool(ToolResult::Exited { success, stderr, .. }) => {
                    if success {
                        Turn::finish(ev0(), ())
                    } else {
                        Turn::abort(
                            ev0(),
                            ErrorKind::ToolExecution,
                            join2("NTFS resize failed: ", stderr.as_str()),
                        )
                    }
                },
                Outcome::Tool(_) => Turn::abort(
                    ev0(),
                    ErrorKind::ToolMissing,
                    copy("ntfsresize not found. Install ntfs-3g package."),
                ),
                _ => Turn::stray(),
            },
            FsResize::MakingDir { kind, partition, size } => match outcome {
                Outcome::Tool(ToolResult::Exited { .. }) => {
                    let action = run(
                        "mount",
                        args2(
                            raw_node(partition.as_str()).as_str(),
                            temp_dir(partition.as_str()).as_str(),
                        ),
                    );
                    Turn::wait(ev0(), FsResize::Mounting { kind, partition, size }, action)
                },
                Outcome::Tool(_) => Turn::abort(
                    ev0(),
                    ErrorKind::ToolExecution,
                    copy("Failed to create temporary mount point"),
                ),
                _ => Turn::stray(),
            },
            FsResize::Mounting { kind, partition, size } => match outcome {
                Outcome::Tool(ToolResult::Exited { success, stderr, .. }) => {
                    if success {
                        let action = match kind {
                            MountedKind::Xfs => run(
                                "xfs_growfs",
                                args1(temp_dir(partition.as_str()).as_str()),
                            ),
                            MountedKind::Btrfs => run(
                                "btrfs",
                                args4(
                                    "filesystem",
                                    "resize",
                                    size.as_str(),
                                    temp_dir(partition.as_str()).as_str(),
                                ),
                            ),
                        };
                        Turn::wait(ev0(), FsResize::Resizing { kind, partition }, action)
                    } else {
                        let message = crate::error::join4(
                            "Failed to mount for ",
                            kind_text(kind),
                            " resize: ",
                            stderr.as_str(),
                        );
                        let action = run("rmdir", args1(temp_dir(partition.as_str()).as_str()));
                        Turn::wait(ev0(), FsResize::GivingUp { message }, action)
                    }
                },
                Outcome::Tool(_) => Turn::abort(
                    ev0(),
                    ErrorKind::ToolExecution,
                    copy("Failed to mount the filesystem for its resize"),
                ),
                _ => Turn::stray(),
            },
            FsResize::GivingUp { message } => match outcome {
                Outcome::Tool(_) => Turn::abort(ev0(), ErrorKind::ToolExecution, message),
                _ => Turn::stray(),
            },
            FsResize::Resizing { kind, partition } => match outcome {
                Outcome::Tool(_) => {
                    let fault = fault_of(kind, &outcome);
                    let action = run("umount", args1(temp_dir(partition.as_str()).as_str()));
                    Turn::wait(ev0(), FsResize::Unmounting { partition, fault }, action)
                },
                _ => Turn::stray(),
            },
            FsResize::Unmounting { partition, fault } => match outcome {
                Outcome::Tool(_) => {
                    let action = run("rmdir", args1(temp_dir(partition.as_str()).as_str()));
                    Turn::wait(ev0(), FsResize::Removing { fault }, action)
                },
                _ => Turn::stray(),
            },
            FsResize::Removing { fault } => match outcome {
                Outcome::Tool(_) => match fault {
                    None => Turn::finish(ev0(), ()),
                    Some(m) => Turn::abort(ev0(), ErrorKind::ToolExecution, m),
                },
                _ => Turn::stray(),
            },
        }
    }
}

} // verus!
