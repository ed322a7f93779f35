//! Questions that several operations ask before they act: is the device an
//! encrypted container, and is it mounted.

use vstd::prelude::*;
use crate::device::{device_path, get_device_path, mapper_node, mapper_path, raw_node, raw_path};
use crate::engine::{
    abort, args2, finish, run, stray, tool, wait, Action, ActionView, Outcome, OutcomeView,
    ToolResult, ToolResultView, Turn, TurnView,
};
use crate::error::ErrorKind;
use crate::event::ev0;
use crate::text::copy;

verus! {

/// The invocation that asks whether a device is an encrypted container.
/// Anything but a successful run means that it is not.
pub open spec fn luks_query(name: Seq<char>) -> ActionView {
    tool("cryptsetup"@, seq!["isLuks"@, raw_path(name)])
}

/// The invocation that asks whether the node at `path` is mounted. A
/// successful run means that it is.
pub open spec fn mount_query(path: Seq<char>) -> ActionView {
    tool("findmnt"@, seq!["-n"@, path])
}

/// The invocation that waits for the device nodes to settle.
pub open spec fn settle_query() -> ActionView {
    tool("udevadm"@, seq!["settle"@, "--timeout=10"@])
}

/// Builds [`luks_query`].
pub fn ask_luks(name: &str) -> (a: Action)
    ensures
        a@ == luks_query(name@),
{
    run("cryptsetup", args2("isLuks", raw_node(name).as_str()))
}

/// Builds [`mount_query`].
pub fn ask_mounted(path: &str) -> (a: Action)
    ensures
        a@ == mount_query(path@),
{
    run("findmnt", args2("-n", path))
}

/// Builds [`settle_query`].
pub fn ask_settle() -> (a: Action)
    ensures
        a@ == settle_query(),
{
    run("udevadm", args2("settle", "--timeout=10"))
}

/// Whether a device is mounted, and the path it was resolved to.
#[derive(Debug, Clone, PartialEq, Eq)]
pub struct Mounted {
    pub mounted: bool,
    pub path: String,
}

/// The mathematical content of a [`Mounted`].
pub struct MountedView {
    pub mounted: bool,
    pub path: Seq<char>,
}

impl View for Mounted {
    type V = MountedView;

    open spec fn view(&self) -> MountedView {
        MountedView { mounted: self.mounted, path: self.path@ }
    }
}

/// The check whether a device is mounted. The name is first resolved to a
/// path, which depends on whether a mapping of that name exists.
#[derive(Debug, Clone, PartialEq, Eq)]
pub enum MountCheck {
    /// Waiting to learn whether a mapping of the name exists.
    Resolving { name: String },
    /// Waiting for the mount table's answer on the path.
    Finding { path: String },
}

/// The mathematical content of a [`MountCheck`].
pub enum CheckView {
    Resolving { name: Seq<char> },
    Finding { path: Seq<char> },
}

impl View for MountCheck {
    type V = CheckView;

    open spec fn view(&self) -> CheckView {
        match self {
            MountCheck::Resolving { name } => CheckView::Resolving { name: name@ },
            MountCheck::Finding { path } => CheckView::Finding { path: path@ },
        }
    }
}

/// The check's first turn: it asks whether a mapping of the name exists.
pub open spec fn check_start(name: Seq<char>) -> TurnView<CheckView, MountedView> {
    wait(Seq::empty(), CheckView::Resolving { name }, ActionView::ProbePath(mapper_path(name)))
}

/// The check's turn on an outcome. That the mount table cannot be asked is
/// a failure; how the tool exits is the answer.
pub open spec fn check_resume(s: CheckView, o: OutcomeView) -> TurnView<CheckView, MountedView> {
    match s {
        CheckView::Resolving { name } => match o {
            OutcomeView::Exists(b) => wait(
                Seq::empty(),
                CheckView::Finding { path: device_path(name, b) },
                mount_query(device_path(name, b)),
            ),
            _ => stray(),
        },
        CheckView::Finding { path } => match o {
            OutcomeView::Tool(ToolResultView::Exited { success, .. }) => finish(
                Seq::empty(),
                MountedView { mounted: success, path },
            ),
            OutcomeView::Tool(_) => abort(
                Seq::empty(),
                ErrorKind::ToolExecution,
                "Failed to execute findmnt"@,
            ),
            _ => stray(),
        },
    }
}

impl MountCheck {
    /// Begins the check for the device of the given name.
    pub fn start(name: &str) -> (t: Turn<MountCheck, Mounted>)
        ensures
            t@ == check_start(name@),
    {
        Turn::wait(
            ev0(),
            MountCheck::Resolving { name: copy(name) },
            Action::ProbePath(mapper_node(name)),
        )
    }

    /// Continues the check with the outcome of the action it waited for.
    pub fn resume(self, outcome: Outcome) -> (t: Turn<MountCheck, Mounted>)
        ensures
            t@ == check_resume(self@, outcome@),
    {
        match self {
            MountCheck::Resolving { name } => match outcome {
                Outcome::Exists(b) => {
                    let path = get_device_path(name.as_str(), b);
                    let action = ask_mounted(path.as_str());
                    Turn::wait(ev0(), MountCheck::Finding { path }, action)
                },
                _ => Turn::stray(),
            },
            MountCheck::Finding { path } => match outcome {
                Outcome::Tool(ToolResult::Exited { success, .. }) => Turn::finish(
                    ev0(),
                    Mounted { mounted: success, path },
                ),
                Outcome::Tool(_) => Turn::abort(
                    ev0(),
                    ErrorKind::ToolExecution,
                    copy("Failed to execute findmnt"),
                ),
                _ => Turn::stray(),
            },
        }
    }
}

} // verus!
