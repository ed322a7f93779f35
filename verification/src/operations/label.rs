//! Writing a new, empty partition table to a disk.

use vstd::prelude::*;
use crate::device::{name_fault, raw_node, raw_path, validate_device_name};
use crate::engine::{
    abort, args4, finish, run, stray, tool, wait, Outcome, OutcomeView, ToolResult, ToolResultView,
    Turn, TurnView,
};
use crate::error::{join2, join4, ErrorKind};
use crate::event::{ev0, ev1, info, Event};
use crate::text::{copy, equal};

verus! {

/// The label that the partition editor knows a table type by: `gpt` is
/// `gpt`; `mbr` and `msdos` are `msdos`; no other type is supported.
pub open spec fn table_label(table_type: Seq<char>) -> Option<Seq<char>> {
    if table_type == "gpt"@ {
        Some("gpt"@)
    } else if table_type == "mbr"@ || table_type == "msdos"@ {
        Some("msdos"@)
    } else {
        None
    }
}

/// Finds the label for a table type.
pub fn label_for(table_type: &str) -> (r: Option<&'static str>)
    ensures
        r is Some <==> table_label(table_type@) is Some,
        r matches Some(l) ==> table_label(table_type@) == Some(l@),
{
    if equal(table_type, "gpt") {
        Some("gpt")
    } else if equal(table_type, "mbr") || equal(table_type, "msdos") {
        Some("msdos")
    } else {
        None
    }
}

/// The writing of a partition table: the one step it waits for.
#[derive(Debug, Clone, PartialEq, Eq)]
pub enum CreateTable {
    /// The partition editor writes the label.
    Labelling { disk: String, table_type: String },
}

/// The mathematical content of a [`CreateTable`].
pub enum CreateTableView {
    Labelling { disk: Seq<char>, table_type: Seq<char> },
}

impl View for CreateTable {
    type V = CreateTableView;

    open spec fn view(&self) -> CreateTableView {
        match self {
            CreateTable::Labelling { disk, table_type } => CreateTableView::Labelling {
                disk: disk@,
                table_type: table_type@,
            },
        }
    }
}

/// The first turn. Neither a name that is not valid nor a table type that
/// is not supported reaches the partition editor.
pub open spec fn table_start(disk: Seq<char>, table_type: Seq<char>) -> TurnView<
    CreateTableView,
    (),
> {
    if name_fault(disk) is Some {
        abort(Seq::empty(), ErrorKind::Validation, name_fault(disk)->0)
    } else if table_label(table_type) is None {
        abort(
            Seq::empty(),
            ErrorKind::Validation,
            "Unsupported partition table type: "@ + table_type,
        )
    } else {
        wait(
            Seq::empty(),
            CreateTableView::Labelling { disk, table_type },
            tool(
                "parted"@,
                seq!["-s"@, raw_path(disk), "mklabel"@, table_label(table_type)->0],
            ),
        )
    }
}

/// The turn on an outcome.
pub open spec fn table_resume(s: CreateTableView, o: OutcomeView) -> TurnView<
    CreateTableView,
    (),
> {
    match s {
        CreateTableView::Labelling { disk, table_type } => match o {
            OutcomeView::Tool(ToolResultView::Exited { success, stderr, .. }) => if success {
                finish(
                    seq![info("Created "@ + table_type + " partition table on "@ + disk)],
                    (),
                )
            } else {
                abort(
                    Seq::empty(),
                    ErrorKind::ToolExecution,
                    "Create table failed: "@ + stderr,
                )
            },
            OutcomeView::Tool(_) => abort(
                Seq::empty(),
                ErrorKind::ToolExecution,
                "Failed to execute parted"@,
            ),
            _ => stray(),
        },
    }
}

impl CreateTable {
    /// Begins to write a table of the given type to the disk.
    pub fn start(disk: &str, table_type: &str) -> (t: Turn<CreateTable, ()>)
        ensures
            t@ == table_start(disk@, table_type@),
    {
        match validate_device_name(disk) {
            Err(e) => {
                return Turn::abort(ev0(), ErrorKind::Validation, e.message);
            },
            Ok(()) => {},
        }
        match label_for(table_type) {
            None => Turn::abort(
                ev0(),
                ErrorKind::Validation,
                join2("Unsupported partition table type: ", table_type),
            ),
            Some(label) => {
                let action = run("parted", args4("-s", raw_node(disk).as_str(), "mklabel", label));
                Turn::wait(
                    ev0(),
                    CreateTable::Labelling { disk: copy(disk), table_type: copy(table_type) },
                    action,
                )
            },
        }
    }

    /// Continues with the outcome of the action that was waited for.
    pub fn resume(self, outcome: Outcome) -> (t: Turn<CreateTable, ()>)
        ensures
            t@ == table_resume(self@, outcome@),
    {
        match self {
            CreateTable::Labelling { disk, table_type } => match outcome {
                Outcome::Tool(ToolResult::Exited { success, stderr, .. }) => {
                    if success {
                        Turn::finish(
                            ev1(
                                Event::info(
                                    join4(
                                        "Created ",
                                        table_type.as_str(),
                                        " partition table on ",
                                        disk.as_str(),
                                    ),
                                ),
                            ),
                            (),
                        )
                    } else {
                        Turn::abort(
                            ev0(),
                            ErrorKind::ToolExecution,
                            join2("Create table failed: ", stderr.as_str()),
                        )
                    }
                },
                Outcome::Tool(_) => Turn::abort(
                    ev0(),
                    ErrorKind::ToolExecution,
                    copy("Failed to execute parted"),
                ),
                _ => Turn::stray(),
            },
        }
    }
}

} // verus!
