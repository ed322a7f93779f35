//! In which order a resize touches the filesystem and the partition table.

use vstd::prelude::*;
use crate::engine::{ActionView, FlowView, OutcomeView, TurnView};
use crate::operations::fsresize::{fs_resume, fs_start, way_of, FsResizeView, ResizeWay};
use crate::operations::resize::{resize_decided, resize_resume, ResizePlanView, ResizeView};

verus! {

/// Whether an action runs a tool that resizes a filesystem.
pub open spec fn resizes_filesystem(a: ActionView) -> bool {
    a matches ActionView::Run(c) && (c.program == "resize2fs"@ || c.program == "xfs_growfs"@
        || c.program == "ntfsresize"@ || c.program == "btrfs"@)
}

/// Whether an action writes a partition table: the table tool, fed a table.
pub open spec fn writes_table(a: ActionView) -> bool {
    a matches ActionView::Run(c) && c.program == "sfdisk"@ && c.input is Some
}

/// The actions that a resize asks for, from the turn `t` on, while the host
/// answers with `outcomes` in their order.
pub open spec fn resize_actions(t: TurnView<ResizeView, ()>, outcomes: Seq<OutcomeView>) -> Seq<
    ActionView,
>
    decreases outcomes.len(),
{
    match t.flow {
        FlowView::Done(_) => Seq::empty(),
        FlowView::Wait(s, a) => if outcomes.len() == 0 {
            seq![a]
        } else {
            seq![a] + resize_actions(resize_resume(s, outcomes[0]), outcomes.skip(1))
        },
    }
}

/// The states of a shrinking resize from the dump of the table on.
pub open spec fn past_shrinking(s: ResizeView) -> bool {
    match s {
        ResizeView::Dumping { growing, .. } => !growing,
        ResizeView::Writing { growing, .. } => !growing,
        ResizeView::Pausing { growing, .. } => !growing,
        ResizeView::Reprobing { growing, .. } => !growing,
        ResizeView::Settling { growing, .. } => !growing,
        _ => false,
    }
}

/// The states of a growing resize up to the growing of the filesystem.
pub open spec fn before_growing(s: ResizeView) -> bool {
    match s {
        ResizeView::Dumping { growing, .. } => growing,
        ResizeView::Writing { growing, .. } => growing,
        ResizeView::Pausing { growing, .. } => growing,
        ResizeView::Reprobing { growing, .. } => growing,
        ResizeView::Settling { growing, .. } => growing,
        _ => false,
    }
}

/// A turn of a shrinking resize from the dump of the table on.
pub open spec fn turn_past_shrinking(t: TurnView<ResizeView, ()>) -> bool {
    t.flow matches FlowView::Wait(s, a) ==> past_shrinking(s) && !resizes_filesystem(a)
}

/// A turn of a shrinking resize: the filesystem is being shrunk, or that is
/// over; and the table is written only in the state that waits for the
/// write to end.
pub open spec fn turn_shrinking(t: TurnView<ResizeView, ()>) -> bool {
    t.flow matches FlowView::Wait(s, a) ==> (s is Shrinking || past_shrinking(s)) && (
    writes_table(a) ==> past_shrinking(s))
}

/// A turn while the filesystem is being grown.
pub open spec fn turn_in_growing(t: TurnView<ResizeView, ()>) -> bool {
    t.flow matches FlowView::Wait(s, a) ==> s is Growing && !writes_table(a)
}

/// A turn of a growing resize: the table is being rewritten, or the
/// filesystem is being grown; and a filesystem is resized only in the
/// latter.
pub open spec fn turn_growing(t: TurnView<ResizeView, ()>) -> bool {
    t.flow matches FlowView::Wait(s, a) ==> (s is Growing || before_growing(s)) && (
    resizes_filesystem(a) ==> s is Growing) && (writes_table(a) ==> before_growing(s))
}

/// The names of the tools are different names.
pub proof fn lemma_tool_names()
    ensures
        "sfdisk"@ != "resize2fs"@,
        "sfdisk"@ != "xfs_growfs"@,
        "sfdisk"@ != "ntfsresize"@,
        "sfdisk"@ != "btrfs"@,
        "partprobe"@ != "resize2fs"@,
        "partprobe"@ != "xfs_growfs"@,
        "partprobe"@ != "ntfsresize"@,
        "partprobe"@ != "btrfs"@,
        "partprobe"@ != "sfdisk"@,
        "mkdir"@ != "sfdisk"@,
        "mount"@ != "sfdisk"@,
        "umount"@ != "sfdisk"@,
        "rmdir"@ != "sfdisk"@,
        "resize2fs"@ != "sfdisk"@,
        "xfs_growfs"@ != "sfdisk"@,
        "ntfsresize"@ != "sfdisk"@,
        "btrfs"@ != "sfdisk"@,
{
    reveal_strlit("sfdisk");
    reveal_strlit("resize2fs");
    reveal_strlit("xfs_growfs");
    reveal_strlit("ntfsresize");
    reveal_strlit("btrfs");
    reveal_strlit("partprobe");
    reveal_strlit("mkdir");
    reveal_strlit("mount");
    reveal_strlit("umount");
    reveal_strlit("rmdir");
    assert("partprobe"@[0] == 'p');
    assert("resize2fs"@[0] == 'r');
    assert("mkdir"@[1] == 'k');
    assert("mount"@[1] == 'o');
    assert("rmdir"@[0] == 'r');
    assert("btrfs"@[0] == 'b');
    assert("umount"@[0] == 'u');
    assert("sfdisk"@[0] == 's');
    assert("sfdisk"@[1] == 'f');
}

/// No turn of the filesystem resize writes a partition table.
pub proof fn lemma_fs_never_writes_table(s: FsResizeView, o: OutcomeView)
    ensures
        fs_resume(s, o).flow matches FlowView::Wait(_, a) ==> !writes_table(a),
{
    lemma_tool_names();
}

/// Nor does its first turn.
pub proof fn lemma_fs_start_never_writes_table(
    partition: Seq<char>,
    filesystem: Option<Seq<char>>,
    new_size: u64,
    growing: bool,
)
    ensures
        fs_start(partition, filesystem, new_size, growing).flow matches FlowView::Wait(_, a)
            ==> !writes_table(a),
{
    lemma_tool_names();
}

/// What follows a turn past the shrinking is past the shrinking.
pub proof fn lemma_past_shrinking_step(s: ResizeView, o: OutcomeView)
    requires
        past_shrinking(s),
    ensures
        turn_past_shrinking(resize_resume(s, o)),
{
    lemma_tool_names();
}

/// Past the shrinking no filesystem is resized any more.
pub proof fn lemma_past_shrinking(t: TurnView<ResizeView, ()>, outcomes: Seq<OutcomeView>, k: int)
    requires
        turn_past_shrinking(t),
        0 <= k < resize_actions(t, outcomes).len(),
    ensures
        !resizes_filesystem(resize_actions(t, outcomes)[k]),
    decreases outcomes.len(),
{
    match t.flow {
        FlowView::Done(_) => {},
        FlowView::Wait(s, a) => {
            if outcomes.len() > 0 && k > 0 {
                let next = resize_resume(s, outcomes[0]);
                lemma_past_shrinking_step(s, outcomes[0]);
                lemma_past_shrinking(next, outcomes.skip(1), k - 1);
            }
        },
    }
}

/// What follows a turn of a shrinking resize is a turn of a shrinking
/// resize.
pub proof fn lemma_shrinking_step(s: ResizeView, o: OutcomeView)
    requires
        s is Shrinking || past_shrinking(s),
    ensures
        turn_shrinking(resize_resume(s, o)),
{
    lemma_tool_names();
    if s is Shrinking {
        lemma_fs_never_writes_table(s->Shrinking_part, o);
    } else {
        lemma_past_shrinking_step(s, o);
    }
}

/// In a shrinking resize no filesystem is resized after the partition table
/// was written.
pub proof fn lemma_shrink_order(
    t: TurnView<ResizeView, ()>,
    outcomes: Seq<OutcomeView>,
    i: int,
    j: int,
)
    requires
        turn_shrinking(t),
        0 <= i < j < resize_actions(t, outcomes).len(),
    ensures
        !(writes_table(resize_actions(t, outcomes)[i]) && resizes_filesystem(
            resize_actions(t, outcomes)[j],
        )),
    decreases outcomes.len(),
{
    match t.flow {
        FlowView::Done(_) => {},
        FlowView::Wait(s, a) => {
            if outcomes.len() > 0 {
                let next = resize_resume(s, outcomes[0]);
                lemma_shrinking_step(s, outcomes[0]);
                if i == 0 {
                    if writes_table(a) {
                        lemma_past_shrinking_step(s, outcomes[0]);
                        lemma_past_shrinking(next, outcomes.skip(1), j - 1);
                    }
                } else {
                    lemma_shrink_order(next, outcomes.skip(1), i - 1, j - 1);
                }
            }
        },
    }
}

/// What follows a turn in the growing of the filesystem is such a turn.
pub proof fn lemma_in_growing_step(s: ResizeView, o: OutcomeView)
    requires
        s is Growing,
    ensures
        turn_in_growing(resize_resume(s, o)),
{
    lemma_fs_never_writes_table(s->Growing_part, o);
}

/// While the filesystem is grown no partition table is written any more.
pub proof fn lemma_in_growing(t: TurnView<ResizeView, ()>, outcomes: Seq<OutcomeView>, k: int)
    requires
        turn_in_growing(t),
        0 <= k < resize_actions(t, outcomes).len(),
    ensures
        !writes_table(resize_actions(t, outcomes)[k]),
    decreases outcomes.len(),
{
    match t.flow {
        FlowView::Done(_) => {},
        FlowView::Wait(s, a) => {
            if outcomes.len() > 0 && k > 0 {
                let next = resize_resume(s, outcomes[0]);
                lemma_in_growing_step(s, outcomes[0]);
                lemma_in_growing(next, outcomes.skip(1), k - 1);
            }
        },
    }
}

/// What follows a turn of a growing resize is a turn of a growing resize.
pub proof fn lemma_growing_step(s: ResizeView, o: OutcomeView)
    requires
        s is Growing || before_growing(s),
    ensures
        turn_growing(resize_resume(s, o)),
{
    lemma_tool_names();
    match s {
        ResizeView::Growing { plan, part } => {
            lemma_fs_never_writes_table(part, o);
        },
        ResizeView::Settling { plan, filesystem, growing } => {
            lemma_fs_start_never_writes_table(plan.partition, filesystem, plan.new_size, true);
        },
        _ => {},
    }
}

/// In a growing resize no partition table is written after a filesystem was
/// resized.
pub proof fn lemma_grow_order(
    t: TurnView<ResizeView, ()>,
    outcomes: Seq<OutcomeView>,
    i: int,
    j: int,
)
    requires
        turn_growing(t),
        0 <= i < j < resize_actions(t, outcomes).len(),
    ensures
        !(resizes_filesystem(resize_actions(t, outcomes)[i]) && writes_table(
            resize_actions(t, outcomes)[j],
        )),
    decreases outcomes.len(),
{
    match t.flow {
        FlowView::Done(_) => {},
        FlowView::Wait(s, a) => {
            if outcomes.len() > 0 {
                let next = resize_resume(s, outcomes[0]);
                lemma_growing_step(s, outcomes[0]);
                if i == 0 {
                    if resizes_filesystem(a) {
                        lemma_in_growing_step(s, outcomes[0]);
                        lemma_in_growing(next, outcomes.skip(1), j - 1);
                    }
                } else {
                    lemma_grow_order(next, outcomes.skip(1), i - 1, j - 1);
                }
            }
        },
    }
}

/// A resize that does not enlarge the partition resizes the filesystem
/// strictly before it writes the partition table: whatever the host
/// answers, no filesystem is resized once the table was written.
pub proof fn law_shrink_resizes_filesystem_first(
    plan: ResizePlanView,
    current_size: nat,
    filesystem: Option<Seq<char>>,
    outcomes: Seq<OutcomeView>,
    i: int,
    j: int,
)
    requires
        plan.new_size <= current_size,
        0 <= i < j < resize_actions(resize_decided(plan, current_size, filesystem), outcomes).len(),
    ensures
        !(writes_table(
            resize_actions(resize_decided(plan, current_size, filesystem), outcomes)[i],
        ) && resizes_filesystem(
            resize_actions(resize_decided(plan, current_size, filesystem), outcomes)[j],
        )),
{
    lemma_tool_names();
    lemma_fs_start_never_writes_table(plan.partition, filesystem, plan.new_size, false);
    lemma_shrink_order(resize_decided(plan, current_size, filesystem), outcomes, i, j);
}

/// A resize that enlarges the partition resizes the filesystem strictly
/// after it wrote the partition table: whatever the host answers, no table
/// is written once a filesystem was resized.
pub proof fn law_grow_resizes_filesystem_last(
    plan: ResizePlanView,
    current_size: nat,
    filesystem: Option<Seq<char>>,
    outcomes: Seq<OutcomeView>,
    i: int,
    j: int,
)
    requires
        plan.new_size > current_size,
        0 <= i < j < resize_actions(resize_decided(plan, current_size, filesystem), outcomes).len(),
    ensures
        !(resizes_filesystem(
            resize_actions(resize_decided(plan, current_size, filesystem), outcomes)[i],
        ) && writes_table(
            resize_actions(resize_decided(plan, current_size, filesystem), outcomes)[j],
        )),
{
    lemma_tool_names();
    lemma_grow_order(resize_decided(plan, current_size, filesystem), outcomes, i, j);
}

/// Whether a partition holds a filesystem of a kind that can be resized.
pub open spec fn resizable(filesystem: Option<Seq<char>>) -> bool {
    filesystem matches Some(fs) && way_of(fs) != ResizeWay::Fat && way_of(fs)
        != ResizeWay::Unknown
}

/// The steps of a filesystem resize that come before its tool runs.
pub open spec fn ahead_of_resize(part: FsResizeView) -> bool {
    part is MakingDir || part is Mounting || part is GivingUp
}

/// A turn of a shrinking resize up to the run of the filesystem's tool:
/// the tool is asked for, or the steps before it are taken; the table is
/// not written.
pub open spec fn turn_toward_shrink(t: TurnView<ResizeView, ()>) -> bool {
    t.flow matches FlowView::Wait(s, a) ==> !writes_table(a) && (resizes_filesystem(a) || (
    s matches ResizeView::Shrinking { part, .. } && ahead_of_resize(part)))
}

/// A turn of a growing resize up to the write of the table: the table is
/// written, or it is being dumped and no filesystem is resized.
pub open spec fn turn_toward_write(t: TurnView<ResizeView, ()>) -> bool {
    t.flow matches FlowView::Wait(s, a) ==> writes_table(a) || (s is Dumping
        && !resizes_filesystem(a))
}

/// What follows a step before the filesystem's tool is such a step, or asks
/// for the tool.
pub proof fn lemma_toward_shrink_step(s: ResizeView, o: OutcomeView)
    requires
        s matches ResizeView::Shrinking { part, .. } && ahead_of_resize(part),
    ensures
        turn_toward_shrink(resize_resume(s, o)),
{
    lemma_tool_names();
}

/// From a turn up to the run of the filesystem's tool on, a table is
/// written only after the tool was asked for.
pub proof fn lemma_shrink_asks(t: TurnView<ResizeView, ()>, outcomes: Seq<OutcomeView>, j: int)
    requires
        turn_toward_shrink(t),
        0 <= j < resize_actions(t, outcomes).len(),
        writes_table(resize_actions(t, outcomes)[j]),
    ensures
        exists|i: int| 0 <= i < j && resizes_filesystem(#[trigger] resize_actions(t, outcomes)[i]),
    decreases outcomes.len(),
{
    match t.flow {
        FlowView::Done(_) => {},
        FlowView::Wait(s, a) => {
            let all = resize_actions(t, outcomes);
            assert(all[0] == a);
            if resizes_filesystem(a) {
                assert(resizes_filesystem(all[0]));
            } else {
                let next = resize_resume(s, outcomes[0]);
                let rest = resize_actions(next, outcomes.skip(1));
                lemma_toward_shrink_step(s, outcomes[0]);
                lemma_shrink_asks(next, outcomes.skip(1), j - 1);
                let i = choose|i: int| 0 <= i < j - 1 && resizes_filesystem(#[trigger] rest[i]);
                assert(all[i + 1] == rest[i]);
                assert(resizes_filesystem(all[i + 1]));
            }
        },
    }
}

/// From a turn up to the write of the table on, a filesystem is resized
/// only after the table was written.
pub proof fn lemma_grow_writes(t: TurnView<ResizeView, ()>, outcomes: Seq<OutcomeView>, j: int)
    requires
        turn_toward_write(t),
        0 <= j < resize_actions(t, outcomes).len(),
        resizes_filesystem(resize_actions(t, outcomes)[j]),
    ensures
        exists|i: int| 0 <= i < j && writes_table(#[trigger] resize_actions(t, outcomes)[i]),
    decreases outcomes.len(),
{
    lemma_tool_names();
    match t.flow {
        FlowView::Done(_) => {},
        FlowView::Wait(s, a) => {
            let all = resize_actions(t, outcomes);
            assert(all[0] == a);
            if writes_table(a) {
                assert(writes_table(all[0]));
            } else {
                let next = resize_resume(s, outcomes[0]);
                let rest = resize_actions(next, outcomes.skip(1));
                assert(turn_toward_write(next));
                lemma_grow_writes(next, outcomes.skip(1), j - 1);
                let i = choose|i: int| 0 <= i < j - 1 && writes_table(#[trigger] rest[i]);
                assert(all[i + 1] == rest[i]);
                assert(writes_table(all[i + 1]));
            }
        },
    }
}

/// A resize that does not enlarge a partition whose filesystem can be
/// resized writes the partition table only after it asked for the resize
/// of the filesystem: whatever the host answers, before every write of
/// the table stands a run of the tool that resizes the filesystem.
pub proof fn law_shrink_asks_for_filesystem_before_table(
    plan: ResizePlanView,
    current_size: nat,
    filesystem: Option<Seq<char>>,
    outcomes: Seq<OutcomeView>,
    j: int,
)
    requires
        plan.new_size <= current_size,
        resizable(filesystem),
        0 <= j < resize_actions(resize_decided(plan, current_size, filesystem), outcomes).len(),
        writes_table(resize_actions(resize_decided(plan, current_size, filesystem), outcomes)[j]),
    ensures
        exists|i: int|
            0 <= i < j && resizes_filesystem(
                #[trigger] resize_actions(
                    resize_decided(plan, current_size, filesystem),
                    outcomes,
                )[i],
            ),
{
    lemma_tool_names();
    lemma_shrink_asks(resize_decided(plan, current_size, filesystem), outcomes, j);
}

/// A resize that enlarges the partition asks for the resize of the
/// filesystem only after it wrote the partition table: whatever the host
/// answers, before every run of a tool that resizes the filesystem stands
/// a write of the table.
pub proof fn law_grow_writes_table_before_filesystem(
    plan: ResizePlanView,
    current_size: nat,
    filesystem: Option<Seq<char>>,
    outcomes: Seq<OutcomeView>,
    j: int,
)
    requires
        plan.new_size > current_size,
        0 <= j < resize_actions(resize_decided(plan, current_size, filesystem), outcomes).len(),
        resizes_filesystem(
            resize_actions(resize_decided(plan, current_size, filesystem), outcomes)[j],
        ),
    ensures
        exists|i: int|
            0 <= i < j && writes_table(
                #[trigger] resize_actions(
                    resize_decided(plan, current_size, filesystem),
                    outcomes,
                )[i],
            ),
{
    lemma_tool_names();
    lemma_grow_writes(resize_decided(plan, current_size, filesystem), outcomes, j);
}

} // verus!
