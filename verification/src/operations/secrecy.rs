//! Where a passphrase goes.
//!
//! A passphrase is handed to a tool on the tool's input and nowhere else.
//! The laws here say so by comparison: put any other passphrase in its
//! place, and every turn of an operation stays the same but for the input
//! of the tool it runs and the passphrase it keeps for later.

use vstd::prelude::*;
use crate::engine::{ActionView, CommandView, FlowView, OutcomeView, TurnView};
use crate::operations::create::{ce_resume, ce_start, CreateEncryptedView};
use crate::operations::dispatch::{op_resume, op_start, raised, JobView, OperationView};
use crate::operations::encrypt::{
    eaf_resume, eaf_start, encrypt_resume, encrypt_start, EncryptAndFormatView, EncryptView,
};
use crate::operations::lock::{unlock_resume, unlock_start, UnlockView};
use crate::operations::FilesystemType;

verus! {

/// An action without what is written to the tool's input.
pub open spec fn hushed_action(a: ActionView) -> ActionView {
    match a {
        ActionView::Run(c) => ActionView::Run(CommandView { input: None, ..c }),
        _ => a,
    }
}

/// A turn without the input of its action, its state made silent by
/// `hush`.
pub open spec fn hushed_turn<SV, TV>(t: TurnView<SV, TV>, hush: spec_fn(SV) -> SV) -> TurnView<
    SV,
    TV,
> {
    match t.flow {
        FlowView::Wait(s, a) => TurnView {
            events: t.events,
            flow: FlowView::Wait(hush(s), hushed_action(a)),
        },
        FlowView::Done(r) => t,
    }
}

/// An unlocking without the passphrase it keeps.
pub open spec fn hushed_unlock(s: UnlockView) -> UnlockView {
    match s {
        UnlockView::Scanning { device, passphrase, mapper, scan } => UnlockView::Scanning {
            device,
            passphrase: Seq::empty(),
            mapper,
            scan,
        },
        _ => s,
    }
}

/// An encrypting without the passphrase it keeps.
pub open spec fn hushed_encrypt(s: EncryptView) -> EncryptView {
    match s {
        EncryptView::Checking { partition, passphrase, check } => EncryptView::Checking {
            partition,
            passphrase: Seq::empty(),
            check,
        },
        _ => s,
    }
}

/// An encrypting and formatting without the passphrase it keeps.
pub open spec fn hushed_eaf(s: EncryptAndFormatView) -> EncryptAndFormatView {
    match s {
        EncryptAndFormatView::Encrypting {
            partition,
            passphrase,
            fs,
            part,
        } => EncryptAndFormatView::Encrypting {
            partition,
            passphrase: Seq::empty(),
            fs,
            part: hushed_encrypt(part),
        },
        EncryptAndFormatView::Pausing {
            partition,
            passphrase,
            fs,
        } => EncryptAndFormatView::Pausing { partition, passphrase: Seq::empty(), fs },
        EncryptAndFormatView::Unlocking {
            partition,
            fs,
            part,
        } => EncryptAndFormatView::Unlocking { partition, fs, part: hushed_unlock(part) },
        _ => s,
    }
}

/// The adding of an encrypted partition without the passphrase it keeps.
pub open spec fn hushed_ce(s: CreateEncryptedView) -> CreateEncryptedView {
    match s {
        CreateEncryptedView::Creating {
            disk,
            passphrase,
            fs,
            part,
        } => CreateEncryptedView::Creating { disk, passphrase: Seq::empty(), fs, part },
        CreateEncryptedView::Encrypting { disk, part } => CreateEncryptedView::Encrypting {
            disk,
            part: hushed_eaf(part),
        },
    }
}

/// A job under way without the passphrase it keeps.
pub open spec fn hushed_operation(s: OperationView) -> OperationView {
    match s {
        OperationView::UnlockLuks(p) => OperationView::UnlockLuks(hushed_unlock(p)),
        OperationView::EncryptPartition(p) => OperationView::EncryptPartition(hushed_encrypt(p)),
        OperationView::EncryptAndFormat(p) => OperationView::EncryptAndFormat(hushed_eaf(p)),
        OperationView::CreateEncryptedPartition(p) => OperationView::CreateEncryptedPartition(
            hushed_ce(p),
        ),
        _ => s,
    }
}

/// A job without its passphrase.
pub open spec fn hushed_job(job: JobView) -> JobView {
    match job {
        JobView::UnlockLuks { device, passphrase, mapper_name } => JobView::UnlockLuks {
            device,
            passphrase: Seq::empty(),
            mapper_name,
        },
        JobView::EncryptPartition { partition, passphrase } => JobView::EncryptPartition {
            partition,
            passphrase: Seq::empty(),
        },
        JobView::EncryptAndFormat { partition, passphrase, fs } => JobView::EncryptAndFormat {
            partition,
            passphrase: Seq::empty(),
            fs,
        },
        JobView::CreateEncryptedPartition {
            disk,
            size,
            passphrase,
            fs,
        } => JobView::CreateEncryptedPartition { disk, size, passphrase: Seq::empty(), fs },
        _ => job,
    }
}

pub proof fn lemma_unlock_hushed()
    ensures
        forall|s: UnlockView, o: OutcomeView|
            hushed_turn(#[trigger] unlock_resume(s, o), |x: UnlockView| hushed_unlock(x))
                == hushed_turn(
                unlock_resume(hushed_unlock(s), o),
                |x: UnlockView| hushed_unlock(x),
            ),
        forall|d: Seq<char>, p: Seq<char>, m: Seq<char>|
            hushed_turn(#[trigger] unlock_start(d, p, m), |x: UnlockView| hushed_unlock(x))
                == hushed_turn(
                unlock_start(d, Seq::empty(), m),
                |x: UnlockView| hushed_unlock(x),
            ),
{
}

pub proof fn lemma_encrypt_hushed()
    ensures
        forall|s: EncryptView, o: OutcomeView|
            hushed_turn(#[trigger] encrypt_resume(s, o), |x: EncryptView| hushed_encrypt(x))
                == hushed_turn(
                encrypt_resume(hushed_encrypt(s), o),
                |x: EncryptView| hushed_encrypt(x),
            ),
        forall|d: Seq<char>, p: Seq<char>|
            hushed_turn(#[trigger] encrypt_start(d, p), |x: EncryptView| hushed_encrypt(x))
                == hushed_turn(
                encrypt_start(d, Seq::empty()),
                |x: EncryptView| hushed_encrypt(x),
            ),
{
}

#[verifier::rlimit(60)]
pub proof fn lemma_eaf_hushed()
    ensures
        forall|s: EncryptAndFormatView, o: OutcomeView|
            hushed_turn(#[trigger] eaf_resume(s, o), |x: EncryptAndFormatView| hushed_eaf(x))
                == hushed_turn(
                eaf_resume(hushed_eaf(s), o),
                |x: EncryptAndFormatView| hushed_eaf(x),
            ),
        forall|d: Seq<char>, p: Seq<char>, fs: FilesystemType|
            hushed_turn(#[trigger] eaf_start(d, p, fs), |x: EncryptAndFormatView| hushed_eaf(x))
                == hushed_turn(
                eaf_start(d, Seq::empty(), fs),
                |x: EncryptAndFormatView| hushed_eaf(x),
            ),
{
    lemma_unlock_hushed();
    lemma_encrypt_hushed();
}

#[verifier::rlimit(60)]
pub proof fn lemma_ce_hushed()
    ensures
        forall|s: CreateEncryptedView, o: OutcomeView|
            hushed_turn(#[trigger] ce_resume(s, o), |x: CreateEncryptedView| hushed_ce(x))
                == hushed_turn(
                ce_resume(hushed_ce(s), o),
                |x: CreateEncryptedView| hushed_ce(x),
            ),
        forall|d: Seq<char>, z: Seq<char>, p: Seq<char>, fs: FilesystemType|
            hushed_turn(#[trigger] ce_start(d, z, p, fs), |x: CreateEncryptedView| hushed_ce(x))
                == hushed_turn(
                ce_start(d, z, Seq::empty(), fs),
                |x: CreateEncryptedView| hushed_ce(x),
            ),
{
    lemma_eaf_hushed();
}

/// What is raised from two turns that differ in the passphrase only
/// differs in the passphrase only.
pub proof fn lemma_raised_hushed<CV>(
    t1: TurnView<CV, ()>,
    t2: TurnView<CV, ()>,
    wrap: spec_fn(CV) -> OperationView,
    hush: spec_fn(CV) -> CV,
)
    requires
        hushed_turn(t1, hush) == hushed_turn(t2, hush),
        forall|c: CV| hushed_operation(#[trigger] wrap(c)) == wrap(hush(c)),
    ensures
        hushed_turn(raised(t1, wrap), |x: OperationView| hushed_operation(x)) == hushed_turn(
            raised(t2, wrap),
            |x: OperationView| hushed_operation(x),
        ),
{
    match t1.flow {
        FlowView::Wait(c1, a1) => {
            assert(t2.flow is Wait);
            let c2 = t2.flow->Wait_0;
            assert(hush(c1) == hush(c2));
            assert(hushed_operation(wrap(c1)) == wrap(hush(c1)));
            assert(hushed_operation(wrap(c2)) == wrap(hush(c2)));
        },
        FlowView::Done(r) => {
            assert(t2 == t1);
        },
    }
}

/// The passphrase reaches nothing but the input of a tool: with any other
/// passphrase in its place, a turn of a job under way emits the same
/// events, ends with the same result, and asks for the same action but for
/// what is written to the tool's input.
#[verifier::rlimit(60)]
pub proof fn law_passphrase_goes_to_input_only(s: OperationView, o: OutcomeView)
    ensures
        hushed_turn(op_resume(s, o), |x: OperationView| hushed_operation(x)) == hushed_turn(
            op_resume(hushed_operation(s), o),
            |x: OperationView| hushed_operation(x),
        ),
{
    match s {
        OperationView::UnlockLuks(p) => {
            lemma_unlock_hushed();
            lemma_raised_hushed(
                unlock_resume(p, o),
                unlock_resume(hushed_unlock(p), o),
                |s: UnlockView| OperationView::UnlockLuks(s),
                |x: UnlockView| hushed_unlock(x),
            );
        },
        OperationView::EncryptPartition(p) => {
            lemma_encrypt_hushed();
            lemma_raised_hushed(
                encrypt_resume(p, o),
                encrypt_resume(hushed_encrypt(p), o),
                |s: EncryptView| OperationView::EncryptPartition(s),
                |x: EncryptView| hushed_encrypt(x),
            );
        },
        OperationView::EncryptAndFormat(p) => {
            lemma_eaf_hushed();
            lemma_raised_hushed(
                eaf_resume(p, o),
                eaf_resume(hushed_eaf(p), o),
                |s: EncryptAndFormatView| OperationView::EncryptAndFormat(s),
                |x: EncryptAndFormatView| hushed_eaf(x),
            );
        },
        OperationView::CreateEncryptedPartition(p) => {
            lemma_ce_hushed();
            lemma_raised_hushed(
                ce_resume(p, o),
                ce_resume(hushed_ce(p), o),
                |s: CreateEncryptedView| OperationView::CreateEncryptedPartition(s),
                |x: CreateEncryptedView| hushed_ce(x),
            );
        },
        _ => {
            assert(hushed_operation(s) == s);
        },
    }
}

/// The same of the first turn of every job.
#[verifier::rlimit(60)]
pub proof fn law_first_turn_keeps_passphrase_out(job: JobView)
    ensures
        hushed_turn(op_start(job), |x: OperationView| hushed_operation(x)) == hushed_turn(
            op_start(hushed_job(job)),
            |x: OperationView| hushed_operation(x),
        ),
{
    match job {
        JobView::UnlockLuks { device, passphrase, mapper_name } => {
            lemma_unlock_hushed();
            lemma_raised_hushed(
                unlock_start(device, passphrase, mapper_name),
                unlock_start(device, Seq::empty(), mapper_name),
                |s: UnlockView| OperationView::UnlockLuks(s),
                |x: UnlockView| hushed_unlock(x),
            );
        },
        JobView::EncryptPartition { partition, passphrase } => {
            lemma_encrypt_hushed();
            lemma_raised_hushed(
                encrypt_start(partition, passphrase),
                encrypt_start(partition, Seq::empty()),
                |s: EncryptView| OperationView::EncryptPartition(s),
                |x: EncryptView| hushed_encrypt(x),
            );
        },
        JobView::EncryptAndFormat { partition, passphrase, fs } => {
            lemma_eaf_hushed();
            lemma_raised_hushed(
                eaf_start(partition, passphrase, fs),
                eaf_start(partition, Seq::empty(), fs),
                |s: EncryptAndFormatView| OperationView::EncryptAndFormat(s),
                |x: EncryptAndFormatView| hushed_eaf(x),
            );
        },
        JobView::CreateEncryptedPartition { disk, size, passphrase, fs } => {
            lemma_ce_hushed();
            lemma_raised_hushed(
                ce_start(disk, size, passphrase, fs),
                ce_start(disk, size, Seq::empty(), fs),
                |s: CreateEncryptedView| OperationView::CreateEncryptedPartition(s),
                |x: CreateEncryptedView| hushed_ce(x),
            );
        },
        _ => {
            assert(hushed_job(job) == job);
        },
    }
}

} // verus!
