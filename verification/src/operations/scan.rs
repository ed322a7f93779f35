//! Finding out whether a device is unlocked, and as what.
//!
//! The registry of active mappings is listed, and each mapping is asked for
//! its status until one reports the device as its backing device. Nothing is
//! remembered from one scan to the next.

use vstd::prelude::*;
use crate::engine::{
    args2, finish, run, stdout_of, stray, succeeded, tool, wait, Action, Outcome, OutcomeView,
    Turn, TurnView,
};
use crate::event::ev0;
use crate::luks::{backing_device, find_backing_device};
use crate::operations::{active_status, inactive_status, LuksStatus, LuksStatusView};
use crate::text::{copy, equal, texts};

verus! {

#[derive(Debug, Clone, Copy, PartialEq, Eq, Structural)]
pub enum ScanPhase {
    /// Waiting for the names of the active mappings.
    Listing,
    /// Waiting for the status of the mapping at `next`.
    Querying,
}

/// A scan of the mappings for the one that unlocks `device`.
#[derive(Debug, Clone, PartialEq, Eq)]
pub struct StatusScan {
    pub phase: ScanPhase,
    pub device: String,
    pub names: Vec<String>,
    pub next: usize,
}

/// The mathematical content of a [`StatusScan`].
pub struct ScanView {
    pub phase: ScanPhase,
    pub device: Seq<char>,
    pub names: Seq<Seq<char>>,
    pub next: nat,
}

impl View for StatusScan {
    type V = ScanView;

    open spec fn view(&self) -> ScanView {
        ScanView {
            phase: self.phase,
            device: self.device@,
            names: texts(self.names@),
            next: self.next as nat,
        }
    }
}

/// The first index at or after `from` whose name is not that of the
/// registry's control node; the length of `names` where there is none.
pub open spec fn candidate(names: Seq<Seq<char>>, from: nat) -> nat
    decreases names.len() - from,
{
    if from >= names.len() {
        names.len()
    } else if names[from as int] == "control"@ {
        candidate(names, from + 1)
    } else {
        from
    }
}

/// The invocation that asks a mapping for its status.
pub open spec fn status_query(name: Seq<char>) -> crate::engine::ActionView {
    tool("cryptsetup"@, seq!["status"@, name])
}

/// The scan's turn when the mappings before `from` did not match.
pub open spec fn scan_from(device: Seq<char>, names: Seq<Seq<char>>, from: nat) -> TurnView<
    ScanView,
    LuksStatusView,
> {
    let k = candidate(names, from);
    if k >= names.len() {
        finish(Seq::empty(), inactive_status())
    } else {
        wait(
            Seq::empty(),
            ScanView { phase: ScanPhase::Querying, device, names, next: k },
            status_query(names[k as int]),
        )
    }
}

/// The scan's first turn: it asks for the registry.
pub open spec fn scan_start(device: Seq<char>) -> TurnView<ScanView, LuksStatusView> {
    wait(
        Seq::empty(),
        ScanView { phase: ScanPhase::Listing, device, names: Seq::empty(), next: 0 },
        crate::engine::ActionView::ListMappings,
    )
}

/// The scan's turn on an outcome. A registry that cannot be read means that
/// nothing is unlocked. A mapping matches when its status could be had and
/// names the device as backing device; the first match ends the scan.
pub open spec fn scan_resume(s: ScanView, o: OutcomeView) -> TurnView<ScanView, LuksStatusView> {
    match s.phase {
        ScanPhase::Listing => match o {
            OutcomeView::Mappings(None) => finish(Seq::empty(), inactive_status()),
            OutcomeView::Mappings(Some(names)) => scan_from(s.device, names, 0),
            _ => stray(),
        },
        ScanPhase::Querying => match o {
            OutcomeView::Tool(_) => if s.next >= s.names.len() {
                stray()
            } else if succeeded(o) && backing_device(stdout_of(o), s.device) is Some {
                finish(
                    Seq::empty(),
                    active_status(
                        s.names[s.next as int],
                        backing_device(stdout_of(o), s.device)->0,
                    ),
                )
            } else {
                scan_from(s.device, s.names, s.next + 1)
            },
            _ => stray(),
        },
    }
}

/// Whether the status that a mapping reports makes it the mapping of the
/// device.
pub open spec fn unlocks(report: OutcomeView, device: Seq<char>) -> bool {
    succeeded(report) && backing_device(stdout_of(report), device) is Some
}

/// Whether the mapping at `k` is asked and is the mapping of the device.
pub open spec fn is_match(
    names: Seq<Seq<char>>,
    reports: spec_fn(Seq<char>) -> OutcomeView,
    device: Seq<char>,
    k: int,
) -> bool {
    0 <= k < names.len() && names[k] != "control"@ && unlocks(reports(names[k]), device)
}

pub proof fn lemma_candidate(names: Seq<Seq<char>>, from: nat)
    ensures
        from <= candidate(names, from) || candidate(names, from) == names.len(),
        candidate(names, from) < names.len() ==> names[candidate(names, from) as int]
            != "control"@,
        forall|j: int| from <= j < candidate(names, from) && j < names.len() ==> names[j]
            == "control"@,
    decreases names.len() - from,
{
    if from < names.len() && names[from as int] == "control"@ {
        lemma_candidate(names, from + 1);
    }
}

/// How many mappings a turn of the scan leaves to be asked.
pub open spec fn left_to_ask(t: TurnView<ScanView, LuksStatusView>) -> nat {
    match t.flow {
        crate::engine::FlowView::Wait(s, a) => if s.phase == ScanPhase::Querying && s.next
            < s.names.len() {
            (s.names.len() - s.next) as nat
        } else {
            0
        },
        _ => 0,
    }
}

/// The status with which the scan ends from the turn `t` on, when the
/// mapping of each name answers the status query with `reports` of that
/// name.
pub open spec fn scan_end(
    t: TurnView<ScanView, LuksStatusView>,
    reports: spec_fn(Seq<char>) -> OutcomeView,
) -> LuksStatusView
    decreases left_to_ask(t),
    via scan_end_terminates
{
    match t.flow {
        crate::engine::FlowView::Done(Ok(status)) => status,
        crate::engine::FlowView::Done(Err(f)) => inactive_status(),
        crate::engine::FlowView::Wait(s, a) => if s.phase == ScanPhase::Querying && s.next
            < s.names.len() {
            scan_end(scan_resume(s, reports(s.names[s.next as int])), reports)
        } else {
            inactive_status()
        },
    }
}

#[via_fn]
proof fn scan_end_terminates(
    t: TurnView<ScanView, LuksStatusView>,
    reports: spec_fn(Seq<char>) -> OutcomeView,
) {
    match t.flow {
        crate::engine::FlowView::Wait(s, a) => {
            if s.phase == ScanPhase::Querying && s.next < s.names.len() {
                lemma_candidate(s.names, s.next + 1);
            }
        },
        _ => {},
    }
}

/// The scan from the mapping at `from` on ends inactive when no mapping
/// from there on is the mapping of the device.
pub proof fn lemma_scan_none(
    device: Seq<char>,
    names: Seq<Seq<char>>,
    reports: spec_fn(Seq<char>) -> OutcomeView,
    from: nat,
)
    requires
        forall|i: int| 0 <= i < names.len() ==> #[trigger] reports(names[i]) is Tool,
        forall|j: int| from <= j ==> !is_match(names, reports, device, j),
    ensures
        scan_end(scan_from(device, names, from), reports) == inactive_status(),
    decreases names.len() - from,
{
    lemma_candidate(names, from);
    let c = candidate(names, from);
    if c < names.len() {
        let s = ScanView { phase: ScanPhase::Querying, device, names, next: c };
        let answer = reports(names[c as int]);
        assert(answer is Tool);
        assert(!is_match(names, reports, device, c as int));
        assert(scan_resume(s, answer) == scan_from(device, names, c + 1));
        lemma_scan_none(device, names, reports, c + 1);
    }
}

/// The scan from the mapping at `from` on ends active with the first
/// mapping from there on that is the mapping of the device.
pub proof fn lemma_scan_first(
    device: Seq<char>,
    names: Seq<Seq<char>>,
    reports: spec_fn(Seq<char>) -> OutcomeView,
    from: nat,
    k: int,
)
    requires
        forall|i: int| 0 <= i < names.len() ==> #[trigger] reports(names[i]) is Tool,
        from <= k,
        is_match(names, reports, device, k),
        forall|j: int| from <= j < k ==> !is_match(names, reports, device, j),
    ensures
        scan_end(scan_from(device, names, from), reports) == active_status(
            names[k],
            backing_device(stdout_of(reports(names[k])), device)->0,
        ),
    decreases names.len() - from,
{
    lemma_candidate(names, from);
    let c = candidate(names, from);
    if c > k {
        assert(names[k] == "control"@);
    }
    let s = ScanView { phase: ScanPhase::Querying, device, names, next: c };
    let answer = reports(names[c as int]);
    assert(answer is Tool);
    if c == k {
        let status = active_status(names[k], backing_device(stdout_of(answer), device)->0);
        assert(scan_resume(s, answer) == crate::engine::finish::<ScanView, LuksStatusView>(
            Seq::empty(),
            status,
        ));
    } else {
        assert(!is_match(names, reports, device, c as int));
        assert(scan_resume(s, answer) == scan_from(device, names, c + 1));
        lemma_scan_first(device, names, reports, c + 1, k);
    }
}

/// The turn of the scan once the registry `names` was listed.
pub open spec fn scan_listed(device: Seq<char>, names: Seq<Seq<char>>) -> TurnView<
    ScanView,
    LuksStatusView,
> {
    scan_resume(
        ScanView { phase: ScanPhase::Listing, device, names: Seq::empty(), next: 0 },
        OutcomeView::Mappings(Some(names)),
    )
}

/// A device is reported as unlocked exactly when some mapping other than
/// the registry's control node reports it as its backing device, and then
/// under the name of the first such mapping. With the registry `names`, and
/// each mapping answering its status query with `reports` of its name: if
/// `k` is the first mapping that matches, the scan ends active with the
/// name at `k` and the backing path it reports.
pub proof fn law_scan_reports_first_match(
    device: Seq<char>,
    names: Seq<Seq<char>>,
    reports: spec_fn(Seq<char>) -> OutcomeView,
    k: int,
)
    requires
        forall|i: int| 0 <= i < names.len() ==> #[trigger] reports(names[i]) is Tool,
        is_match(names, reports, device, k),
        forall|j: int| 0 <= j < k ==> !is_match(names, reports, device, j),
    ensures
        scan_end(scan_listed(device, names), reports) == active_status(
            names[k],
            backing_device(stdout_of(reports(names[k])), device)->0,
        ),
{
    lemma_scan_first(device, names, reports, 0, k);
}

/// Where no mapping matches, the scan ends inactive.
pub proof fn law_scan_without_match_is_inactive(
    device: Seq<char>,
    names: Seq<Seq<char>>,
    reports: spec_fn(Seq<char>) -> OutcomeView,
)
    requires
        forall|i: int| 0 <= i < names.len() ==> #[trigger] reports(names[i]) is Tool,
        forall|j: int| !is_match(names, reports, device, j),
    ensures
        scan_end(scan_listed(device, names), reports) == inactive_status(),
{
    lemma_scan_none(device, names, reports, 0);
}

fn advance(device: String, names: Vec<String>, from: usize) -> (t: Turn<StatusScan, LuksStatus>)
    requires
        from <= names.len(),
    ensures
        t@ == scan_from(device@, texts(names@), from as nat),
{
    let mut k: usize = from;
    while k < names.len() && equal(names[k].as_str(), "control")
        invariant
            from <= k <= names.len(),
            candidate(texts(names@), k as nat) == candidate(texts(names@), from as nat),
        decreases names.len() - k,
    {
        k = k + 1;
    }
    if k >= names.len() {
        Turn::finish(ev0(), LuksStatus::inactive())
    } else {
        let action = run("cryptsetup", args2("status", names[k].as_str()));
        Turn::wait(ev0(), StatusScan { phase: ScanPhase::Querying, device, names, next: k }, action)
    }
}

impl StatusScan {
    /// Begins a scan for the mapping that unlocks `device`.
    pub fn start(device: &str) -> (t: Turn<StatusScan, LuksStatus>)
        ensures
            t@ == scan_start(device@),
    {
        let names: Vec<String> = Vec::new();
        assert(texts(names@) =~= Seq::<Seq<char>>::empty());
        Turn::wait(
            ev0(),
            StatusScan { phase: ScanPhase::Listing, device: copy(device), names, next: 0 },
            Action::ListMappings,
        )
    }

    /// Continues the scan with the outcome of the action it waited for.
    pub fn resume(self, outcome: Outcome) -> (t: Turn<StatusScan, LuksStatus>)
        ensures
            t@ == scan_resume(self@, outcome@),
    {
        match self.phase {
            ScanPhase::Listing => match outcome {
                Outcome::Mappings(None) => Turn::finish(ev0(), LuksStatus::inactive()),
                Outcome::Mappings(Some(names)) => advance(self.device, names, 0),
                _ => Turn::stray(),
            },
            ScanPhase::Querying => match outcome {
                Outcome::Tool(_) => {
                    if self.next >= self.names.len() {
                        return Turn::stray();
                    }
                    if outcome.succeeded() {
                        let found = find_backing_device(
                            outcome.stdout().as_str(),
                            self.device.as_str(),
                        );
                        match found {
                            Some(path) => {
                                let name = copy(self.names[self.next].as_str());
                                return Turn::finish(ev0(), LuksStatus::active(name, path));
                            },
                            None => {},
                        }
                    }
                    let next: usize = self.next + 1;
                    advance(self.device, self.names, next)
                },
                _ => Turn::stray(),
            },
        }
    }
}

} // verus!
