//! Finding out what the inventory says of one partition.
//!
//! The device listing gives a partition's name, size, filesystem and mount
//! point. Whether it is an encrypted container, as what it is unlocked,
//! where its mapping is mounted and how full it is takes further questions,
//! each of which depends on the answers before it.

use vstd::prelude::*;
use crate::engine::{
    finish, lift, stray, succeeded, wait, Flow, Outcome, OutcomeView, Turn, TurnView,
};
use crate::event::ev0;
use crate::operations::check::{ask_luks, luks_query};
use crate::operations::entry::{get_luks_info, header_query, luks_dump, luks_info_of};
use crate::operations::inventory::{
    read_target, read_usage, target_probe, target_query, told_target, told_usage, usage_probe,
    usage_query, ListedPartition, ListedPartitionView,
};
use crate::operations::scan::{scan_resume, scan_start, ScanView, StatusScan};
use crate::operations::{LuksStatus, LuksStatusView};
use crate::partition::{
    active_mount, active_mount_point, assembled, opt_encryption, Encryption, EncryptionView,
    Partition, PartitionView,
};
use crate::text::opt_text;

verus! {

/// The describing of a partition, by the step it waits for.
#[derive(Debug, Clone, PartialEq, Eq)]
pub enum Describe {
    /// Is the partition an encrypted container?
    Probing { listed: ListedPartition },
    /// What does its header say?
    Dumping { listed: ListedPartition },
    /// As what is it unlocked?
    Scanning {
        listed: ListedPartition,
        version: Option<String>,
        uuid: Option<String>,
        scan: StatusScan,
    },
    /// Where is its mapping mounted?
    Locating {
        listed: ListedPartition,
        version: Option<String>,
        uuid: Option<String>,
        mapper: String,
    },
    /// How full is it?
    Measuring { listed: ListedPartition, encryption: Option<Encryption> },
}

/// The mathematical content of a [`Describe`].
pub enum DescribeView {
    Probing { listed: ListedPartitionView },
    Dumping { listed: ListedPartitionView },
    Scanning {
        listed: ListedPartitionView,
        version: Option<Seq<char>>,
        uuid: Option<Seq<char>>,
        scan: ScanView,
    },
    Locating {
        listed: ListedPartitionView,
        version: Option<Seq<char>>,
        uuid: Option<Seq<char>>,
        mapper: Seq<char>,
    },
    Measuring { listed: ListedPartitionView, encryption: Option<EncryptionView> },
}

impl View for Describe {
    type V = DescribeView;

    open spec fn view(&self) -> DescribeView {
        match self {
            Describe::Probing { listed } => DescribeView::Probing { listed: listed@ },
            Describe::Dumping { listed } => DescribeView::Dumping { listed: listed@ },
            Describe::Scanning { listed, version, uuid, scan } => DescribeView::Scanning {
                listed: listed@,
                version: opt_text(*version),
                uuid: opt_text(*uuid),
                scan: scan@,
            },
            Describe::Locating { listed, version, uuid, mapper } => DescribeView::Locating {
                listed: listed@,
                version: opt_text(*version),
                uuid: opt_text(*uuid),
                mapper: mapper@,
            },
            Describe::Measuring { listed, encryption } => DescribeView::Measuring {
                listed: listed@,
                encryption: opt_encryption(*encryption),
            },
        }
    }
}

/// The record of a listed partition with the given encryption and usage.
pub open spec fn described(
    listed: ListedPartitionView,
    encryption: Option<EncryptionView>,
    usage: Option<crate::partition::Usage>,
) -> PartitionView {
    assembled(
        listed.name,
        listed.size,
        listed.filesystem,
        listed.mount_point,
        listed.label,
        encryption,
        usage,
    )
}

/// The first turn: it asks whether the partition is an encrypted container.
pub open spec fn describe_start(listed: ListedPartitionView) -> TurnView<
    DescribeView,
    PartitionView,
> {
    wait(Seq::empty(), DescribeView::Probing { listed }, luks_query(listed.name))
}

/// The turn once the encryption is known. The usage is asked for only of a
/// partition whose active device is mounted.
pub open spec fn describe_measure(listed: ListedPartitionView, encryption: Option<EncryptionView>)
    -> TurnView<DescribeView, PartitionView> {
    match active_mount_point(listed.mount_point, encryption) {
        Some(at) => wait(
            Seq::empty(),
            DescribeView::Measuring { listed, encryption },
            usage_query(at),
        ),
        None => finish(Seq::empty(), described(listed, encryption, None)),
    }
}

/// The turn that a turn of the status scan amounts to. Only of a partition
/// that is unlocked is the mount point of its mapping asked for.
pub open spec fn describe_scan(
    listed: ListedPartitionView,
    version: Option<Seq<char>>,
    uuid: Option<Seq<char>>,
    t: TurnView<ScanView, LuksStatusView>,
) -> TurnView<DescribeView, PartitionView> {
    lift(
        t,
        |s: ScanView| DescribeView::Scanning { listed, version, uuid, scan: s },
        |st: LuksStatusView|
            match st.mapper_name {
                Some(mapper) => wait(
                    Seq::empty(),
                    DescribeView::Locating { listed, version, uuid, mapper },
                    target_query(mapper),
                ),
                None => describe_measure(
                    listed,
                    Some(
                        EncryptionView {
                            version,
                            uuid,
                            mapper_device: None,
                            mapper_mount_point: None,
                        },
                    ),
                ),
            },
    )
}

/// The turn on an outcome. A header that cannot be read leaves version and
/// UUID unknown; the partition counts as encrypted all the same.
pub open spec fn describe_resume(s: DescribeView, o: OutcomeView) -> TurnView<
    DescribeView,
    PartitionView,
> {
    match s {
        DescribeView::Probing { listed } => match o {
            OutcomeView::Tool(_) => if succeeded(o) {
                wait(Seq::empty(), DescribeView::Dumping { listed }, header_query(listed.name))
            } else {
                describe_measure(listed, None)
            },
            _ => stray(),
        },
        DescribeView::Dumping { listed } => match o {
            OutcomeView::Tool(_) => match luks_info_of(o) {
                Ok(info) => describe_scan(
                    listed,
                    Some(info.version),
                    Some(info.uuid),
                    scan_start(listed.name),
                ),
                Err(_) => describe_scan(listed, None, None, scan_start(listed.name)),
            },
            _ => stray(),
        },
        DescribeView::Scanning { listed, version, uuid, scan } => describe_scan(
            listed,
            version,
            uuid,
            scan_resume(scan, o),
        ),
        DescribeView::Locating { listed, version, uuid, mapper } => match o {
            OutcomeView::Tool(_) => describe_measure(
                listed,
                Some(
                    EncryptionView {
                        version,
                        uuid,
                        mapper_device: Some(mapper),
                        mapper_mount_point: told_target(o),
                    },
                ),
            ),
            _ => stray(),
        },
        DescribeView::Measuring { listed, encryption } => match o {
            OutcomeView::Tool(_) => finish(
                Seq::empty(),
                described(listed, encryption, told_usage(o)),
            ),
            _ => stray(),
        },
    }
}

fn conclude(listed: ListedPartition, encryption: Option<Encryption>, usage: Option<
    crate::partition::Usage,
>) -> (p: Partition)
    ensures
        p@ == described(listed@, opt_encryption(encryption), usage),
        p.wf(),
{
    let ListedPartition { name, size, filesystem, mount_point, label } = listed;
    Partition::assemble(name, size, filesystem, mount_point, label, encryption, usage)
}

fn measure(listed: ListedPartition, encryption: Option<Encryption>) -> (t: Turn<
    Describe,
    Partition,
>)
    ensures
        t@ == describe_measure(listed@, opt_encryption(encryption)),
{
    match active_mount(&listed.mount_point, &encryption) {
        Some(at) => {
            let action = usage_probe(at.as_str());
            Turn::wait(ev0(), Describe::Measuring { listed, encryption }, action)
        },
        None => Turn::finish(ev0(), conclude(listed, encryption, None)),
    }
}

fn lift_scan(
    listed: ListedPartition,
    version: Option<String>,
    uuid: Option<String>,
    t: Turn<StatusScan, LuksStatus>,
) -> (r: Turn<Describe, Partition>)
    ensures
        r@ == describe_scan(listed@, opt_text(version), opt_text(uuid), t@),
{
    let Turn { events, flow } = t;
    match flow {
        Flow::Wait(s, a) => Turn::wait(
            events,
            Describe::Scanning { listed, version, uuid, scan: s },
            a,
        ),
        Flow::Done(Err(e)) => Turn::abort_with(events, e),
        Flow::Done(Ok(st)) => match st.mapper_name {
            Some(mapper) => {
                let action = target_probe(mapper.as_str());
                Turn::wait(ev0(), Describe::Locating { listed, version, uuid, mapper }, action)
                    .after(events)
            },
            None => measure(
                listed,
                Some(
                    Encryption { version, uuid, mapper_device: None, mapper_mount_point: None },
                ),
            ).after(events),
        },
    }
}

impl Describe {
    /// Begins to describe a listed partition.
    pub fn start(listed: ListedPartition) -> (t: Turn<Describe, Partition>)
        ensures
            t@ == describe_start(listed@),
    {
        let action = ask_luks(listed.name.as_str());
        Turn::wait(ev0(), Describe::Probing { listed }, action)
    }

    /// Continues with the outcome of the action that was waited for.
    pub fn resume(self, outcome: Outcome) -> (t: Turn<Describe, Partition>)
        ensures
            t@ == describe_resume(self@, outcome@),
    {
        match self {
            Describe::Probing { listed } => match outcome {
                Outcome::Tool(_) => {
                    if outcome.succeeded() {
                        let action = luks_dump(listed.name.as_str());
                        Turn::wait(ev0(), Describe::Dumping { listed }, action)
                    } else {
                        measure(listed, None)
                    }
                },
                _ => Turn::stray(),
            },
            Describe::Dumping { listed } => match outcome {
                Outcome::Tool(_) => {
                    let t = StatusScan::start(listed.name.as_str());
                    match get_luks_info(&outcome) {
                        Ok(info) => lift_scan(listed, Some(info.version), Some(info.uuid), t),
                        Err(_) => lift_scan(listed, None, None, t),
                    }
                },
                _ => Turn::stray(),
            },
            Describe::Scanning { listed, version, uuid, scan } => lift_scan(
                listed,
                version,
                uuid,
                scan.resume(outcome),
            ),
            Describe::Locating { listed, version, uuid, mapper } => match outcome {
                Outcome::Tool(_) => {
                    let target = read_target(&outcome);
                    measure(
                        listed,
                        Some(
                            Encryption {
                                version,
                                uuid,
                                mapper_device: Some(mapper),
                                mapper_mount_point: target,
                            },
                        ),
                    )
                },
                _ => Turn::stray(),
            },
            Describe::Measuring { listed, encryption } => match outcome {
                Outcome::Tool(_) => {
                    let usage = read_usage(&outcome);
                    Turn::finish(ev0(), conclude(listed, encryption, usage))
                },
                _ => Turn::stray(),
            },
        }
    }
}

} // verus!
