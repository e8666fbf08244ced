//! The stage of an ingestion that takes its locks.
//!
//! The owners of the host's BMC addresses are previewed without locks. Then the MAC addresses
//! of all interfaces involved are locked, then all segments, then all fixed addresses, and
//! then the owners' rows, which must be as previewed.
use vstd::prelude::*;

use crate::addresses::{FixedAllocation, IpAddr, MacAddress, NetworkSegmentId};
use crate::exploration::{EndpointExplorationReport, ExploredManagedHost};
use crate::machine_creator::locks::{
    bmc_addresses, bmc_interface_owner_matches, host_bmc_owner_is_expected,
    host_bmc_owner_matches_expected_machine, is_bmc_address, is_ingestion_mac,
    is_missing_owner_address, managed_host_ingestion_interface_macs,
    merge_managed_host_ingestion_lock_inputs, merged_lock_inputs, missing_owner_addresses,
    owner_matches, owners_of, previewed_owners, BmcInterfaceOwner, BmcOwnerPreview,
    ExpectedInterfaceDiscoveryLockInputs, ManagedHostIngestionLockInputs,
};
use crate::machine_creator::requests::{
    failure_of, reply_failure, DeclaredMachine, IngestionError, Progress, Reply, Request,
};
use crate::machine_creator::zero_dpu::{following, next_index};
use crate::ordered::strictly_ascending;

verus! {

/// How far the stage has come. An index counts the entries of the list that is worked on.
#[derive(Clone, Copy, Debug, PartialEq, Eq, Structural)]
pub enum LockStep {
    Previewing { index: usize },
    LockingMacs,
    Discovering { index: usize },
    ListingAdminSegments,
    FindingSegments { index: usize },
    FindingBmcSegment { address: IpAddr },
    LockingSegments,
    LockingFixedAddresses,
    Revalidating { index: usize },
}

/// The stage, with all it has found out so far.
#[derive(Debug)]
pub struct LockStage {
    pub declared: DeclaredMachine,
    pub host: ExploredManagedHost,
    pub report: EndpointExplorationReport,
    /// The BMC addresses of the host and its DPUs.
    pub addresses: Vec<IpAddr>,
    pub previews: Vec<BmcOwnerPreview>,
    /// The MAC addresses that are locked.
    pub interface_macs: Vec<MacAddress>,
    pub discovery: Vec<ExpectedInterfaceDiscoveryLockInputs>,
    pub admin_segment_ids: Vec<NetworkSegmentId>,
    pub segment_ids: Vec<NetworkSegmentId>,
    pub missing: Vec<IpAddr>,
    pub fixed_allocations: Vec<FixedAllocation>,
    /// The segments and fixed addresses that are locked.
    pub locks: ManagedHostIngestionLockInputs,
    pub step: LockStep,
}

/// The stage with its lists as sequences.
#[verifier::ext_equal]
pub struct LockRecord {
    pub declared: DeclaredMachine,
    pub host: ExploredManagedHost,
    pub report: EndpointExplorationReport,
    pub addresses: Seq<IpAddr>,
    pub previews: Seq<BmcOwnerPreview>,
    pub interface_macs: Seq<MacAddress>,
    pub discovery: Seq<ExpectedInterfaceDiscoveryLockInputs>,
    pub admin_segment_ids: Seq<NetworkSegmentId>,
    pub segment_ids: Seq<NetworkSegmentId>,
    pub missing: Seq<IpAddr>,
    pub fixed_allocations: Seq<FixedAllocation>,
    pub locks: ManagedHostIngestionLockInputs,
    pub step: LockStep,
}

impl View for LockStage {
    type V = LockRecord;

    open spec fn view(&self) -> LockRecord {
        LockRecord {
            declared: self.declared,
            host: self.host,
            report: self.report,
            addresses: self.addresses@,
            previews: self.previews@,
            interface_macs: self.interface_macs@,
            discovery: self.discovery@,
            admin_segment_ids: self.admin_segment_ids@,
            segment_ids: self.segment_ids@,
            missing: self.missing@,
            fixed_allocations: self.fixed_allocations@,
            locks: self.locks,
            step: self.step,
        }
    }
}

/// The stage goes on with this request, in the state that the record describes.
pub open spec fn lock_asks(
    progress: Progress<LockStage, LockStage>,
    record: LockRecord,
    request: Request,
) -> bool {
    progress is Ask && progress->Ask_0@ == record && progress->Ask_1 == request
}

/// How the stage starts: it previews the owners of the BMC addresses, in ascending order of
/// the addresses.
pub open spec fn lock_starts(
    declared: DeclaredMachine,
    host: ExploredManagedHost,
    report: EndpointExplorationReport,
    progress: Progress<LockStage, LockStage>,
) -> bool {
    &&& progress is Ask
    &&& {
        let record = progress->Ask_0@;
        &&& record.declared == declared && record.host == host && record.report == report
        &&& strictly_ascending(record.addresses)
        &&& forall|address: IpAddr| #[trigger]
            record.addresses.contains(address) <==> is_bmc_address(host, address)
        &&& record.addresses.len() > 0
        &&& record.previews.len() == 0
        &&& record.discovery.len() == 0
        &&& record.fixed_allocations.len() == 0
        &&& record.step == LockStep::Previewing { index: 0 }
        &&& progress->Ask_1 == Request::FindBmcOwner { address: record.addresses[0] }
    }
}

/// The MAC addresses that the stage locks: those of all interfaces involved.
pub open spec fn lock_macs(record: LockRecord) -> bool {
    &&& strictly_ascending(record.interface_macs)
    &&& forall|mac: MacAddress| #[trigger]
        record.interface_macs.contains(mac) <==> is_ingestion_mac(
            record.declared.machine,
            record.host,
            record.report,
            owners_of(record.previews).map_values(|owner: BmcInterfaceOwner| owner.mac_address),
            mac,
        )
}

/// The addresses whose segments are looked up because nobody owns them.
pub open spec fn lock_missing(record: LockRecord) -> bool {
    &&& strictly_ascending(record.missing)
    &&& forall|address: IpAddr| #[trigger]
        record.missing.contains(address) <==> is_missing_owner_address(record.previews, address)
}

/// The segments and fixed addresses that the stage locks, from all it has found out.
pub open spec fn lock_merged(record: LockRecord) -> bool {
    merged_lock_inputs(
        record.admin_segment_ids,
        record.segment_ids,
        record.discovery,
        record.fixed_allocations,
        record.locks,
    )
}

/// Every segment is known: the segments are locked.
pub open spec fn lock_segments(
    record: LockRecord,
    progress: Progress<LockStage, LockStage>,
) -> bool {
    progress is Ask && {
        let locks = progress->Ask_0@.locks;
        let locked = LockRecord { locks, step: LockStep::LockingSegments, ..record };
        lock_asks(progress, locked, Request::LockSegments) && lock_merged(locked)
    }
}

/// The segments of addresses without owner are known: the segment of the declared BMC address
/// comes next, where one is declared.
pub open spec fn lock_bmc_segment(
    record: LockRecord,
    progress: Progress<LockStage, LockStage>,
) -> bool {
    match record.declared.machine.data.bmc_ip_address {
        Some(address) => lock_asks(
            progress,
            LockRecord { step: LockStep::FindingBmcSegment { address: address.ip }, ..record },
            Request::FindSegmentForAddress { address: address.ip },
        ),
        None => lock_segments(record, progress),
    }
}

/// All owners are as previewed: the host's BMC address must belong to nobody, or to the
/// declared BMC.
pub open spec fn lock_finishes(
    record: LockRecord,
    progress: Progress<LockStage, LockStage>,
) -> bool {
    if host_bmc_owner_is_expected(
        record.previews,
        record.host.host_bmc_ip.ip,
        record.declared.machine.bmc_mac_address,
    ) {
        progress is Finished && progress->Finished_0@ == record
    } else {
        progress == Progress::<LockStage, LockStage>::Failed(
            IngestionError::BmcOwnerMismatch {
                address: record.host.host_bmc_ip.ip,
                bmc_mac_address: record.declared.machine.bmc_mac_address,
            },
        )
    }
}

/// How the stage goes on after a reply.
pub open spec fn lock_next(
    record: LockRecord,
    reply: Reply,
    progress: Progress<LockStage, LockStage>,
) -> bool {
    match (record.step, reply) {
        (LockStep::Previewing { index }, Reply::BmcOwner(owner)) => if index
            < record.addresses.len() {
            let previews = record.previews.push(
                BmcOwnerPreview { address: record.addresses[index as int], owner },
            );
            match following(index, record.addresses.len()) {
                Some(index) => lock_asks(
                    progress,
                    LockRecord { previews, step: LockStep::Previewing { index }, ..record },
                    Request::FindBmcOwner { address: record.addresses[index as int] },
                ),
                None => progress is Ask && {
                    let interface_macs = progress->Ask_0@.interface_macs;
                    let locked = LockRecord {
                        previews,
                        interface_macs,
                        step: LockStep::LockingMacs,
                        ..record
                    };
                    lock_asks(progress, locked, Request::LockInterfaceMacs) && lock_macs(locked)
                },
            }
        } else {
            progress == Progress::<LockStage, LockStage>::Failed(IngestionError::UnexpectedReply)
        },
        (LockStep::LockingMacs, Reply::Done) => if record.interface_macs.len() > 0 {
            lock_asks(
                progress,
                LockRecord { step: LockStep::Discovering { index: 0 }, ..record },
                Request::FindDiscoveryLockInputs { mac_address: record.interface_macs[0] },
            )
        } else {
            lock_asks(
                progress,
                LockRecord { step: LockStep::ListingAdminSegments, ..record },
                Request::ListAdminSegments,
            )
        },
        (LockStep::Discovering { index }, Reply::LockInputs(inputs)) => {
            let discovery = record.discovery.push(inputs);
            match following(index, record.interface_macs.len()) {
                Some(index) => lock_asks(
                    progress,
                    LockRecord { discovery, step: LockStep::Discovering { index }, ..record },
                    Request::FindDiscoveryLockInputs {
                        mac_address: record.interface_macs[index as int],
                    },
                ),
                None => lock_asks(
                    progress,
                    LockRecord { discovery, step: LockStep::ListingAdminSegments, ..record },
                    Request::ListAdminSegments,
                ),
            }
        },
        (LockStep::ListingAdminSegments, Reply::Segments(admin)) => {
            let listed = LockRecord {
                admin_segment_ids: admin@,
                segment_ids: owners_of(record.previews).map_values(
                    |owner: BmcInterfaceOwner| owner.segment_id,
                ),
                ..record
            };
            progress is Ask && {
                let missing = progress->Ask_0@.missing;
                let listed = LockRecord { missing, ..listed };
                &&& lock_missing(listed)
                &&& if missing.len() > 0 {
                    lock_asks(
                        progress,
                        LockRecord { step: LockStep::FindingSegments { index: 0 }, ..listed },
                        Request::FindSegmentForAddress { address: missing[0] },
                    )
                } else {
                    lock_bmc_segment(listed, progress)
                }
            }
        },
        (LockStep::FindingSegments { index }, Reply::Segment(segment)) => {
            let found = LockRecord { segment_ids: record.segment_ids.push(segment), ..record };
            match following(index, record.missing.len()) {
                Some(index) => lock_asks(
                    progress,
                    LockRecord { step: LockStep::FindingSegments { index }, ..found },
                    Request::FindSegmentForAddress { address: record.missing[index as int] },
                ),
                None => lock_bmc_segment(found, progress),
            }
        },
        (LockStep::FindingBmcSegment { address }, Reply::Segment(segment_id)) => lock_segments(
            LockRecord {
                fixed_allocations: record.fixed_allocations.push(
                    FixedAllocation { segment_id, address },
                ),
                ..record
            },
            progress,
        ),
        (LockStep::LockingSegments, Reply::Done) => lock_asks(
            progress,
            LockRecord { step: LockStep::LockingFixedAddresses, ..record },
            Request::LockFixedAddresses,
        ),
        (LockStep::LockingFixedAddresses, Reply::Done) => if record.previews.len() > 0 {
            lock_asks(
                progress,
                LockRecord { step: LockStep::Revalidating { index: 0 }, ..record },
                Request::FindBmcOwnerForUpdate { address: record.previews[0].address },
            )
        } else {
            lock_finishes(record, progress)
        },
        (LockStep::Revalidating { index }, Reply::BmcOwner(current)) => if index
            < record.previews.len() {
            let preview = record.previews[index as int];
            if owner_matches(preview.owner, current) {
                match following(index, record.previews.len()) {
                    Some(index) => lock_asks(
                        progress,
                        LockRecord { step: LockStep::Revalidating { index }, ..record },
                        Request::FindBmcOwnerForUpdate {
                            address: record.previews[index as int].address,
                        },
                    ),
                    None => lock_finishes(record, progress),
                }
            } else {
                progress == Progress::<LockStage, LockStage>::Failed(
                    IngestionError::BmcOwnerChanged { address: preview.address },
                )
            }
        } else {
            progress == Progress::<LockStage, LockStage>::Failed(IngestionError::UnexpectedReply)
        },
        (_, reply) => progress == Progress::<LockStage, LockStage>::Failed(reply_failure(reply)),
    }
}

/// Starts to take the locks of an ingestion.
pub fn start_lock_stage(
    declared: DeclaredMachine,
    host: ExploredManagedHost,
    report: EndpointExplorationReport,
) -> (r: Progress<LockStage, LockStage>)
    ensures
        lock_starts(declared, host, report, r),
{
    let addresses = bmc_addresses(&host);
    assert(addresses@.contains(host.host_bmc_ip.ip));
    let address = addresses[0];
    Progress::Ask(
        LockStage {
            declared,
            host,
            report,
            addresses,
            previews: Vec::new(),
            interface_macs: Vec::new(),
            discovery: Vec::new(),
            admin_segment_ids: Vec::new(),
            segment_ids: Vec::new(),
            missing: Vec::new(),
            fixed_allocations: Vec::new(),
            locks: ManagedHostIngestionLockInputs {
                admin_segment_ids: Vec::new(),
                segment_ids: Vec::new(),
                fixed_allocations: Vec::new(),
            },
            step: LockStep::Previewing { index: 0 },
        },
        Request::FindBmcOwner { address },
    )
}

impl LockStage {
    /// The MAC addresses to lock.
    pub fn macs_to_lock(&self) -> (r: &Vec<MacAddress>)
        ensures
            *r == self.interface_macs,
    {
        &self.interface_macs
    }

    /// The segments to lock.
    pub fn segments_to_lock(&self) -> (r: &Vec<NetworkSegmentId>)
        ensures
            *r == self.locks.segment_ids,
    {
        &self.locks.segment_ids
    }

    /// The fixed addresses to lock.
    pub fn fixed_addresses_to_lock(&self) -> (r: &Vec<FixedAllocation>)
        ensures
            *r == self.locks.fixed_allocations,
    {
        &self.locks.fixed_allocations
    }

    /// Goes on after a reply.
    pub fn resume(self, reply: Reply) -> (r: Progress<LockStage, LockStage>)
        ensures
            lock_next(self@, reply, r),
    {
        let ghost record = self@;
        let mut stage = self;
        match (stage.step, reply) {
            (LockStep::Previewing { index }, Reply::BmcOwner(owner)) => {
                if index < stage.addresses.len() {
                    stage.previews.push(
                        BmcOwnerPreview { address: stage.addresses[index], owner },
                    );
                    match next_index(index, stage.addresses.len()) {
                        Some(index) => {
                            let address = stage.addresses[index];
                            stage.step = LockStep::Previewing { index };
                            Progress::Ask(stage, Request::FindBmcOwner { address })
                        },
                        None => {
                            let owners = previewed_owners(&stage.previews);
                            stage.interface_macs = managed_host_ingestion_interface_macs(
                                &stage.declared.machine,
                                &stage.host,
                                &stage.report,
                                &owners.0,
                            );
                            stage.step = LockStep::LockingMacs;
                            Progress::Ask(stage, Request::LockInterfaceMacs)
                        },
                    }
                } else {
                    Progress::Failed(IngestionError::UnexpectedReply)
                }
            },
            (LockStep::LockingMacs, Reply::Done) => {
                if stage.interface_macs.len() > 0 {
                    let mac_address = stage.interface_macs[0];
                    stage.step = LockStep::Discovering { index: 0 };
                    Progress::Ask(stage, Request::FindDiscoveryLockInputs { mac_address })
                } else {
                    stage.step = LockStep::ListingAdminSegments;
                    Progress::Ask(stage, Request::ListAdminSegments)
                }
            },
            (LockStep::Discovering { index }, Reply::LockInputs(inputs)) => {
                stage.discovery.push(inputs);
                match next_index(index, stage.interface_macs.len()) {
                    Some(index) => {
                        let mac_address = stage.interface_macs[index];
                        stage.step = LockStep::Discovering { index };
                        Progress::Ask(stage, Request::FindDiscoveryLockInputs { mac_address })
                    },
                    None => {
                        stage.step = LockStep::ListingAdminSegments;
                        Progress::Ask(stage, Request::ListAdminSegments)
                    },
                }
            },
            (LockStep::ListingAdminSegments, Reply::Segments(admin)) => {
                stage.admin_segment_ids = admin;
                let owners = previewed_owners(&stage.previews);
                stage.segment_ids = owners.1;
                stage.missing = missing_owner_addresses(&stage.previews);
                assert(lock_missing(stage@));
                let ghost listed = LockRecord {
                    admin_segment_ids: admin@,
                    segment_ids: owners_of(record.previews).map_values(
                        |owner: BmcInterfaceOwner| owner.segment_id,
                    ),
                    missing: stage@.missing,
                    ..record
                };
                assert(listed =~= stage@);
                if stage.missing.len() > 0 {
                    let address = stage.missing[0];
                    stage.step = LockStep::FindingSegments { index: 0 };
                    Progress::Ask(stage, Request::FindSegmentForAddress { address })
                } else {
                    stage.find_bmc_segment()
                }
            },
            (LockStep::FindingSegments { index }, Reply::Segment(segment)) => {
                stage.segment_ids.push(segment);
                match next_index(index, stage.missing.len()) {
                    Some(index) => {
                        let address = stage.missing[index];
                        stage.step = LockStep::FindingSegments { index };
                        Progress::Ask(stage, Request::FindSegmentForAddress { address })
                    },
                    None => stage.find_bmc_segment(),
                }
            },
            (LockStep::FindingBmcSegment { address }, Reply::Segment(segment_id)) => {
                stage.fixed_allocations.push(FixedAllocation { segment_id, address });
                stage.merge_and_lock_segments()
            },
            (LockStep::LockingSegments, Reply::Done) => {
                stage.step = LockStep::LockingFixedAddresses;
                Progress::Ask(stage, Request::LockFixedAddresses)
            },
            (LockStep::LockingFixedAddresses, Reply::Done) => {
                if stage.previews.len() > 0 {
                    let address = stage.previews[0].address;
                    stage.step = LockStep::Revalidating { index: 0 };
                    Progress::Ask(stage, Request::FindBmcOwnerForUpdate { address })
                } else {
                    stage.finish()
                }
            },
            (LockStep::Revalidating { index }, Reply::BmcOwner(current)) => {
                if index < stage.previews.len() {
                    let preview = stage.previews[index];
                    if bmc_interface_owner_matches(preview.owner, current) {
                        match next_index(index, stage.previews.len()) {
                            Some(index) => {
                                let address = stage.previews[index].address;
                                stage.step = LockStep::Revalidating { index };
                                Progress::Ask(stage, Request::FindBmcOwnerForUpdate { address })
                            },
                            None => stage.finish(),
                        }
                    } else {
                        Progress::Failed(
                            IngestionError::BmcOwnerChanged { address: preview.address },
                        )
                    }
                } else {
                    Progress::Failed(IngestionError::UnexpectedReply)
                }
            },
            (_, reply) => Progress::Failed(failure_of(reply)),
        }
    }

    fn find_bmc_segment(self) -> (r: Progress<LockStage, LockStage>)
        ensures
            lock_bmc_segment(self@, r),
    {
        let mut stage = self;
        let address = match &stage.declared.machine.data.bmc_ip_address {
            Some(address) => Some(address.ip),
            None => None,
        };
        match address {
            Some(address) => {
                stage.step = LockStep::FindingBmcSegment { address };
                Progress::Ask(stage, Request::FindSegmentForAddress { address })
            },
            None => stage.merge_and_lock_segments(),
        }
    }

    fn merge_and_lock_segments(self) -> (r: Progress<LockStage, LockStage>)
        ensures
            lock_segments(self@, r),
    {
        let mut stage = self;
        stage.locks = merge_managed_host_ingestion_lock_inputs(
            &stage.admin_segment_ids,
            &stage.segment_ids,
            &stage.discovery,
            &stage.fixed_allocations,
        );
        stage.step = LockStep::LockingSegments;
        Progress::Ask(stage, Request::LockSegments)
    }

    fn finish(self) -> (r: Progress<LockStage, LockStage>)
        ensures
            lock_finishes(self@, r),
    {
        let address = self.host.host_bmc_ip.ip;
        let bmc_mac_address = self.declared.machine.bmc_mac_address;
        if host_bmc_owner_matches_expected_machine(&self.previews, address, bmc_mac_address) {
            Progress::Finished(self)
        } else {
            Progress::Failed(IngestionError::BmcOwnerMismatch { address, bmc_mac_address })
        }
    }
}

} // verus!
