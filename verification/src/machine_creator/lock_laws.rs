//! What an ingestion locks, and what it has found out when it holds its locks.
use vstd::prelude::*;

use crate::addresses::{FixedAllocation, IpAddr, MacAddress, NetworkSegmentId};
use crate::expected_machine::ExpectedInterfaceRole;
use crate::expected_machine_data::{ExpectedHostNic, ExpectedMachine, ExpectedMachineData};
use crate::exploration::{oob_mac_of, EndpointExplorationReport, ExploredManagedHost};
use crate::machine_creator::lock_stage::{
    lock_bmc_segment, lock_macs, lock_merged, lock_missing, lock_next, lock_segments, lock_starts,
    LockRecord, LockStage, LockStep,
};
use crate::machine_creator::locks::{
    host_bmc_owner_is_expected, host_role_macs, ingestion_identity, is_bmc_address,
    is_ingestion_mac, is_merged_allocation, is_merged_segment, merged_lock_inputs, owners_of,
    predicted_host_macs, without_neighbour_repeats, BmcInterfaceOwner, BmcOwnerPreview,
    ExpectedInterfaceDiscoveryLockInputs, ManagedHostIngestionLockInputs,
};
use crate::machine_creator::requests::{DeclaredMachine, IngestionError, Progress, Reply, Request};
use crate::machine_creator::trace::{log_grows, told};
use crate::ordered::{strictly_ascending, Ordered};

verus! {

/// Two declarations have one identity exactly if they agree in their id, in the BMC's MAC address
/// and in whether they name a rack.
pub proof fn identity_is_id_bmc_and_rack(a: ExpectedMachine, b: ExpectedMachine)
    ensures
        ingestion_identity(a) == ingestion_identity(b) <==> {
            &&& a.id == b.id
            &&& a.bmc_mac_address == b.bmc_mac_address
            &&& a.data.rack_id is Some <==> b.data.rack_id is Some
        },
{
}

/// Whether the preview at this place is the first of the address.
pub open spec fn is_first_preview(
    previews: Seq<BmcOwnerPreview>,
    address: IpAddr,
    i: int,
) -> bool {
    &&& 0 <= i < previews.len()
    &&& previews[i].address == address
    &&& forall|j: int| 0 <= j < i ==> (#[trigger] previews[j]).address != address
}

/// A host's BMC fits its declaration exactly if its address was previewed and belongs to nobody, or
/// to the declared MAC address.
pub proof fn host_bmc_belongs_to_nobody_or_the_declared(
    previews: Seq<BmcOwnerPreview>,
    address: IpAddr,
    mac: MacAddress,
)
    ensures
        host_bmc_owner_is_expected(previews, address, mac) <==> exists|i: int|
            {
                &&& #[trigger] is_first_preview(previews, address, i)
                &&& previews[i].owner matches Some(owner) ==> owner.mac_address == mac
            },
    decreases previews.len(),
{
    if previews.len() > 0 {
        let rest = previews.drop_first();
        host_bmc_belongs_to_nobody_or_the_declared(rest, address, mac);
        if previews[0].address == address {
            assert(is_first_preview(previews, address, 0));
            assert forall|i: int| #[trigger] is_first_preview(previews, address, i) implies i
                == 0 by {
                if i > 0 {
                    assert(previews[0].address != address);
                }
            }
        } else {
            if host_bmc_owner_is_expected(rest, address, mac) {
                let i = choose|i: int|
                    {
                        &&& #[trigger] is_first_preview(rest, address, i)
                        &&& rest[i].owner matches Some(owner) ==> owner.mac_address == mac
                    };
                assert(rest[i] == previews[i + 1]);
                assert forall|j: int| 0 <= j < i + 1 implies (#[trigger] previews[j]).address
                    != address by {
                    if j > 0 {
                        assert(rest[j - 1] == previews[j]);
                    }
                }
                assert(is_first_preview(previews, address, i + 1));
            }
            assert forall|i: int|
                #[trigger] is_first_preview(previews, address, i) implies is_first_preview(
                rest,
                address,
                i - 1,
            ) && rest[i - 1] == previews[i] by {
                assert(i > 0);
                assert forall|j: int| 0 <= j < i - 1 implies (#[trigger] rest[j]).address
                    != address by {
                    assert(rest[j] == previews[j + 1]);
                }
            }
        }
    }
}

/// The owners that were previewed are those of the previews that found one.
pub proof fn owners_are_those_previewed(previews: Seq<BmcOwnerPreview>, owner: BmcInterfaceOwner)
    ensures
        owners_of(previews).contains(owner) <==> exists|k: int|
            0 <= k < previews.len() && (#[trigger] previews[k]).owner == Some(owner),
    decreases previews.len(),
{
    if previews.len() > 0 {
        let before = previews.drop_last();
        let owners = owners_of(previews);
        owners_are_those_previewed(before, owner);
        if owners_of(before).contains(owner) {
            let i = choose|i: int| 0 <= i < owners_of(before).len() && owners_of(before)[i] == owner;
            assert(owners[i] == owner);
            let k = choose|k: int|
                0 <= k < before.len() && (#[trigger] before[k]).owner == Some(owner);
            assert(previews[k].owner == Some(owner));
        }
        if previews.last().owner == Some(owner) {
            assert(owners[owners.len() - 1] == owner);
            assert(previews[previews.len() - 1].owner == Some(owner));
        }
        if owners.contains(owner) {
            let i = choose|i: int| 0 <= i < owners.len() && owners[i] == owner;
            if i < owners_of(before).len() {
                assert(owners_of(before)[i] == owner);
            }
        }
        if exists|k: int| 0 <= k < previews.len() && (#[trigger] previews[k]).owner == Some(owner) {
            let k = choose|k: int|
                0 <= k < previews.len() && (#[trigger] previews[k]).owner == Some(owner);
            if k < before.len() {
                assert(before[k].owner == Some(owner));
            }
        }
    } else {
        assert(owners_of(previews) =~= seq![]);
    }
}

/// An ingestion may touch the interfaces that are declared, the declared BMC, what the report
/// names, each DPU's out-of-band, BMC and host-facing interfaces, and the owners of its BMC
/// addresses; and no others.
pub proof fn every_interface_involved_is_named(
    expected: ExpectedMachine,
    host: ExploredManagedHost,
    report: EndpointExplorationReport,
    owners: Seq<MacAddress>,
    mac: MacAddress,
)
    ensures
        mac == expected.bmc_mac_address ==> is_ingestion_mac(expected, host, report, owners, mac),
        forall|i: int|
            0 <= i < expected.data.host_nics@.len() && (
            #[trigger] expected.data.host_nics@[i]).mac_address == mac ==> is_ingestion_mac(
                expected,
                host,
                report,
                owners,
                mac,
            ),
        forall|i: int|
            0 <= i < report.all_mac_addresses@.len() && #[trigger] report.all_mac_addresses@[i]
                == mac ==> is_ingestion_mac(expected, host, report, owners, mac),
        forall|i: int|
            0 <= i < host.dpus@.len() && (oob_mac_of((#[trigger] host.dpus@[i]).systems@) == Some(
                mac,
            ) || host.dpus@[i].bmc_mac_address == Some(mac) || host.dpus@[i].host_pf_mac_address
                == Some(mac)) ==> is_ingestion_mac(expected, host, report, owners, mac),
        forall|i: int|
            0 <= i < owners.len() && #[trigger] owners[i] == mac ==> is_ingestion_mac(
                expected,
                host,
                report,
                owners,
                mac,
            ),
        is_ingestion_mac(expected, host, report, owners, mac) ==> {
            ||| mac == expected.bmc_mac_address
            ||| exists|i: int|
                0 <= i < expected.data.host_nics@.len() && (
                #[trigger] expected.data.host_nics@[i]).mac_address == mac
            ||| exists|i: int|
                0 <= i < report.all_mac_addresses@.len() && #[trigger] report.all_mac_addresses@[i]
                    == mac
            ||| exists|i: int|
                0 <= i < host.dpus@.len() && (oob_mac_of((#[trigger] host.dpus@[i]).systems@)
                    == Some(mac) || host.dpus@[i].bmc_mac_address == Some(mac)
                    || host.dpus@[i].host_pf_mac_address == Some(mac))
            ||| exists|i: int| 0 <= i < owners.len() && #[trigger] owners[i] == mac
        },
{
}

/// What is locked together: the administrative segments; every segment that is given, that a
/// discovered interface is in, or in which an address is held fixed; and every fixed address that
/// is given or that discovery will lock. Nothing else is locked.
pub proof fn everything_given_is_locked(
    admin: Seq<NetworkSegmentId>,
    segments: Seq<NetworkSegmentId>,
    inputs: Seq<ExpectedInterfaceDiscoveryLockInputs>,
    fixed: Seq<FixedAllocation>,
    r: ManagedHostIngestionLockInputs,
    segment: NetworkSegmentId,
    allocation: FixedAllocation,
)
    requires
        merged_lock_inputs(admin, segments, inputs, fixed, r),
    ensures
        r.admin_segment_ids@.contains(segment) <==> admin.contains(segment),
        admin.contains(segment) ==> r.segment_ids@.contains(segment),
        segments.contains(segment) ==> r.segment_ids@.contains(segment),
        forall|i: int|
            0 <= i < inputs.len() && (#[trigger] inputs[i]).existing_segment_id == Some(segment)
                ==> r.segment_ids@.contains(segment),
        r.fixed_allocations@.contains(allocation) ==> r.segment_ids@.contains(
            allocation.segment_id,
        ),
        fixed.contains(allocation) ==> r.fixed_allocations@.contains(allocation),
        forall|i: int|
            0 <= i < inputs.len() && (#[trigger] inputs[i]).fixed_allocations@.contains(allocation)
                ==> r.fixed_allocations@.contains(allocation),
        r.fixed_allocations@.contains(allocation) ==> fixed.contains(allocation) || exists|i: int|
            0 <= i < inputs.len() && (#[trigger] inputs[i]).fixed_allocations@.contains(allocation),
        r.segment_ids@.contains(segment) ==> {
            ||| admin.contains(segment)
            ||| segments.contains(segment)
            ||| exists|i: int|
                0 <= i < inputs.len() && (#[trigger] inputs[i]).existing_segment_id == Some(segment)
            ||| exists|k: int|
                0 <= k < r.fixed_allocations@.len() && (
                #[trigger] r.fixed_allocations@[k]).segment_id == segment
        },
{
    assert(admin.contains(segment) ==> is_merged_segment(admin, segments, inputs, fixed, segment));
    if r.fixed_allocations@.contains(allocation) {
        assert(is_merged_allocation(inputs, fixed, allocation));
        assert(is_merged_segment(admin, segments, inputs, fixed, allocation.segment_id));
    }
    assert(fixed.contains(allocation) ==> is_merged_allocation(inputs, fixed, allocation));
    assert forall|i: int|
        0 <= i < inputs.len() && (#[trigger] inputs[i]).fixed_allocations@.contains(
            allocation,
        ) implies r.fixed_allocations@.contains(allocation) by {
        assert(is_merged_allocation(inputs, fixed, allocation));
    }
    if r.segment_ids@.contains(segment) {
        assert(is_merged_segment(admin, segments, inputs, fixed, segment));
        if exists|a: FixedAllocation| #[trigger]
            is_merged_allocation(inputs, fixed, a) && a.segment_id == segment {
            let a = choose|a: FixedAllocation| #[trigger]
                is_merged_allocation(inputs, fixed, a) && a.segment_id == segment;
            assert(r.fixed_allocations@.contains(a));
            let k = choose|k: int| 0 <= k < r.fixed_allocations@.len() && r.fixed_allocations@[k]
                == a;
            assert(r.fixed_allocations@[k].segment_id == segment);
        }
    }
}

proof fn host_macs_are_of_host_interfaces(nics: Seq<ExpectedHostNic>, mac: MacAddress)
    ensures
        host_role_macs(nics).contains(mac) <==> exists|i: int|
            0 <= i < nics.len() && (#[trigger] nics[i]).role == ExpectedInterfaceRole::Host
                && nics[i].mac_address == mac,
        host_role_macs(nics).len() <= nics.len(),
    decreases nics.len(),
{
    if nics.len() > 0 {
        let before = nics.drop_last();
        let macs = host_role_macs(nics);
        host_macs_are_of_host_interfaces(before, mac);
        if host_role_macs(before).contains(mac) {
            let i = choose|i: int|
                0 <= i < host_role_macs(before).len() && host_role_macs(before)[i] == mac;
            assert(macs[i] == mac);
            let k = choose|k: int|
                0 <= k < before.len() && (#[trigger] before[k]).role == ExpectedInterfaceRole::Host
                    && before[k].mac_address == mac;
            assert(nics[k].mac_address == mac);
        }
        if nics.last().role == ExpectedInterfaceRole::Host && nics.last().mac_address == mac {
            assert(macs[macs.len() - 1] == mac);
            assert(nics[nics.len() - 1].mac_address == mac);
        }
        if macs.contains(mac) {
            let i = choose|i: int| 0 <= i < macs.len() && macs[i] == mac;
            if i < host_role_macs(before).len() {
                assert(host_role_macs(before)[i] == mac);
            }
        }
        if exists|i: int|
            0 <= i < nics.len() && (#[trigger] nics[i]).role == ExpectedInterfaceRole::Host
                && nics[i].mac_address == mac {
            let k = choose|k: int|
                0 <= k < nics.len() && (#[trigger] nics[k]).role == ExpectedInterfaceRole::Host
                    && nics[k].mac_address == mac;
            if k < before.len() {
                assert(before[k].mac_address == mac);
            }
        }
    } else {
        assert(host_role_macs(nics) =~= seq![]);
    }
}

proof fn host_macs_keep_their_order(nics: Seq<ExpectedHostNic>)
    ensures
        host_role_macs(nics) == nics.filter(
            |nic: ExpectedHostNic| nic.role == ExpectedInterfaceRole::Host,
        ).map_values(|nic: ExpectedHostNic| nic.mac_address),
    decreases nics.len(),
{
    reveal(Seq::filter);
    let of_host = |nic: ExpectedHostNic| nic.role == ExpectedInterfaceRole::Host;
    let to_mac = |nic: ExpectedHostNic| nic.mac_address;
    if nics.len() > 0 {
        let before = nics.drop_last();
        host_macs_keep_their_order(before);
        if of_host(nics.last()) {
            assert(nics.filter(of_host) =~= before.filter(of_host).push(nics.last()));
            assert(nics.filter(of_host).map_values(to_mac) =~= before.filter(of_host).map_values(
                to_mac,
            ).push(nics.last().mac_address));
        }
    } else {
        assert(nics.filter(of_host).map_values(to_mac) =~= seq![]);
    }
}

proof fn repeats_are_dropped<T>(s: Seq<T>)
    ensures
        without_neighbour_repeats(s).len() == 0 <==> s.len() == 0,
        s.len() > 0 ==> without_neighbour_repeats(s).last() == s.last()
            && without_neighbour_repeats(s)[0] == s[0],
        forall|x: T| #[trigger] without_neighbour_repeats(s).contains(x) <==> s.contains(x),
        forall|i: int|
            0 < i < without_neighbour_repeats(s).len() ==> #[trigger] without_neighbour_repeats(
                s,
            )[i] != without_neighbour_repeats(s)[i - 1],
        (forall|i: int| 0 < i < s.len() ==> #[trigger] s[i] != s[i - 1])
            ==> without_neighbour_repeats(s) == s,
    decreases s.len(),
{
    if s.len() > 1 {
        let front = s.drop_last();
        let before = without_neighbour_repeats(front);
        let whole = without_neighbour_repeats(s);
        repeats_are_dropped(front);
        assert(front.last() == s[s.len() - 2]);
        assert forall|x: T| #[trigger] whole.contains(x) <==> s.contains(x) by {
            assert(before.contains(x) <==> front.contains(x));
            if whole.contains(x) {
                let i = choose|i: int| 0 <= i < whole.len() && whole[i] == x;
                if i < before.len() {
                    assert(before[i] == x);
                    assert(before.contains(x));
                    let k = choose|k: int| 0 <= k < front.len() && front[k] == x;
                    assert(s[k] == x);
                } else {
                    assert(s[s.len() - 1] == x);
                }
            }
            if s.contains(x) {
                let k = choose|k: int| 0 <= k < s.len() && s[k] == x;
                if k < front.len() {
                    assert(front[k] == x);
                    assert(front.contains(x));
                    let i = choose|i: int| 0 <= i < before.len() && before[i] == x;
                    assert(whole[i] == x);
                } else {
                    assert(whole.last() == x);
                    assert(whole[whole.len() - 1] == x);
                }
            }
        }
        if forall|i: int| 0 < i < s.len() ==> #[trigger] s[i] != s[i - 1] {
            assert(s[s.len() - 1] != s[s.len() - 1 - 1]);
            assert forall|i: int| 0 < i < front.len() implies #[trigger] front[i] != front[i
                - 1] by {
                assert(s[i] != s[i - 1]);
            }
            assert(whole =~= s);
        }
    }
}

/// A host without DPUs is predicted by the MAC addresses that its endpoint reports. Where it reports
/// none, a device of another kind, or one without declaration, is not predicted; otherwise the host
/// is predicted by the declared interfaces of the host itself, in their order, without a repetition
/// next to what it repeats.
pub proof fn hosts_are_predicted_by_report_or_declaration(
    report: EndpointExplorationReport,
    data: Option<ExpectedMachineData>,
    mac: MacAddress,
)
    ensures
        report.all_mac_addresses@.len() > 0 ==> predicted_host_macs(report, data)
            == report.all_mac_addresses@,
        report.all_mac_addresses@.len() == 0 && (data is None || report.is_dpu || report.is_switch
            || report.is_power_shelf) ==> predicted_host_macs(report, data).len() == 0,
        report.all_mac_addresses@.len() == 0 && !report.is_dpu && !report.is_switch
            && !report.is_power_shelf ==> (data matches Some(declared) ==> {
            let predicted = predicted_host_macs(report, data);
            let named = declared.host_nics@.filter(
                |nic: ExpectedHostNic| nic.role == ExpectedInterfaceRole::Host,
            ).map_values(|nic: ExpectedHostNic| nic.mac_address);
            &&& predicted.contains(mac) <==> exists|i: int|
                0 <= i < declared.host_nics@.len() && (#[trigger] declared.host_nics@[i]).role
                    == ExpectedInterfaceRole::Host && declared.host_nics@[i].mac_address == mac
            &&& forall|i: int| 0 < i < predicted.len() ==> #[trigger] predicted[i] != predicted[i
                - 1]
            &&& named.len() > 0 ==> predicted[0] == named[0] && predicted.last() == named.last()
            &&& (forall|i: int| 0 < i < named.len() ==> #[trigger] named[i] != named[i - 1])
                ==> predicted == named
        }),
{
    if let Some(declared) = data {
        host_macs_are_of_host_interfaces(declared.host_nics@, mac);
        host_macs_keep_their_order(declared.host_nics@);
        repeats_are_dropped(host_role_macs(declared.host_nics@));
    }
}

/// Whether the taking of locks can come to this point: `log` holds its requests with their replies,
/// in order, and `stages` where it stood when it made them.
pub open spec fn lock_reaches(
    declared: DeclaredMachine,
    host: ExploredManagedHost,
    report: EndpointExplorationReport,
    stages: Seq<LockStage>,
    log: Seq<(Request, Reply)>,
    progress: Progress<LockStage, LockStage>,
) -> bool
    decreases log.len(),
{
    &&& stages.len() == log.len()
    &&& if log.len() == 0 {
        lock_starts(declared, host, report, progress)
    } else {
        &&& lock_reaches(
            declared,
            host,
            report,
            stages.drop_last(),
            log.drop_last(),
            Progress::Ask(stages.last(), log.last().0),
        )
        &&& lock_next(stages.last()@, log.last().1, progress)
    }
}

/// Whether the preview says who owned its address when that was asked without locks.
pub open spec fn preview_is_told(log: Seq<(Request, Reply)>, preview: BmcOwnerPreview) -> bool {
    told(
        log,
        Request::FindBmcOwner { address: preview.address },
        Reply::BmcOwner(preview.owner),
    )
}

/// Whether the owner of the preview's address was the same when its row was locked.
pub open spec fn preview_is_confirmed(log: Seq<(Request, Reply)>, preview: BmcOwnerPreview) -> bool {
    told(
        log,
        Request::FindBmcOwnerForUpdate { address: preview.address },
        Reply::BmcOwner(preview.owner),
    )
}

/// Whether this segment was found for the address.
pub open spec fn segment_is_told(
    log: Seq<(Request, Reply)>,
    address: IpAddr,
    segment: NetworkSegmentId,
) -> bool {
    told(log, Request::FindSegmentForAddress { address }, Reply::Segment(segment))
}

/// Whether the segment of the address is among these.
pub open spec fn segment_is_among(
    log: Seq<(Request, Reply)>,
    address: IpAddr,
    segments: Seq<NetworkSegmentId>,
) -> bool {
    exists|segment: NetworkSegmentId| #[trigger]
        segment_is_told(log, address, segment) && segments.contains(segment)
}

/// Whether this is what discovering an interface will lock.
pub open spec fn inputs_are_told(
    log: Seq<(Request, Reply)>,
    mac_address: MacAddress,
    inputs: ExpectedInterfaceDiscoveryLockInputs,
) -> bool {
    told(log, Request::FindDiscoveryLockInputs { mac_address }, Reply::LockInputs(inputs))
}

/// Whether the previews are those of the BMC addresses, in their order.
spec fn previews_stand(log: Seq<(Request, Reply)>, record: LockRecord) -> bool {
    &&& record.previews.len() <= record.addresses.len()
    &&& forall|k: int|
        0 <= k < record.previews.len() ==> (#[trigger] record.previews[k]).address
            == record.addresses[k] && preview_is_told(log, record.previews[k])
}

spec fn addresses_stand(host: ExploredManagedHost, record: LockRecord) -> bool {
    &&& strictly_ascending(record.addresses)
    &&& record.addresses.len() <= usize::MAX
    &&& forall|address: IpAddr| #[trigger]
        record.addresses.contains(address) <==> is_bmc_address(host, address)
}

spec fn discovery_stands(log: Seq<(Request, Reply)>, record: LockRecord) -> bool {
    &&& record.discovery.len() <= record.interface_macs.len()
    &&& forall|k: int|
        0 <= k < record.discovery.len() ==> inputs_are_told(
            log,
            record.interface_macs[k],
            #[trigger] record.discovery[k],
        )
}

/// Whether the segments that were found so far are among those of the record: those of the owners,
/// and those of the first addresses without owner.
spec fn segments_stand(log: Seq<(Request, Reply)>, record: LockRecord, found: int) -> bool {
    &&& exists|admin: Vec<NetworkSegmentId>|
        admin@ == record.admin_segment_ids && #[trigger] told(
            log,
            Request::ListAdminSegments,
            Reply::Segments(admin),
        )
    &&& lock_missing(record)
    &&& forall|k: int|
        0 <= k < record.previews.len() ==> ((#[trigger] record.previews[k]).owner matches Some(
            owner,
        ) ==> record.segment_ids.contains(owner.segment_id))
    &&& forall|k: int|
        0 <= k < found ==> segment_is_among(
            log,
            #[trigger] record.missing[k],
            record.segment_ids,
        )
}

spec fn fixed_stands(log: Seq<(Request, Reply)>, record: LockRecord) -> bool {
    match record.declared.machine.data.bmc_ip_address {
        Some(address) => exists|segment_id: NetworkSegmentId| #[trigger]
            segment_is_told(log, address.ip, segment_id) && record.fixed_allocations.contains(
                FixedAllocation { segment_id, address: address.ip },
            ),
        None => true,
    }
}

spec fn subject_stands(
    declared: DeclaredMachine,
    host: ExploredManagedHost,
    report: EndpointExplorationReport,
    record: LockRecord,
) -> bool {
    record.declared == declared && record.host == host && record.report == report
}

spec fn confirmed_before(log: Seq<(Request, Reply)>, record: LockRecord, index: int) -> bool {
    forall|k: int|
        0 <= k < index ==> preview_is_confirmed(log, #[trigger] record.previews[k])
}

spec fn all_previewed(log: Seq<(Request, Reply)>, record: LockRecord) -> bool {
    previews_stand(log, record) && record.previews.len() == record.addresses.len()
}

spec fn all_found(log: Seq<(Request, Reply)>, record: LockRecord) -> bool {
    &&& all_previewed(log, record)
    &&& lock_macs(record)
    &&& discovery_stands(log, record)
    &&& record.discovery.len() == record.interface_macs.len()
    &&& segments_stand(log, record, record.missing.len() as int)
    &&& fixed_stands(log, record)
    &&& lock_merged(record)
}

spec fn record_stands(
    declared: DeclaredMachine,
    host: ExploredManagedHost,
    report: EndpointExplorationReport,
    log: Seq<(Request, Reply)>,
    record: LockRecord,
    request: Request,
) -> bool {
    &&& subject_stands(declared, host, report, record)
    &&& addresses_stand(host, record)
    &&& match record.step {
        LockStep::Previewing { index } => {
            &&& previews_stand(log, record)
            &&& index == record.previews.len()
            &&& index < record.addresses.len()
            &&& request == Request::FindBmcOwner { address: record.addresses[index as int] }
            &&& record.discovery.len() == 0
        },
        LockStep::LockingMacs => {
            &&& all_previewed(log, record)
            &&& lock_macs(record)
            &&& request is LockInterfaceMacs
            &&& record.discovery.len() == 0
        },
        LockStep::Discovering { index } => {
            &&& all_previewed(log, record)
            &&& lock_macs(record)
            &&& discovery_stands(log, record)
            &&& index == record.discovery.len()
            &&& index < record.interface_macs.len()
            &&& record.interface_macs.len() <= usize::MAX
            &&& request == Request::FindDiscoveryLockInputs {
                mac_address: record.interface_macs[index as int],
            }
            &&& told(log, Request::LockInterfaceMacs, Reply::Done)
        },
        LockStep::ListingAdminSegments => {
            &&& all_previewed(log, record)
            &&& lock_macs(record)
            &&& discovery_stands(log, record)
            &&& record.discovery.len() == record.interface_macs.len()
            &&& request is ListAdminSegments
            &&& told(log, Request::LockInterfaceMacs, Reply::Done)
        },
        LockStep::FindingSegments { index } => {
            &&& all_previewed(log, record)
            &&& lock_macs(record)
            &&& discovery_stands(log, record)
            &&& record.discovery.len() == record.interface_macs.len()
            &&& segments_stand(log, record, index as int)
            &&& index < record.missing.len() <= usize::MAX
            &&& request == Request::FindSegmentForAddress {
                address: record.missing[index as int],
            }
            &&& told(log, Request::LockInterfaceMacs, Reply::Done)
        },
        LockStep::FindingBmcSegment { address } => {
            &&& all_previewed(log, record)
            &&& lock_macs(record)
            &&& discovery_stands(log, record)
            &&& record.discovery.len() == record.interface_macs.len()
            &&& segments_stand(log, record, record.missing.len() as int)
            &&& record.declared.machine.data.bmc_ip_address matches Some(declared_address)
            &&& declared_address.ip == address
            &&& request == Request::FindSegmentForAddress { address }
            &&& told(log, Request::LockInterfaceMacs, Reply::Done)
        },
        LockStep::LockingSegments => {
            &&& all_found(log, record)
            &&& request is LockSegments
            &&& told(log, Request::LockInterfaceMacs, Reply::Done)
        },
        LockStep::LockingFixedAddresses => {
            &&& all_found(log, record)
            &&& request is LockFixedAddresses
            &&& told(log, Request::LockInterfaceMacs, Reply::Done)
            &&& told(log, Request::LockSegments, Reply::Done)
        },
        LockStep::Revalidating { index } => {
            &&& all_found(log, record)
            &&& index < record.previews.len()
            &&& confirmed_before(log, record, index as int)
            &&& request == Request::FindBmcOwnerForUpdate {
                address: record.previews[index as int].address,
            }
            &&& told(log, Request::LockInterfaceMacs, Reply::Done)
            &&& told(log, Request::LockSegments, Reply::Done)
            &&& told(log, Request::LockFixedAddresses, Reply::Done)
        },
    }
}

spec fn stage_is_done(
    declared: DeclaredMachine,
    host: ExploredManagedHost,
    report: EndpointExplorationReport,
    log: Seq<(Request, Reply)>,
    record: LockRecord,
) -> bool {
    &&& subject_stands(declared, host, report, record)
    &&& addresses_stand(host, record)
    &&& all_found(log, record)
    &&& confirmed_before(log, record, record.previews.len() as int)
    &&& told(log, Request::LockInterfaceMacs, Reply::Done)
    &&& told(log, Request::LockSegments, Reply::Done)
    &&& told(log, Request::LockFixedAddresses, Reply::Done)
    &&& host_bmc_owner_is_expected(
        record.previews,
        host.host_bmc_ip.ip,
        declared.machine.bmc_mac_address,
    )
}

spec fn lock_holds(
    declared: DeclaredMachine,
    host: ExploredManagedHost,
    report: EndpointExplorationReport,
    log: Seq<(Request, Reply)>,
    progress: Progress<LockStage, LockStage>,
) -> bool {
    match progress {
        Progress::Ask(stage, request) => record_stands(
            declared,
            host,
            report,
            log,
            stage@,
            request,
        ),
        Progress::Finished(stage) => stage_is_done(declared, host, report, log, stage@),
        Progress::Failed(_) => true,
    }
}

proof fn record_stays(log: Seq<(Request, Reply)>, record: LockRecord, found: int, index: int)
    requires
        log.len() > 0,
    ensures
        previews_stand(log.drop_last(), record) ==> previews_stand(log, record),
        all_previewed(log.drop_last(), record) ==> all_previewed(log, record),
        discovery_stands(log.drop_last(), record) ==> discovery_stands(log, record),
        segments_stand(log.drop_last(), record, found) ==> segments_stand(log, record, found),
        fixed_stands(log.drop_last(), record) ==> fixed_stands(log, record),
        confirmed_before(log.drop_last(), record, index) ==> confirmed_before(log, record, index),
{
    log_grows(log);
    let before = log.drop_last();
    if segments_stand(before, record, found) {
        assert forall|k: int| 0 <= k < found implies segment_is_among(
            log,
            #[trigger] record.missing[k],
            record.segment_ids,
        ) by {
            assert(segment_is_among(before, record.missing[k], record.segment_ids));
            segment_stays_among(log, record.missing[k], record.segment_ids);
        }
    }
    if fixed_stands(before, record) {
        if let Some(address) = record.declared.machine.data.bmc_ip_address {
            let segment_id = choose|segment_id: NetworkSegmentId| #[trigger]
                segment_is_told(before, address.ip, segment_id)
                    && record.fixed_allocations.contains(
                    FixedAllocation { segment_id, address: address.ip },
                );
            assert(segment_is_told(log, address.ip, segment_id));
        }
    }
}

proof fn segment_stays_among(
    log: Seq<(Request, Reply)>,
    address: IpAddr,
    segments: Seq<NetworkSegmentId>,
)
    requires
        log.len() > 0,
        segment_is_among(log.drop_last(), address, segments),
    ensures
        segment_is_among(log, address, segments),
{
    log_grows(log);
    let segment = choose|segment: NetworkSegmentId| #[trigger]
        segment_is_told(log.drop_last(), address, segment) && segments.contains(segment);
    assert(segment_is_told(log, address, segment));
}

proof fn lock_always_holds(
    declared: DeclaredMachine,
    host: ExploredManagedHost,
    report: EndpointExplorationReport,
    stages: Seq<LockStage>,
    log: Seq<(Request, Reply)>,
    progress: Progress<LockStage, LockStage>,
)
    requires
        lock_reaches(declared, host, report, stages, log, progress),
    ensures
        lock_holds(declared, host, report, log, progress),
    decreases log.len(),
{
    if log.len() == 0 {
        assert(progress->Ask_0.addresses@.len() == progress->Ask_0.addresses.len());
    } else {
        let stage = stages.last();
        lock_always_holds(
            declared,
            host,
            report,
            stages.drop_last(),
            log.drop_last(),
            Progress::Ask(stage, log.last().0),
        );
        match stage.step {
            LockStep::Previewing { .. } => preview_goes_on(
                declared,
                host,
                report,
                log,
                stage,
                progress,
            ),
            LockStep::LockingMacs => discovery_goes_on(
                declared,
                host,
                report,
                log,
                stage,
                progress,
            ),
            LockStep::Discovering { .. } => discovery_goes_on(
                declared,
                host,
                report,
                log,
                stage,
                progress,
            ),
            LockStep::ListingAdminSegments => segments_go_on(
                declared,
                host,
                report,
                log,
                stage,
                progress,
            ),
            LockStep::FindingSegments { .. } => segments_go_on(
                declared,
                host,
                report,
                log,
                stage,
                progress,
            ),
            LockStep::FindingBmcSegment { .. } => segments_go_on(
                declared,
                host,
                report,
                log,
                stage,
                progress,
            ),
            _ => confirming_goes_on(declared, host, report, log, stage, progress),
        }
    }
}

proof fn preview_goes_on(
    declared: DeclaredMachine,
    host: ExploredManagedHost,
    report: EndpointExplorationReport,
    log: Seq<(Request, Reply)>,
    stage: LockStage,
    progress: Progress<LockStage, LockStage>,
)
    requires
        log.len() > 0,
        record_stands(declared, host, report, log.drop_last(), stage@, log.last().0),
        lock_next(stage@, log.last().1, progress),
        stage.step is Previewing,
    ensures
        lock_holds(declared, host, report, log, progress),
{
    log_grows(log);
    record_stays(log, stage@, 0, 0);
    if progress is Ask {
        let next = progress->Ask_0@;
        assert(next.addresses == stage@.addresses);
        assert(next.previews.len() == stage@.previews.len() + 1);
        assert forall|k: int| 0 <= k < next.previews.len() implies (
        #[trigger] next.previews[k]).address == next.addresses[k] && preview_is_told(
            log,
            next.previews[k],
        ) by {
            if k < stage@.previews.len() {
                assert(next.previews[k] == stage@.previews[k]);
            }
        }
    }
}

proof fn discovery_goes_on(
    declared: DeclaredMachine,
    host: ExploredManagedHost,
    report: EndpointExplorationReport,
    log: Seq<(Request, Reply)>,
    stage: LockStage,
    progress: Progress<LockStage, LockStage>,
)
    requires
        log.len() > 0,
        record_stands(declared, host, report, log.drop_last(), stage@, log.last().0),
        lock_next(stage@, log.last().1, progress),
        stage.step is LockingMacs || stage.step is Discovering,
    ensures
        lock_holds(declared, host, report, log, progress),
{
    log_grows(log);
    record_stays(log, stage@, 0, 0);
    assert(stage.interface_macs@.len() == stage.interface_macs.len());
    if progress is Ask {
        let next = progress->Ask_0@;
        assert(next.interface_macs == stage@.interface_macs);
        assert(next.previews == stage@.previews);
        assert(lock_macs(next) == lock_macs(stage@));
        if stage.step is Discovering {
            assert forall|k: int| 0 <= k < next.discovery.len() implies inputs_are_told(
                log,
                next.interface_macs[k],
                #[trigger] next.discovery[k],
            ) by {
                if k < stage@.discovery.len() {
                    assert(next.discovery[k] == stage@.discovery[k]);
                }
            }
        }
    }
}

proof fn segments_are_locked(
    declared: DeclaredMachine,
    host: ExploredManagedHost,
    report: EndpointExplorationReport,
    log: Seq<(Request, Reply)>,
    record: LockRecord,
    progress: Progress<LockStage, LockStage>,
)
    requires
        subject_stands(declared, host, report, record),
        addresses_stand(host, record),
        all_previewed(log, record),
        lock_macs(record),
        discovery_stands(log, record),
        record.discovery.len() == record.interface_macs.len(),
        segments_stand(log, record, record.missing.len() as int),
        fixed_stands(log, record),
        told(log, Request::LockInterfaceMacs, Reply::Done),
        lock_segments(record, progress),
    ensures
        lock_holds(declared, host, report, log, progress),
{
    let next = progress->Ask_0@;
    assert(next == LockRecord { locks: next.locks, step: LockStep::LockingSegments, ..record });
    assert(all_found(log, next));
}

proof fn bmc_segment_is_found(
    declared: DeclaredMachine,
    host: ExploredManagedHost,
    report: EndpointExplorationReport,
    log: Seq<(Request, Reply)>,
    record: LockRecord,
    progress: Progress<LockStage, LockStage>,
)
    requires
        subject_stands(declared, host, report, record),
        addresses_stand(host, record),
        all_previewed(log, record),
        lock_macs(record),
        discovery_stands(log, record),
        record.discovery.len() == record.interface_macs.len(),
        segments_stand(log, record, record.missing.len() as int),
        told(log, Request::LockInterfaceMacs, Reply::Done),
        lock_bmc_segment(record, progress),
    ensures
        lock_holds(declared, host, report, log, progress),
{
    match record.declared.machine.data.bmc_ip_address {
        Some(address) => {
            let next = progress->Ask_0@;
            assert(next == LockRecord {
                step: LockStep::FindingBmcSegment { address: address.ip },
                ..record
            });
            assert(segments_stand(log, next, next.missing.len() as int));
        },
        None => segments_are_locked(declared, host, report, log, record, progress),
    }
}

proof fn segments_go_on(
    declared: DeclaredMachine,
    host: ExploredManagedHost,
    report: EndpointExplorationReport,
    log: Seq<(Request, Reply)>,
    stage: LockStage,
    progress: Progress<LockStage, LockStage>,
)
    requires
        log.len() > 0,
        record_stands(declared, host, report, log.drop_last(), stage@, log.last().0),
        lock_next(stage@, log.last().1, progress),
        stage.step is ListingAdminSegments || stage.step is FindingSegments
            || stage.step is FindingBmcSegment,
    ensures
        lock_holds(declared, host, report, log, progress),
{
    log_grows(log);
    let record = stage@;
    let reply = log.last().1;
    match stage.step {
        LockStep::ListingAdminSegments => {
            record_stays(log, record, 0, 0);
            if let Reply::Segments(admin) = reply {
                let missing = progress->Ask_0@.missing;
                assert(progress->Ask_0.missing@.len() == progress->Ask_0.missing.len());
                let segment_ids = owners_of(record.previews).map_values(
                    |owner: BmcInterfaceOwner| owner.segment_id,
                );
                let listed = LockRecord {
                    admin_segment_ids: admin@,
                    segment_ids,
                    missing,
                    ..record
                };
                owners_segments_are_listed(record.previews);
                assert(told(log, Request::ListAdminSegments, Reply::Segments(admin)));
                assert(segments_stand(log, listed, 0));
                if missing.len() == 0 {
                    bmc_segment_is_found(declared, host, report, log, listed, progress);
                } else {
                    let next = progress->Ask_0@;
                    assert(next == LockRecord {
                        step: LockStep::FindingSegments { index: 0 },
                        ..listed
                    });
                    assert(segments_stand(log, next, 0));
                }
            }
        },
        LockStep::FindingSegments { index } => {
            record_stays(log, record, index as int, 0);
            if let Reply::Segment(segment) = reply {
                let found = LockRecord { segment_ids: record.segment_ids.push(segment), ..record };
                segment_is_added(log, record, found, index as int, segment);
                if index + 1 < record.missing.len() {
                    let next = progress->Ask_0@;
                    assert(next == LockRecord {
                        step: LockStep::FindingSegments { index: (index + 1) as usize },
                        ..found
                    });
                    assert(segments_stand(log, next, index + 1));
                } else {
                    bmc_segment_is_found(declared, host, report, log, found, progress);
                }
            }
        },
        LockStep::FindingBmcSegment { address } => {
            record_stays(log, record, record.missing.len() as int, 0);
            if let Reply::Segment(segment_id) = reply {
                let allocation = FixedAllocation { segment_id, address };
                let fixed_allocations = record.fixed_allocations.push(allocation);
                let found = LockRecord { fixed_allocations, ..record };
                assert(fixed_allocations[fixed_allocations.len() - 1] == allocation);
                assert(segment_is_told(log, address, segment_id));
                assert(fixed_stands(log, found));
                assert(segments_stand(log, found, found.missing.len() as int));
                segments_are_locked(declared, host, report, log, found, progress);
            }
        },
        _ => {},
    }
}

proof fn owners_segments_are_listed(previews: Seq<BmcOwnerPreview>)
    ensures
        forall|k: int|
            0 <= k < previews.len() ==> ((#[trigger] previews[k]).owner matches Some(owner)
                ==> owners_of(previews).map_values(
                |owner: BmcInterfaceOwner| owner.segment_id,
            ).contains(owner.segment_id)),
{
    let segments = owners_of(previews).map_values(|owner: BmcInterfaceOwner| owner.segment_id);
    assert forall|k: int| 0 <= k < previews.len() && (
    #[trigger] previews[k]).owner is Some implies segments.contains(
        previews[k].owner->0.segment_id,
    ) by {
        let owner = previews[k].owner->0;
        owners_are_those_previewed(previews, owner);
        let i = choose|i: int| 0 <= i < owners_of(previews).len() && owners_of(previews)[i] == owner;
        assert(segments[i] == owner.segment_id);
    }
}

proof fn segment_is_added(
    log: Seq<(Request, Reply)>,
    record: LockRecord,
    found: LockRecord,
    index: int,
    segment: NetworkSegmentId,
)
    requires
        0 <= index < record.missing.len(),
        segments_stand(log, record, index),
        found == (LockRecord { segment_ids: record.segment_ids.push(segment), ..record }),
        segment_is_told(log, record.missing[index], segment),
    ensures
        segments_stand(log, found, index + 1),
{
    let segments = found.segment_ids;
    assert(segments[segments.len() - 1] == segment);
    assert forall|s: NetworkSegmentId| record.segment_ids.contains(s) implies #[trigger]
        segments.contains(s) by {
        let i = choose|i: int| 0 <= i < record.segment_ids.len() && record.segment_ids[i] == s;
        assert(segments[i] == s);
    }
    assert forall|k: int| 0 <= k < index + 1 implies segment_is_among(
        log,
        #[trigger] found.missing[k],
        segments,
    ) by {
        if k < index {
            assert(segment_is_among(log, record.missing[k], record.segment_ids));
            let s = choose|s: NetworkSegmentId| #[trigger]
                segment_is_told(log, record.missing[k], s) && record.segment_ids.contains(s);
            assert(segments.contains(s));
        }
    }
}

proof fn confirming_goes_on(
    declared: DeclaredMachine,
    host: ExploredManagedHost,
    report: EndpointExplorationReport,
    log: Seq<(Request, Reply)>,
    stage: LockStage,
    progress: Progress<LockStage, LockStage>,
)
    requires
        log.len() > 0,
        record_stands(declared, host, report, log.drop_last(), stage@, log.last().0),
        lock_next(stage@, log.last().1, progress),
        stage.step is LockingSegments || stage.step is LockingFixedAddresses
            || stage.step is Revalidating,
    ensures
        lock_holds(declared, host, report, log, progress),
{
    log_grows(log);
    let record = stage@;
    record_stays(log, record, record.missing.len() as int, 0);
    assert(all_found(log, record));
    if let LockStep::Revalidating { index } = stage.step {
        record_stays(log, record, 0, index as int);
        if let Reply::BmcOwner(current) = log.last().1 {
            if current == record.previews[index as int].owner {
                assert(preview_is_confirmed(log, record.previews[index as int]));
                assert(confirmed_before(log, record, index + 1));
            }
        }
    }
    if let Progress::Ask(next, _) = progress {
        assert(next@ == LockRecord { step: next@.step, ..record });
        assert(all_found(log, next@));
    }
}

/// Whether a fixed address is that of the declared BMC in the segment that was found for it.
pub open spec fn is_declared_bmc(
    log: Seq<(Request, Reply)>,
    declared: DeclaredMachine,
    allocation: FixedAllocation,
) -> bool {
    &&& declared.machine.data.bmc_ip_address matches Some(address)
    &&& allocation.address == address.ip
    &&& segment_is_told(log, address.ip, allocation.segment_id)
}

/// When an ingestion holds its locks, every BMC address of the host and its DPUs was seen twice with
/// the same owner, before and under the locks; the host's own belongs to nobody or to the declared
/// BMC. What was locked contains the segment of every such owner, a segment for every address
/// without owner, and the address of the declared BMC.
pub proof fn locks_are_held_on_what_was_seen(
    declared: DeclaredMachine,
    host: ExploredManagedHost,
    report: EndpointExplorationReport,
    stages: Seq<LockStage>,
    log: Seq<(Request, Reply)>,
    stage: LockStage,
    address: IpAddr,
)
    requires
        lock_reaches(declared, host, report, stages, log, Progress::Finished(stage)),
        address == host.host_bmc_ip.ip || exists|i: int|
            0 <= i < host.dpus@.len() && (#[trigger] host.dpus@[i]).bmc_ip.ip == address,
    ensures
        stage.declared == declared && stage.host == host && stage.report == report,
        told(log, Request::LockInterfaceMacs, Reply::Done),
        told(log, Request::LockSegments, Reply::Done),
        told(log, Request::LockFixedAddresses, Reply::Done),
        exists|owner: Option<BmcInterfaceOwner>|
            {
                &&& #[trigger] told(log, Request::FindBmcOwner { address }, Reply::BmcOwner(owner))
                &&& told(log, Request::FindBmcOwnerForUpdate { address }, Reply::BmcOwner(owner))
                &&& owner matches Some(owner) ==> stage.locks.segment_ids@.contains(
                    owner.segment_id,
                )
                &&& owner is None ==> segment_is_among(log, address, stage.locks.segment_ids@)
                &&& address == host.host_bmc_ip.ip ==> (owner matches Some(owner)
                    ==> owner.mac_address == declared.machine.bmc_mac_address)
            },
        declared.machine.data.bmc_ip_address is Some ==> exists|allocation: FixedAllocation|
            {
                &&& #[trigger] is_declared_bmc(log, declared, allocation)
                &&& stage.locks.fixed_allocations@.contains(allocation)
                &&& stage.locks.segment_ids@.contains(allocation.segment_id)
            },
{
    let record = stage@;
    lock_always_holds(declared, host, report, stages, log, Progress::Finished(stage));
    assert(is_bmc_address(host, address));
    assert(record.addresses.contains(address));
    let k = choose|k: int| 0 <= k < record.addresses.len() && record.addresses[k] == address;
    let preview = record.previews[k];
    assert(preview.address == address);
    assert(preview_is_confirmed(log, preview));
    assert(told(log, Request::FindBmcOwner { address }, Reply::BmcOwner(preview.owner)));
    host_bmc_belongs_to_nobody_or_the_declared(
        record.previews,
        host.host_bmc_ip.ip,
        declared.machine.bmc_mac_address,
    );
    if address == host.host_bmc_ip.ip {
        let i = choose|i: int|
            {
                &&& #[trigger] is_first_preview(record.previews, address, i)
                &&& record.previews[i].owner matches Some(owner) ==> owner.mac_address
                    == declared.machine.bmc_mac_address
            };
        assert(record.addresses[i] == record.addresses[k]);
        assert(i == k) by {
            if i < k {
                assert(record.addresses[i].rank() < record.addresses[k].rank());
            } else if k < i {
                assert(record.addresses[k].rank() < record.addresses[i].rank());
            }
        }
    }
    assert forall|segment: NetworkSegmentId| record.segment_ids.contains(segment) implies #[trigger]
        stage.locks.segment_ids@.contains(segment) by {
        everything_given_is_locked(
            record.admin_segment_ids,
            record.segment_ids,
            record.discovery,
            record.fixed_allocations,
            record.locks,
            segment,
            arbitrary(),
        );
    }
    if let Some(owner) = preview.owner {
        assert(record.segment_ids.contains(owner.segment_id));
    } else {
        assert(record.missing.contains(address));
        let m = choose|m: int| 0 <= m < record.missing.len() && record.missing[m] == address;
        assert(segment_is_among(log, record.missing[m], record.segment_ids));
        let segment = choose|segment: NetworkSegmentId| #[trigger]
            segment_is_told(log, address, segment) && record.segment_ids.contains(segment);
        assert(stage.locks.segment_ids@.contains(segment));
    }
    if let Some(bmc) = declared.machine.data.bmc_ip_address {
        let segment_id = choose|segment_id: NetworkSegmentId| #[trigger]
            segment_is_told(log, bmc.ip, segment_id) && record.fixed_allocations.contains(
                FixedAllocation { segment_id, address: bmc.ip },
            );
        let allocation = FixedAllocation { segment_id, address: bmc.ip };
        everything_given_is_locked(
            record.admin_segment_ids,
            record.segment_ids,
            record.discovery,
            record.fixed_allocations,
            record.locks,
            segment_id,
            allocation,
        );
        assert(is_declared_bmc(log, declared, allocation));
    }
}

/// When an ingestion holds its locks, the administrative segments are those that were listed, and
/// for every interface involved, the MAC address was locked, and what its discovery needs is locked
/// as well.
pub proof fn locks_cover_every_interface(
    declared: DeclaredMachine,
    host: ExploredManagedHost,
    report: EndpointExplorationReport,
    stages: Seq<LockStage>,
    log: Seq<(Request, Reply)>,
    stage: LockStage,
    mac: MacAddress,
    k: int,
)
    requires
        lock_reaches(declared, host, report, stages, log, Progress::Finished(stage)),
    ensures
        exists|admin: Vec<NetworkSegmentId>|
            {
                &&& #[trigger] told(log, Request::ListAdminSegments, Reply::Segments(admin))
                &&& forall|segment: NetworkSegmentId|
                    stage.locks.admin_segment_ids@.contains(segment) <==> #[trigger]
                        admin@.contains(segment)
            },
        mac == declared.machine.bmc_mac_address ==> stage.interface_macs@.contains(mac),
        0 <= k < declared.machine.data.host_nics@.len()
            && declared.machine.data.host_nics@[k].mac_address == mac
            ==> stage.interface_macs@.contains(mac),
        0 <= k < report.all_mac_addresses@.len() && report.all_mac_addresses@[k] == mac
            ==> stage.interface_macs@.contains(mac),
        0 <= k < host.dpus@.len() && (oob_mac_of(host.dpus@[k].systems@) == Some(mac)
            || host.dpus@[k].bmc_mac_address == Some(mac) || host.dpus@[k].host_pf_mac_address
            == Some(mac)) ==> stage.interface_macs@.contains(mac),
        stage.interface_macs@.contains(mac) ==> exists|
            inputs: ExpectedInterfaceDiscoveryLockInputs,
        |
            {
                &&& #[trigger] inputs_are_told(log, mac, inputs)
                &&& inputs.existing_segment_id matches Some(segment)
                    ==> stage.locks.segment_ids@.contains(segment)
                &&& forall|allocation: FixedAllocation| #[trigger]
                    inputs.fixed_allocations@.contains(allocation)
                        ==> stage.locks.fixed_allocations@.contains(allocation)
            },
{
    let record = stage@;
    lock_always_holds(declared, host, report, stages, log, Progress::Finished(stage));
    let admin = choose|admin: Vec<NetworkSegmentId>|
        admin@ == record.admin_segment_ids && #[trigger] told(
            log,
            Request::ListAdminSegments,
            Reply::Segments(admin),
        );
    assert forall|segment: NetworkSegmentId|
        stage.locks.admin_segment_ids@.contains(segment) <==> #[trigger] admin@.contains(
            segment,
        ) by {
        everything_given_is_locked(
            record.admin_segment_ids,
            record.segment_ids,
            record.discovery,
            record.fixed_allocations,
            record.locks,
            segment,
            arbitrary(),
        );
    }
    let owners = owners_of(record.previews).map_values(
        |owner: BmcInterfaceOwner| owner.mac_address,
    );
    every_interface_involved_is_named(declared.machine, host, report, owners, mac);
    assert(record.interface_macs.contains(mac) <==> is_ingestion_mac(
        declared.machine,
        host,
        report,
        owners,
        mac,
    ));
    if record.interface_macs.contains(mac) {
        let i = choose|i: int| 0 <= i < record.interface_macs.len() && record.interface_macs[i]
            == mac;
        let inputs = record.discovery[i];
        assert(inputs_are_told(log, mac, inputs));
        if let Some(segment) = inputs.existing_segment_id {
            everything_given_is_locked(
                record.admin_segment_ids,
                record.segment_ids,
                record.discovery,
                record.fixed_allocations,
                record.locks,
                segment,
                arbitrary(),
            );
        }
        assert forall|allocation: FixedAllocation| #[trigger]
            inputs.fixed_allocations@.contains(
                allocation,
            ) implies stage.locks.fixed_allocations@.contains(allocation) by {
            everything_given_is_locked(
                record.admin_segment_ids,
                record.segment_ids,
                record.discovery,
                record.fixed_allocations,
                record.locks,
                arbitrary(),
                allocation,
            );
        }
    }
}

/// Under the locks, an owner that is not the one previewed ends the ingestion for this address, and
/// only that does. An owner is the previewed one if interface, MAC address and segment agree.
pub proof fn changed_owners_end_the_ingestion(
    stage: LockStage,
    current: Option<BmcInterfaceOwner>,
    progress: Progress<LockStage, LockStage>,
    index: usize,
)
    requires
        stage.step == (LockStep::Revalidating { index }),
        index < stage.previews@.len(),
        lock_next(stage@, Reply::BmcOwner(current), progress),
    ensures
        ({
            let preview = stage.previews@[index as int];
            let same = match (preview.owner, current) {
                (None, None) => true,
                (Some(a), Some(b)) => a.interface_id == b.interface_id && a.mac_address
                    == b.mac_address && a.segment_id == b.segment_id,
                _ => false,
            };
            &&& !same ==> progress == Progress::<LockStage, LockStage>::Failed(
                IngestionError::BmcOwnerChanged { address: preview.address },
            )
            &&& same ==> !(progress is Failed) || progress == Progress::<
                LockStage,
                LockStage,
            >::Failed(
                IngestionError::BmcOwnerMismatch {
                    address: stage.host.host_bmc_ip.ip,
                    bmc_mac_address: stage.declared.machine.bmc_mac_address,
                },
            )
        }),
{
}

/// A failed request ends the taking of locks with the text of the failure.
pub proof fn failed_requests_end_the_locking(
    stage: LockStage,
    text: String,
    progress: Progress<LockStage, LockStage>,
)
    requires
        lock_next(stage@, Reply::Failed(text), progress),
    ensures
        progress == Progress::<LockStage, LockStage>::Failed(IngestionError::Backend(text)),
{
}

} // verus!
