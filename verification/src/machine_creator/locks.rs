//! What an ingestion locks, and what it checks once the locks are held.
use vstd::prelude::*;
use vstd::std_specs::convert::FromSpecImpl;

use crate::addresses::{
    FixedAllocation, IpAddr, MacAddress, MachineInterfaceId, NetworkSegmentId, Uuid,
};
use crate::expected_machine::ExpectedInterfaceRole;
use crate::expected_machine_data::{ExpectedHostNic, ExpectedMachine, ExpectedMachineData};
use crate::exploration::{
    dpu_oob_mac_address, oob_mac_of, EndpointExplorationReport, ExploredDpu, ExploredManagedHost,
};
use crate::ordered::{
    ascending_values_of, insert_ascending, sorted_unique, strictly_ascending, Ordered,
};

verus! {

/// What of an expected machine decides how it is ingested. It must not have changed between
/// the time credentials were chosen and the time the machine's row was locked.
#[derive(Clone, Copy, Debug)]
pub struct ExpectedMachineIngestionIdentity {
    pub id: Option<Uuid>,
    pub bmc_mac_address: MacAddress,
    pub has_rack_id: bool,
}

/// The identity of an expected machine.
pub open spec fn ingestion_identity(machine: ExpectedMachine) -> ExpectedMachineIngestionIdentity {
    ExpectedMachineIngestionIdentity {
        id: machine.id,
        bmc_mac_address: machine.bmc_mac_address,
        has_rack_id: machine.data.rack_id is Some,
    }
}

impl From<&ExpectedMachine> for ExpectedMachineIngestionIdentity {
    fn from(machine: &ExpectedMachine) -> (r: Self) {
        ExpectedMachineIngestionIdentity {
            id: machine.id,
            bmc_mac_address: machine.bmc_mac_address,
            has_rack_id: machine.data.rack_id.is_some(),
        }
    }
}

impl FromSpecImpl<&ExpectedMachine> for ExpectedMachineIngestionIdentity {
    open spec fn obeys_from_spec() -> bool {
        true
    }

    open spec fn from_spec(machine: &ExpectedMachine) -> Self {
        ingestion_identity(*machine)
    }
}

impl ExpectedMachineIngestionIdentity {
    /// Whether the machine still has this identity.
    pub fn matches(&self, machine: &ExpectedMachine) -> (r: bool)
        ensures
            r == (*self == ingestion_identity(*machine)),
    {
        let current = ExpectedMachineIngestionIdentity::from(machine);
        let same_id = match (self.id, current.id) {
            (None, None) => true,
            (Some(a), Some(b)) => a == b,
            _ => false,
        };
        same_id && self.bmc_mac_address == current.bmc_mac_address && self.has_rack_id
            == current.has_rack_id
    }
}

/// The interface that owns a BMC address.
#[derive(Clone, Copy, Debug, PartialEq, Eq, Structural)]
pub struct BmcInterfaceOwner {
    pub interface_id: MachineInterfaceId,
    pub mac_address: MacAddress,
    pub segment_id: NetworkSegmentId,
}

/// Who owned a BMC address before the locks were taken.
#[derive(Clone, Copy, Debug)]
pub struct BmcOwnerPreview {
    pub address: IpAddr,
    pub owner: Option<BmcInterfaceOwner>,
}

/// Whether the address is that of the host's BMC or of one of its DPUs' BMCs.
pub open spec fn is_bmc_address(host: ExploredManagedHost, address: IpAddr) -> bool {
    address == host.host_bmc_ip.ip || exists|i: int|
        0 <= i < host.dpus@.len() && (#[trigger] host.dpus@[i]).bmc_ip.ip == address
}

/// The BMC addresses of a host and its DPUs in ascending order, each once.
pub fn bmc_addresses(host: &ExploredManagedHost) -> (r: Vec<IpAddr>)
    ensures
        strictly_ascending(r@),
        forall|address: IpAddr| #[trigger]
            r@.contains(address) <==> is_bmc_address(*host, address),
{
    let mut r: Vec<IpAddr> = Vec::new();
    insert_ascending(&mut r, host.host_bmc_ip.ip);
    let mut i: usize = 0;
    while i < host.dpus.len()
        invariant
            i <= host.dpus.len(),
            strictly_ascending(r@),
            forall|address: IpAddr| #[trigger]
                r@.contains(address) <==> (address == host.host_bmc_ip.ip || exists|k: int|
                    0 <= k < i && (#[trigger] host.dpus@[k]).bmc_ip.ip == address),
        decreases host.dpus.len() - i,
    {
        insert_ascending(&mut r, host.dpus[i].bmc_ip.ip);
        i += 1;
    }
    r
}

/// Whether some source that an ingestion may touch names this MAC address: the declared
/// interfaces and BMC, the report, a DPU's out-of-band, BMC or host-facing interface, or the
/// owner of a BMC address.
pub open spec fn is_ingestion_mac(
    expected: ExpectedMachine,
    host: ExploredManagedHost,
    report: EndpointExplorationReport,
    owner_macs: Seq<MacAddress>,
    mac: MacAddress,
) -> bool {
    ||| exists|i: int|
        0 <= i < expected.data.host_nics@.len() && (
        #[trigger] expected.data.host_nics@[i]).mac_address == mac
    ||| mac == expected.bmc_mac_address
    ||| report.all_mac_addresses@.contains(mac)
    ||| exists|i: int| 0 <= i < host.dpus@.len() && is_dpu_mac(#[trigger] host.dpus@[i], mac)
    ||| owner_macs.contains(mac)
}

/// Whether the MAC address is that of a DPU's out-of-band, BMC or host-facing interface.
pub open spec fn is_dpu_mac(dpu: ExploredDpu, mac: MacAddress) -> bool {
    oob_mac_of(dpu.systems@) == Some(mac) || dpu.bmc_mac_address == Some(mac)
        || dpu.host_pf_mac_address == Some(mac)
}

fn insert_if_some<T: Ordered>(v: &mut Vec<T>, x: Option<T>)
    requires
        strictly_ascending(old(v)@),
    ensures
        strictly_ascending(final(v)@),
        forall|y: T| #[trigger] final(v)@.contains(y) <==> (old(v)@.contains(y) || x == Some(y)),
{
    if let Some(x) = x {
        insert_ascending(v, x);
    }
}

/// Every MAC address whose interface an ingestion may capture or associate, in ascending
/// order, each once.
pub fn managed_host_ingestion_interface_macs(
    expected_machine: &ExpectedMachine,
    explored_host: &ExploredManagedHost,
    report: &EndpointExplorationReport,
    bmc_owner_macs: &Vec<MacAddress>,
) -> (r: Vec<MacAddress>)
    ensures
        strictly_ascending(r@),
        forall|mac: MacAddress| #[trigger]
            r@.contains(mac) <==> is_ingestion_mac(
                *expected_machine,
                *explored_host,
                *report,
                bmc_owner_macs@,
                mac,
            ),
{
    let mut r: Vec<MacAddress> = Vec::new();
    insert_ascending(&mut r, expected_machine.bmc_mac_address);
    let nics = &expected_machine.data.host_nics;
    let mut i: usize = 0;
    while i < nics.len()
        invariant
            i <= nics.len(),
            strictly_ascending(r@),
            forall|mac: MacAddress| #[trigger]
                r@.contains(mac) <==> (mac == expected_machine.bmc_mac_address || exists|k: int|
                    0 <= k < i && (#[trigger] nics@[k]).mac_address == mac),
        decreases nics.len() - i,
    {
        insert_ascending(&mut r, nics[i].mac_address);
        i += 1;
    }
    let ghost declared = r@;
    extend_ascending(&mut r, &report.all_mac_addresses);
    extend_ascending(&mut r, bmc_owner_macs);
    let ghost with_lists = r@;
    let dpus = &explored_host.dpus;
    let mut j: usize = 0;
    while j < dpus.len()
        invariant
            j <= dpus.len(),
            strictly_ascending(r@),
            forall|mac: MacAddress| #[trigger]
                r@.contains(mac) <==> (with_lists.contains(mac) || exists|k: int|
                    0 <= k < j && is_dpu_mac(#[trigger] dpus@[k], mac)),
        decreases dpus.len() - j,
    {
        insert_if_some(&mut r, dpu_oob_mac_address(&dpus[j]));
        insert_if_some(&mut r, dpus[j].bmc_mac_address);
        insert_if_some(&mut r, dpus[j].host_pf_mac_address);
        j += 1;
    }
    r
}

/// Adds the values of a list to an ascending list.
fn extend_ascending<T: Ordered>(v: &mut Vec<T>, more: &Vec<T>)
    requires
        strictly_ascending(old(v)@),
    ensures
        strictly_ascending(final(v)@),
        forall|y: T| #[trigger]
            final(v)@.contains(y) <==> (old(v)@.contains(y) || more@.contains(y)),
{
    let ghost before = v@;
    let mut i: usize = 0;
    while i < more.len()
        invariant
            i <= more.len(),
            strictly_ascending(v@),
            forall|y: T| #[trigger]
                v@.contains(y) <==> (before.contains(y) || exists|k: int|
                    0 <= k < i && #[trigger] more@[k] == y),
        decreases more.len() - i,
    {
        insert_ascending(v, more[i]);
        i += 1;
    }
}

/// What discovering an interface by its MAC address will lock.
#[derive(Debug)]
pub struct ExpectedInterfaceDiscoveryLockInputs {
    pub existing_segment_id: Option<NetworkSegmentId>,
    pub fixed_allocations: Vec<FixedAllocation>,
}

/// What an ingestion locks.
#[derive(Debug)]
pub struct ManagedHostIngestionLockInputs {
    pub admin_segment_ids: Vec<NetworkSegmentId>,
    pub segment_ids: Vec<NetworkSegmentId>,
    pub fixed_allocations: Vec<FixedAllocation>,
}

/// Whether an allocation is among those given or among those that discovery will lock.
pub open spec fn is_merged_allocation(
    inputs: Seq<ExpectedInterfaceDiscoveryLockInputs>,
    fixed: Seq<FixedAllocation>,
    allocation: FixedAllocation,
) -> bool {
    fixed.contains(allocation) || exists|i: int|
        0 <= i < inputs.len() && (#[trigger] inputs[i]).fixed_allocations@.contains(allocation)
}

/// Whether a segment is an administrative one, one of those given, one that discovery found
/// an interface in, or one in which an address is held fixed.
pub open spec fn is_merged_segment(
    admin: Seq<NetworkSegmentId>,
    segments: Seq<NetworkSegmentId>,
    inputs: Seq<ExpectedInterfaceDiscoveryLockInputs>,
    fixed: Seq<FixedAllocation>,
    segment: NetworkSegmentId,
) -> bool {
    ||| admin.contains(segment)
    ||| segments.contains(segment)
    ||| exists|i: int|
        0 <= i < inputs.len() && (#[trigger] inputs[i]).existing_segment_id == Some(segment)
    ||| exists|allocation: FixedAllocation| #[trigger]
        is_merged_allocation(inputs, fixed, allocation) && allocation.segment_id == segment
}

/// What `merge_managed_host_ingestion_lock_inputs` makes of its arguments.
pub open spec fn merged_lock_inputs(
    admin: Seq<NetworkSegmentId>,
    segments: Seq<NetworkSegmentId>,
    inputs: Seq<ExpectedInterfaceDiscoveryLockInputs>,
    fixed: Seq<FixedAllocation>,
    r: ManagedHostIngestionLockInputs,
) -> bool {
    &&& ascending_values_of(r.admin_segment_ids@, admin)
    &&& strictly_ascending(r.segment_ids@)
    &&& forall|segment: NetworkSegmentId| #[trigger]
        r.segment_ids@.contains(segment) <==> is_merged_segment(
            admin,
            segments,
            inputs,
            fixed,
            segment,
        )
    &&& strictly_ascending(r.fixed_allocations@)
    &&& forall|allocation: FixedAllocation| #[trigger]
        r.fixed_allocations@.contains(allocation) <==> is_merged_allocation(
            inputs,
            fixed,
            allocation,
        )
}

/// Brings everything that an ingestion locks together: the administrative segments, every
/// segment involved and every fixed address, each list in ascending order without repetition.
pub fn merge_managed_host_ingestion_lock_inputs(
    admin_segment_ids: &Vec<NetworkSegmentId>,
    segment_ids: &Vec<NetworkSegmentId>,
    interface_lock_inputs: &Vec<ExpectedInterfaceDiscoveryLockInputs>,
    fixed_allocations: &Vec<FixedAllocation>,
) -> (r: ManagedHostIngestionLockInputs)
    ensures
        merged_lock_inputs(
            admin_segment_ids@,
            segment_ids@,
            interface_lock_inputs@,
            fixed_allocations@,
            r,
        ),
{
    let inputs = interface_lock_inputs;
    let admin = sorted_unique(admin_segment_ids);
    let mut segments = sorted_unique(segment_ids);
    extend_ascending(&mut segments, &admin);
    let ghost listed = segments@;
    let mut fixed = sorted_unique(fixed_allocations);
    let mut i: usize = 0;
    while i < inputs.len()
        invariant
            i <= inputs.len(),
            strictly_ascending(segments@),
            strictly_ascending(fixed@),
            forall|segment: NetworkSegmentId| #[trigger]
                segments@.contains(segment) <==> (listed.contains(segment) || exists|k: int|
                    0 <= k < i && (#[trigger] inputs@[k]).existing_segment_id == Some(segment)),
            forall|allocation: FixedAllocation| #[trigger]
                fixed@.contains(allocation) <==> (fixed_allocations@.contains(allocation)
                    || exists|k: int|
                    0 <= k < i && (#[trigger] inputs@[k]).fixed_allocations@.contains(allocation)),
        decreases inputs.len() - i,
    {
        insert_if_some(&mut segments, inputs[i].existing_segment_id);
        extend_ascending(&mut fixed, &inputs[i].fixed_allocations);
        i += 1;
    }
    let ghost before = segments@;
    let mut j: usize = 0;
    while j < fixed.len()
        invariant
            j <= fixed.len(),
            strictly_ascending(segments@),
            forall|segment: NetworkSegmentId| #[trigger]
                segments@.contains(segment) <==> (before.contains(segment) || exists|k: int|
                    0 <= k < j && (#[trigger] fixed@[k]).segment_id == segment),
        decreases fixed.len() - j,
    {
        insert_ascending(&mut segments, fixed[j].segment_id);
        j += 1;
    }
    proof {
        assert forall|segment: NetworkSegmentId| #[trigger]
            segments@.contains(segment) <==> is_merged_segment(
                admin_segment_ids@,
                segment_ids@,
                inputs@,
                fixed_allocations@,
                segment,
            ) by {
            if segments@.contains(segment) && !before.contains(segment) {
                let k = choose|k: int|
                    0 <= k < fixed@.len() && (#[trigger] fixed@[k]).segment_id == segment;
                assert(fixed@.contains(fixed@[k]));
                assert(is_merged_allocation(inputs@, fixed_allocations@, fixed@[k]));
            }
            if exists|allocation: FixedAllocation| #[trigger]
                is_merged_allocation(inputs@, fixed_allocations@, allocation)
                    && allocation.segment_id == segment {
                let allocation = choose|allocation: FixedAllocation| #[trigger]
                    is_merged_allocation(inputs@, fixed_allocations@, allocation)
                        && allocation.segment_id == segment;
                assert(fixed@.contains(allocation));
                let k = choose|k: int| 0 <= k < fixed@.len() && fixed@[k] == allocation;
                assert(fixed@[k].segment_id == segment);
            }
        }
    }
    ManagedHostIngestionLockInputs {
        admin_segment_ids: admin,
        segment_ids: segments,
        fixed_allocations: fixed,
    }
}

/// Whether the owner found under the locks is the one that was previewed.
pub open spec fn owner_matches(
    preview: Option<BmcInterfaceOwner>,
    current: Option<BmcInterfaceOwner>,
) -> bool {
    preview == current
}

/// Whether the owner found under the locks is the one that was previewed: the same interface
/// with the same MAC address in the same segment, or none both times.
pub fn bmc_interface_owner_matches(
    preview: Option<BmcInterfaceOwner>,
    current: Option<BmcInterfaceOwner>,
) -> (r: bool)
    ensures
        r == owner_matches(preview, current),
{
    match (preview, current) {
        (None, None) => true,
        (Some(preview), Some(current)) => {
            current.interface_id == preview.interface_id && current.mac_address
                == preview.mac_address && current.segment_id == preview.segment_id
        },
        _ => false,
    }
}

/// Whether the first preview of the host's BMC address names no owner or the expected one.
pub open spec fn host_bmc_owner_is_expected(
    previews: Seq<BmcOwnerPreview>,
    host_bmc_ip: IpAddr,
    expected_mac: MacAddress,
) -> bool
    decreases previews.len(),
{
    if previews.len() == 0 {
        false
    } else if previews[0].address == host_bmc_ip {
        previews[0].owner is None || previews[0].owner->0.mac_address == expected_mac
    } else {
        host_bmc_owner_is_expected(previews.drop_first(), host_bmc_ip, expected_mac)
    }
}

/// Whether the host's BMC address was previewed, and is owned by nobody or by the interface
/// with the expected machine's BMC MAC address.
pub fn host_bmc_owner_matches_expected_machine(
    previews: &Vec<BmcOwnerPreview>,
    host_bmc_ip: IpAddr,
    expected_bmc_mac_address: MacAddress,
) -> (r: bool)
    ensures
        r == host_bmc_owner_is_expected(previews@, host_bmc_ip, expected_bmc_mac_address),
{
    let mut i: usize = 0;
    assert(previews@.subrange(0, previews@.len() as int) =~= previews@);
    while i < previews.len()
        invariant
            i <= previews.len(),
            host_bmc_owner_is_expected(previews@, host_bmc_ip, expected_bmc_mac_address)
                == host_bmc_owner_is_expected(
                previews@.subrange(i as int, previews@.len() as int),
                host_bmc_ip,
                expected_bmc_mac_address,
            ),
        decreases previews.len() - i,
    {
        let ghost rest = previews@.subrange(i as int, previews@.len() as int);
        assert(rest.drop_first() =~= previews@.subrange(i + 1, previews@.len() as int));
        if previews[i].address == host_bmc_ip {
            return match previews[i].owner {
                None => true,
                Some(owner) => owner.mac_address == expected_bmc_mac_address,
            };
        }
        i += 1;
    }
    false
}

/// The addresses whose preview found no owner, in ascending order, each once.
pub fn missing_owner_addresses(previews: &Vec<BmcOwnerPreview>) -> (r: Vec<IpAddr>)
    ensures
        strictly_ascending(r@),
        forall|address: IpAddr| #[trigger]
            r@.contains(address) <==> is_missing_owner_address(previews@, address),
{
    let mut r: Vec<IpAddr> = Vec::new();
    let mut i: usize = 0;
    while i < previews.len()
        invariant
            i <= previews.len(),
            strictly_ascending(r@),
            forall|address: IpAddr| #[trigger]
                r@.contains(address) <==> exists|k: int|
                    0 <= k < i && (#[trigger] previews@[k]).owner is None
                        && previews@[k].address == address,
        decreases previews.len() - i,
    {
        if previews[i].owner.is_none() {
            insert_ascending(&mut r, previews[i].address);
        }
        i += 1;
    }
    r
}

/// Whether a preview of the address found no owner.
pub open spec fn is_missing_owner_address(
    previews: Seq<BmcOwnerPreview>,
    address: IpAddr,
) -> bool {
    exists|k: int|
        0 <= k < previews.len() && (#[trigger] previews[k]).owner is None && previews[k].address
            == address
}

/// The owners that the previews found, in order.
pub open spec fn owners_of(previews: Seq<BmcOwnerPreview>) -> Seq<BmcInterfaceOwner>
    decreases previews.len(),
{
    if previews.len() == 0 {
        seq![]
    } else if previews.last().owner is Some {
        owners_of(previews.drop_last()).push(previews.last().owner->0)
    } else {
        owners_of(previews.drop_last())
    }
}

/// The MAC addresses and segments of the owners that the previews found, in order.
pub fn previewed_owners(previews: &Vec<BmcOwnerPreview>) -> (r: (
    Vec<MacAddress>,
    Vec<NetworkSegmentId>,
))
    ensures
        r.0@ == owners_of(previews@).map_values(|owner: BmcInterfaceOwner| owner.mac_address),
        r.1@ == owners_of(previews@).map_values(|owner: BmcInterfaceOwner| owner.segment_id),
{
    let mut macs: Vec<MacAddress> = Vec::new();
    let mut segments: Vec<NetworkSegmentId> = Vec::new();
    let mut i: usize = 0;
    while i < previews.len()
        invariant
            i <= previews.len(),
            macs@ == owners_of(previews@.subrange(0, i as int)).map_values(
                |owner: BmcInterfaceOwner| owner.mac_address,
            ),
            segments@ == owners_of(previews@.subrange(0, i as int)).map_values(
                |owner: BmcInterfaceOwner| owner.segment_id,
            ),
        decreases previews.len() - i,
    {
        let ghost next = previews@.subrange(0, i + 1);
        assert(next.drop_last() =~= previews@.subrange(0, i as int));
        assert(next.last() == previews@[i as int]);
        if let Some(owner) = previews[i].owner {
            macs.push(owner.mac_address);
            segments.push(owner.segment_id);
        }
        assert(macs@ =~= owners_of(next).map_values(|owner: BmcInterfaceOwner| owner.mac_address));
        assert(segments@ =~= owners_of(next).map_values(
            |owner: BmcInterfaceOwner| owner.segment_id,
        ));
        i += 1;
    }
    assert(previews@.subrange(0, previews@.len() as int) =~= previews@);
    (macs, segments)
}

/// The list without those values that repeat their neighbour before them.
pub open spec fn without_neighbour_repeats<T>(s: Seq<T>) -> Seq<T>
    decreases s.len(),
{
    if s.len() <= 1 {
        s
    } else {
        let before = without_neighbour_repeats(s.drop_last());
        if s[s.len() - 2] == s.last() {
            before
        } else {
            before.push(s.last())
        }
    }
}

/// The MAC addresses of the interfaces that belong to the host itself, in order.
pub open spec fn host_role_macs(nics: Seq<ExpectedHostNic>) -> Seq<MacAddress>
    decreases nics.len(),
{
    if nics.len() == 0 {
        seq![]
    } else if nics.last().role == ExpectedInterfaceRole::Host {
        host_role_macs(nics.drop_last()).push(nics.last().mac_address)
    } else {
        host_role_macs(nics.drop_last())
    }
}

/// The MAC addresses by which a host without DPUs is predicted.
pub open spec fn predicted_host_macs(
    report: EndpointExplorationReport,
    data: Option<ExpectedMachineData>,
) -> Seq<MacAddress> {
    if report.all_mac_addresses@.len() > 0 {
        report.all_mac_addresses@
    } else if data is None || report.is_dpu || report.is_switch || report.is_power_shelf {
        seq![]
    } else {
        without_neighbour_repeats(host_role_macs(data->0.host_nics@))
    }
}

/// The MAC addresses by which a host without DPUs is predicted: those that its endpoint
/// reports, and otherwise, unless the endpoint is that of another kind of device, those of
/// the declared interfaces of the host itself.
pub fn host_mac_addresses_for_predicted_machine(
    report: &EndpointExplorationReport,
    machine_data: Option<&ExpectedMachineData>,
) -> (r: Vec<MacAddress>)
    ensures
        r@ == predicted_host_macs(
            *report,
            (match machine_data {
                Some(data) => Some(*data),
                None => None,
            }),
        ),
{
    if report.all_mac_addresses.len() > 0 {
        return report.all_mac_addresses.clone();
    }
    match machine_data {
        None => Vec::new(),
        Some(data) => {
            if report.is_dpu || report.is_switch || report.is_power_shelf {
                return Vec::new();
            }
            declared_host_macs(&data.host_nics)
        },
    }
}

fn declared_host_macs(nics: &Vec<ExpectedHostNic>) -> (r: Vec<MacAddress>)
    ensures
        r@ == without_neighbour_repeats(host_role_macs(nics@)),
{
    let mut r: Vec<MacAddress> = Vec::new();
    let mut last: Option<MacAddress> = None;
    let mut i: usize = 0;
    assert(host_role_macs(nics@.subrange(0, 0)) =~= seq![]);
    while i < nics.len()
        invariant
            i <= nics.len(),
            r@ == without_neighbour_repeats(host_role_macs(nics@.subrange(0, i as int))),
            match last {
                None => host_role_macs(nics@.subrange(0, i as int)).len() == 0,
                Some(mac) => host_role_macs(nics@.subrange(0, i as int)).len() > 0
                    && host_role_macs(nics@.subrange(0, i as int)).last() == mac,
            },
        decreases nics.len() - i,
    {
        let ghost before = nics@.subrange(0, i as int);
        let ghost next = nics@.subrange(0, i + 1);
        proof {
            assert(next.drop_last() =~= before);
            assert(next.last() == nics@[i as int]);
        }
        if nics[i].role.is_host() {
            let mac = nics[i].mac_address;
            proof {
                assert(host_role_macs(next).drop_last() =~= host_role_macs(before));
            }
            let repeats = match last {
                Some(previous) => previous == mac,
                None => false,
            };
            if !repeats {
                r.push(mac);
            }
            last = Some(mac);
        }
        i += 1;
    }
    assert(nics@.subrange(0, nics@.len() as int) =~= nics@);
    r
}

} // verus!
