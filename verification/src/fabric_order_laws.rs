//! In which order switches are named where a selection or an observation is refused.
use vstd::prelude::*;

use crate::fabric_laws::{is_first_misplaced, misplacement, placements_follow_nodes, rack_has};
use crate::fabric_manager::{
    ids_in_tray, is_expected, is_lowest_shared_tray, is_shared_tray, omitted_ids, placements_of,
    primary_selection, some_node_is, unplaced_ids, BatchGetNodeDeviceInfoResponse,
    FirmwareUpgradeDeviceInfo, NodeDeviceInfo, ReturnCode, ScaleUpFabricSwitchStatus,
    SwitchPlacement,
};
use crate::text::{decimal_text, joined};

verus! {

/// Whether no node of the response has the switch's id.
pub open spec fn lacks_node(details: Seq<NodeDeviceInfo>, switch: FirmwareUpgradeDeviceInfo) -> bool {
    forall|n: int| 0 <= n < details.len() ==> (#[trigger] details[n]).node_id@ != switch.node_id@
}

/// The switches without a node are named in the order of the rack.
pub proof fn unplaced_keep_their_order(
    switches: Seq<FirmwareUpgradeDeviceInfo>,
    details: Seq<NodeDeviceInfo>,
)
    ensures
        unplaced_ids(switches, details) == switches.filter(
            |switch: FirmwareUpgradeDeviceInfo| lacks_node(details, switch),
        ).map_values(|switch: FirmwareUpgradeDeviceInfo| switch.node_id@),
    decreases switches.len(),
{
    reveal(Seq::filter);
    let lacking = |switch: FirmwareUpgradeDeviceInfo| lacks_node(details, switch);
    let to_id = |switch: FirmwareUpgradeDeviceInfo| switch.node_id@;
    if switches.len() > 0 {
        let before = switches.drop_last();
        let last = switches.last();
        unplaced_keep_their_order(before, details);
        assert(lacks_node(details, last) <==> !some_node_is(details, last.node_id@));
        if lacks_node(details, last) {
            assert(switches.filter(lacking).map_values(to_id) =~= before.filter(lacking).map_values(
                to_id,
            ).push(last.node_id@));
        }
    } else {
        assert(switches.filter(lacking).map_values(to_id) =~= seq![]);
    }
}

/// The tray in which a node stands, by the response.
pub open spec fn stands_in(node: NodeDeviceInfo, tray_index: u32) -> bool {
    node.tray_index == Some(tray_index)
}

/// The ids of the nodes in a tray, in the order of the response.
pub open spec fn node_ids_in(details: Seq<NodeDeviceInfo>, tray_index: u32) -> Seq<Seq<char>> {
    details.filter(|node: NodeDeviceInfo| stands_in(node, tray_index)).map_values(
        |node: NodeDeviceInfo| node.node_id@,
    )
}

proof fn tray_ids_are_those_of_the_nodes(
    placements: Seq<SwitchPlacement>,
    details: Seq<NodeDeviceInfo>,
    tray_index: u32,
)
    requires
        placements.len() == details.len(),
        forall|n: int|
            0 <= n < details.len() ==> (#[trigger] placements[n]).device.node_id@
                == details[n].node_id@ && details[n].tray_index == Some(placements[n].tray_index),
    ensures
        ids_in_tray(placements, tray_index) == node_ids_in(details, tray_index),
    decreases details.len(),
{
    reveal(Seq::filter);
    let in_tray = |node: NodeDeviceInfo| stands_in(node, tray_index);
    let to_id = |node: NodeDeviceInfo| node.node_id@;
    if details.len() > 0 {
        let last = details.len() - 1;
        assert(placements[last].device.node_id@ == details[last].node_id@);
        assert forall|n: int| 0 <= n < details.drop_last().len() implies (
        #[trigger] placements.drop_last()[n]).device.node_id@ == details.drop_last()[n].node_id@
            && details.drop_last()[n].tray_index == Some(
            placements.drop_last()[n].tray_index,
        ) by {
            assert(placements[n].device.node_id@ == details[n].node_id@);
        }
        tray_ids_are_those_of_the_nodes(placements.drop_last(), details.drop_last(), tray_index);
        if stands_in(details.last(), tray_index) {
            assert(details.filter(in_tray).map_values(to_id) =~= details.drop_last().filter(
                in_tray,
            ).map_values(to_id).push(details.last().node_id@));
        }
    } else {
        assert(details.filter(in_tray).map_values(to_id) =~= seq![]);
    }
}

/// Whether two nodes stand in this tray, and no two in a lower one.
pub open spec fn is_lowest_crowded(details: Seq<NodeDeviceInfo>, tray_index: u32) -> bool {
    &&& is_crowded(details, tray_index)
    &&& forall|other: u32| #[trigger] is_crowded(details, other) ==> tray_index <= other
}

/// Whether two nodes stand in this tray.
pub open spec fn is_crowded(details: Seq<NodeDeviceInfo>, tray_index: u32) -> bool {
    exists|n: int, m: int|
        #![trigger details[n], details[m]]
        0 <= n < m < details.len() && stands_in(details[n], tray_index) && stands_in(
            details[m],
            tray_index,
        )
}

/// A successful response that places switches of the rack is refused where it has none, where it
/// has fewer or more than the rack, naming the switches without a node, and where two stand in one
/// tray, naming the lowest such tray and the nodes in it.
pub proof fn selection_is_refused_for_what_is_missing_or_shared(
    switches: Seq<FirmwareUpgradeDeviceInfo>,
    response: BatchGetNodeDeviceInfoResponse,
    r: Result<SwitchPlacement, String>,
    tray_index: u32,
)
    requires
        primary_selection(switches, response, r),
        response.status.code == Some(ReturnCode::Success),
        forall|n: int|
            0 <= n < response.node_device_details@.len() ==> rack_has(
                switches,
                (#[trigger] response.node_device_details@[n]).node_id@,
            ) && response.node_device_details@[n].tray_index is Some,
    ensures
        ({
            let details = response.node_device_details@;
            &&& details.len() == 0 ==> r is Err && r->Err_0@
                == "RMS returned no switch device info for ConfigureNmxCluster"@
            &&& details.len() > 0 && details.len() != switches.len() ==> r is Err && r->Err_0@
                == "RMS did not return device info for switches: "@ + joined(
                switches.filter(
                    |switch: FirmwareUpgradeDeviceInfo| lacks_node(details, switch),
                ).map_values(|switch: FirmwareUpgradeDeviceInfo| switch.node_id@),
                ", "@,
            )
            &&& details.len() == switches.len() && is_lowest_crowded(details, tray_index) ==> r
                is Err && r->Err_0@ == "RMS returned duplicate tray_index "@ + decimal_text(
                tray_index as nat,
            ) + " for switches: "@ + joined(node_ids_in(details, tray_index), ", "@)
        }),
{
    let details = response.node_device_details@;
    placements_follow_nodes(switches, details);
    unplaced_keep_their_order(switches, details);
    if placements_of(switches, details) is Err {
        let n = choose|n: int| #[trigger]
            is_first_misplaced(switches, details, n)
                && placements_of(switches, details)->Err_0 == misplacement(
                switches,
                details[n],
            );
        assert(rack_has(switches, details[n].node_id@));
    }
    let placements = placements_of(switches, details)->Ok_0;
    assert forall|t: u32| #[trigger] is_shared_tray(placements, t) <==> is_crowded(details, t) by {
        crowded_trays_are_shared(placements, details, t);
    }
    if details.len() == switches.len() && is_lowest_crowded(details, tray_index) {
        assert(is_shared_tray(placements, tray_index) <==> is_crowded(details, tray_index));
        assert(is_lowest_shared_tray(placements, tray_index));
        let t = choose|t: u32| #[trigger] is_lowest_shared_tray(placements, t);
        assert(t == tray_index) by {
            assert(is_shared_tray(placements, t));
            assert(is_shared_tray(placements, tray_index));
        }
        tray_ids_are_those_of_the_nodes(placements, details, tray_index);
    }
}

proof fn crowded_trays_are_shared(
    placements: Seq<SwitchPlacement>,
    details: Seq<NodeDeviceInfo>,
    t: u32,
)
    requires
        placements.len() == details.len(),
        forall|n: int|
            0 <= n < details.len() ==> details[n].tray_index == Some(
                (#[trigger] placements[n]).tray_index,
            ),
    ensures
        is_shared_tray(placements, t) <==> is_crowded(details, t),
{
    if is_shared_tray(placements, t) {
        let (a, b) = choose|a: int, b: int|
            #![trigger placements[a], placements[b]]
            0 <= a < b < placements.len() && placements[a].tray_index == t
                && placements[b].tray_index == t;
        assert(stands_in(details[a], t) && stands_in(details[b], t));
    }
    if is_crowded(details, t) {
        let (a, b) = choose|a: int, b: int|
            #![trigger details[a], details[b]]
            0 <= a < b < details.len() && stands_in(details[a], t) && stands_in(details[b], t);
        assert(placements[a].tray_index == t && placements[b].tray_index == t);
    }
}

/// Where a switch of the rack is first named.
pub open spec fn is_first_named(
    switches: Seq<FirmwareUpgradeDeviceInfo>,
    node_id: Seq<char>,
    j: int,
) -> bool {
    &&& 0 <= j < switches.len()
    &&& switches[j].node_id@ == node_id
    &&& forall|k: int| 0 <= k < j ==> (#[trigger] switches[k]).node_id@ != node_id
}

/// The switches that were not observed are named once each, in the order in which the rack first
/// names them.
pub proof fn omitted_keep_their_order(
    switches: Seq<FirmwareUpgradeDeviceInfo>,
    observed: Seq<ScaleUpFabricSwitchStatus>,
    a: int,
    b: int,
    i: int,
    j: int,
)
    requires
        0 <= a < b < omitted_ids(switches, observed).len(),
        is_first_named(switches, omitted_ids(switches, observed)[a], i),
        is_first_named(switches, omitted_ids(switches, observed)[b], j),
    ensures
        omitted_ids(switches, observed)[a] != omitted_ids(switches, observed)[b],
        i < j,
    decreases switches.len(),
{
    let before = switches.drop_last();
    let last = switches.last().node_id@;
    let ids = omitted_ids(before, observed);
    let whole = omitted_ids(switches, observed);
    omitted_are_expected(before, observed, a);
    if b < ids.len() {
        omitted_are_expected(before, observed, b);
        first_names_are_early(switches, whole[a], i);
        first_names_are_early(switches, whole[b], j);
        omitted_keep_their_order(before, observed, a, b, i, j);
    } else {
        assert(whole[b] == last);
        first_names_are_early(switches, whole[a], i);
        if whole[a] == last {
            assert(is_expected(before, last));
        }
        assert(j == switches.len() - 1) by {
            if j < before.len() {
                assert(before[j].node_id@ == last);
                assert(is_expected(before, last));
            }
        }
    }
}

proof fn omitted_are_expected(
    switches: Seq<FirmwareUpgradeDeviceInfo>,
    observed: Seq<ScaleUpFabricSwitchStatus>,
    a: int,
)
    ensures
        0 <= a < omitted_ids(switches, observed).len() ==> is_expected(
            switches,
            omitted_ids(switches, observed)[a],
        ),
    decreases switches.len(),
{
    if switches.len() > 0 && 0 <= a < omitted_ids(switches, observed).len() {
        let before = switches.drop_last();
        let id = omitted_ids(switches, observed)[a];
        omitted_are_expected(before, observed, a);
        if a < omitted_ids(before, observed).len() {
            let k = choose|k: int| 0 <= k < before.len() && (#[trigger] before[k]).node_id@ == id;
            assert(switches[k].node_id@ == id);
        } else {
            assert(switches[switches.len() - 1].node_id@ == id);
        }
    }
}

proof fn first_names_are_early(
    switches: Seq<FirmwareUpgradeDeviceInfo>,
    node_id: Seq<char>,
    i: int,
)
    requires
        switches.len() > 0,
        is_first_named(switches, node_id, i),
        is_expected(switches.drop_last(), node_id),
    ensures
        is_first_named(switches.drop_last(), node_id, i),
{
    let before = switches.drop_last();
    let k = choose|k: int| 0 <= k < before.len() && (#[trigger] before[k]).node_id@ == node_id;
    assert(switches[k].node_id@ == node_id);
    assert(i <= k);
}

} // verus!
