//! What the decisions about a scale-up fabric are for, said of the rack manager's responses
//! themselves.
use vstd::prelude::*;

use crate::fabric_manager::{
    device_of, enabled_is_first, enabled_with_id, entry_of, entry_status, failure_stays,
    first_enabled, first_failure, first_inventory_failure, inventory_failure, is_expected,
    is_observed, is_shared_tray, last_failure, no_failure_means_sound, none_enabled,
    nothing_enabled, nothing_omitted_means_all_observed, omitted_ids, only_enabled, placements_of,
    primary_is_observed_in_complete_responses_only, primary_observation, primary_selection,
    selected_switch_is_alone_in_the_lowest_tray, sound_at, status_write, switch_node, unplaced_ids,
    BatchGetNodeDeviceInfoResponse, BatchGetScaleUpFabricServiceStatusResponse, FabricManagerState,
    FabricManagerStatus, FirmwareUpgradeDeviceInfo, GetScaleUpFabricStatusResponse, NodeDeviceInfo,
    ObservationFailure, ReturnCode, ScaleUpFabricServiceStatusEntry, ScaleUpFabricSwitchStatus,
    SwitchId, SwitchPlacement,
};
use crate::rms_node_type::{NodeInfo, RmsNodeIdentity};
use crate::text::{blank, joined, signed_decimal_text};

verus! {

/// A device is found by its node id: it is one of the switches and has this id, and no later
/// switch has it; where none is found no switch has it.
pub proof fn device_has_the_node_id(switches: Seq<FirmwareUpgradeDeviceInfo>, node_id: Seq<char>)
    ensures
        match device_of(switches, node_id) {
            Some(device) => exists|j: int|
                {
                    &&& 0 <= j < switches.len()
                    &&& #[trigger] switches[j] == device
                    &&& switches[j].node_id@ == node_id
                    &&& forall|k: int|
                        j < k < switches.len() ==> (#[trigger] switches[k]).node_id@ != node_id
                },
            None => forall|k: int|
                0 <= k < switches.len() ==> (#[trigger] switches[k]).node_id@ != node_id,
        },
    decreases switches.len(),
{
    if switches.len() > 0 {
        let last = switches.len() - 1;
        if switches[last].node_id@ == node_id {
            assert(switches[last] == switches.last());
        } else {
            let before = switches.drop_last();
            device_has_the_node_id(before, node_id);
            match device_of(before, node_id) {
                Some(device) => {
                    let j = choose|j: int|
                        {
                            &&& 0 <= j < before.len()
                            &&& #[trigger] before[j] == device
                            &&& before[j].node_id@ == node_id
                            &&& forall|k: int|
                                j < k < before.len() ==> (#[trigger] before[k]).node_id@
                                    != node_id
                        };
                    assert(switches[j] == before[j]);
                    assert forall|k: int| j < k < switches.len() implies (
                    #[trigger] switches[k]).node_id@ != node_id by {
                        if k < last {
                            assert(before[k] == switches[k]);
                        }
                    }
                },
                None => {
                    assert forall|k: int| 0 <= k < switches.len() implies (
                    #[trigger] switches[k]).node_id@ != node_id by {
                        if k < last {
                            assert(before[k] == switches[k]);
                        }
                    }
                },
            }
        }
    }
}

/// Whether a switch of the rack has this node id.
pub open spec fn rack_has(switches: Seq<FirmwareUpgradeDeviceInfo>, node_id: Seq<char>) -> bool {
    exists|j: int| 0 <= j < switches.len() && (#[trigger] switches[j]).node_id@ == node_id
}

/// Every placement is of the node at the same position of the response: it has the node's id,
/// tray and slot, and its device is a switch of the rack.
pub proof fn placements_follow_nodes(
    switches: Seq<FirmwareUpgradeDeviceInfo>,
    details: Seq<NodeDeviceInfo>,
)
    ensures
        match placements_of(switches, details) {
            Ok(placements) => {
                &&& placements.len() == details.len()
                &&& forall|n: int|
                    0 <= n < details.len() ==> {
                        &&& (#[trigger] placements[n]).device.node_id@ == details[n].node_id@
                        &&& details[n].tray_index == Some(placements[n].tray_index)
                        &&& details[n].slot_number == placements[n].slot_number
                        &&& device_of(switches, details[n].node_id@) == Some(placements[n].device)
                    }
                &&& forall|n: int|
                    0 <= n < details.len() ==> rack_has(switches, (#[trigger] details[n]).node_id@)
                        && details[n].tray_index is Some
            },
            Err(failure) => exists|n: int| #[trigger]
                is_first_misplaced(switches, details, n) && failure == misplacement(
                    switches,
                    details[n],
                ),
        },
    decreases details.len(),
{
    if details.len() > 0 {
        let before = details.drop_last();
        let last = details.len() - 1;
        placements_follow_nodes(switches, before);
        device_has_the_node_id(switches, details[last].node_id@);
        if placements_of(switches, before) is Ok {
            assert forall|n: int| 0 <= n < last implies rack_has(
                switches,
                (#[trigger] details[n]).node_id@,
            ) && details[n].tray_index is Some by {
                assert(before[n] == details[n]);
            }
            match placements_of(switches, details) {
                Ok(placements) => {
                    assert forall|n: int| 0 <= n < details.len() implies {
                        &&& (#[trigger] placements[n]).device.node_id@ == details[n].node_id@
                        &&& details[n].tray_index == Some(placements[n].tray_index)
                        &&& details[n].slot_number == placements[n].slot_number
                        &&& device_of(switches, details[n].node_id@) == Some(placements[n].device)
                    } by {
                        if n < last {
                            assert(before[n] == details[n]);
                            assert(placements_of(switches, before)->Ok_0[n] == placements[n]);
                        }
                    }
                },
                Err(_) => {
                    assert(is_first_misplaced(switches, details, last));
                },
            }
        } else {
            let n = choose|n: int| #[trigger]
                is_first_misplaced(switches, before, n) && placements_of(switches, before)->Err_0
                    == misplacement(switches, before[n]);
            assert(before[n] == details[n]);
            assert forall|k: int| 0 <= k < n implies rack_has(
                switches,
                (#[trigger] details[k]).node_id@,
            ) && details[k].tray_index is Some by {
                assert(before[k] == details[k]);
            }
            assert(is_first_misplaced(switches, details, n));
        }
    }
}

/// Whether this is the first node of the response that is no switch of the rack or has no tray.
pub open spec fn is_first_misplaced(
    switches: Seq<FirmwareUpgradeDeviceInfo>,
    details: Seq<NodeDeviceInfo>,
    n: int,
) -> bool {
    &&& 0 <= n < details.len()
    &&& !rack_has(switches, details[n].node_id@) || details[n].tray_index is None
    &&& forall|k: int|
        0 <= k < n ==> rack_has(switches, (#[trigger] details[k]).node_id@)
            && details[k].tray_index is Some
}

/// What is said of a node that is no switch of the rack, or else has no tray.
pub open spec fn misplacement(
    switches: Seq<FirmwareUpgradeDeviceInfo>,
    node: NodeDeviceInfo,
) -> Seq<char> {
    if !rack_has(switches, node.node_id@) {
        "RMS returned device info for unexpected switch "@ + node.node_id@
    } else {
        "RMS did not return tray_index for switch "@ + node.node_id@
    }
}

/// Whether the node at this position is where the placement says, in a lower tray than every
/// other node.
pub open spec fn is_lowest_node(
    details: Seq<NodeDeviceInfo>,
    placement: SwitchPlacement,
    n: int,
) -> bool {
    &&& 0 <= n < details.len()
    &&& details[n].node_id@ == placement.device.node_id@
    &&& details[n].tray_index == Some(placement.tray_index)
    &&& details[n].slot_number == placement.slot_number
    &&& forall|m: int|
        0 <= m < details.len() && m != n ==> (#[trigger] details[m]).tray_index is Some
            && details[m].tray_index->0 > placement.tray_index
}

/// The selected primary switch is the one that the response itself puts into the lowest tray: a
/// node with its id has its tray and slot, and every other node stands in a higher tray. It is
/// one of the rack's switches, of which the response places as many as there are.
pub proof fn selected_switch_has_the_lowest_tray(
    switches: Seq<FirmwareUpgradeDeviceInfo>,
    response: BatchGetNodeDeviceInfoResponse,
    primary: SwitchPlacement,
)
    requires
        primary_selection(switches, response, Ok(primary)),
    ensures
        response.status.code == Some(ReturnCode::Success),
        response.node_device_details@.len() == switches.len(),
        exists|n: int| #[trigger] is_lowest_node(response.node_device_details@, primary, n),
        exists|j: int| 0 <= j < switches.len() && #[trigger] switches[j] == primary.device,
        forall|n: int|
            0 <= n < response.node_device_details@.len() ==> rack_has(
                switches,
                (#[trigger] response.node_device_details@[n]).node_id@,
            ),
{
    let details = response.node_device_details@;
    selected_switch_is_alone_in_the_lowest_tray(switches, response, primary);
    placements_follow_nodes(switches, details);
    let placements = placements_of(switches, details)->Ok_0;
    let n = choose|n: int|
        {
            &&& 0 <= n < placements.len()
            &&& #[trigger] placements[n] == primary
            &&& forall|j: int|
                0 <= j < placements.len() && j != n ==> primary.tray_index < (
                #[trigger] placements[j]).tray_index
        };
    assert(placements[n] == primary);
    device_has_the_node_id(switches, details[n].node_id@);
    assert(details[n].node_id@ == primary.device.node_id@);
    assert forall|m: int| 0 <= m < details.len() && m != n implies (
    #[trigger] details[m]).tray_index is Some && details[m].tray_index->0
        > primary.tray_index by {
        assert(placements[m].tray_index > primary.tray_index);
    }
    assert(is_lowest_node(details, primary, n));
}

/// A primary switch is owed: a successful response that places every switch of the rack, and
/// nothing else, in trays of their own has one selected.
pub proof fn selection_is_owed(
    switches: Seq<FirmwareUpgradeDeviceInfo>,
    response: BatchGetNodeDeviceInfoResponse,
    r: Result<SwitchPlacement, String>,
)
    requires
        primary_selection(switches, response, r),
        response.status.code == Some(ReturnCode::Success),
        response.node_device_details@.len() == switches.len(),
        switches.len() > 0,
        forall|n: int|
            0 <= n < response.node_device_details@.len() ==> rack_has(
                switches,
                (#[trigger] response.node_device_details@[n]).node_id@,
            ) && response.node_device_details@[n].tray_index is Some,
        forall|n: int, m: int|
            #![trigger response.node_device_details@[n], response.node_device_details@[m]]
            0 <= n < m < response.node_device_details@.len()
                ==> response.node_device_details@[n].tray_index
                != response.node_device_details@[m].tray_index,
    ensures
        r is Ok,
{
    let details = response.node_device_details@;
    placements_follow_nodes(switches, details);
    if placements_of(switches, details) is Err {
        let n = choose|n: int| #[trigger]
            is_first_misplaced(switches, details, n) && placements_of(switches, details)->Err_0
                == misplacement(switches, details[n]);
        assert(rack_has(switches, details[n].node_id@));
    }
    let placements = placements_of(switches, details)->Ok_0;
    assert forall|t: u32| !#[trigger] is_shared_tray(placements, t) by {
        if is_shared_tray(placements, t) {
            let (a, b) = choose|a: int, b: int|
                #![trigger placements[a], placements[b]]
                0 <= a < b < placements.len() && placements[a].tray_index == t
                    && placements[b].tray_index == t;
            assert(details[a].tray_index == Some(placements[a].tray_index));
            assert(details[b].tray_index == Some(placements[b].tray_index));
            assert(details[a].tray_index != details[b].tray_index);
        }
    }
}

/// A failed response is reported as such, and a successful one with a node that is no switch of
/// the rack or has no tray is refused for the first such node.
pub proof fn selection_names_the_first_misplaced_node(
    switches: Seq<FirmwareUpgradeDeviceInfo>,
    response: BatchGetNodeDeviceInfoResponse,
    r: Result<SwitchPlacement, String>,
    n: int,
)
    requires
        primary_selection(switches, response, r),
    ensures
        response.status.code != Some(ReturnCode::Success) ==> r is Err && r->Err_0@
            == "RMS BatchGetNodeDeviceInfo failed: "@ + (if blank(response.message@) {
            "no error details provided"@
        } else {
            response.message@
        }),
        response.status.code == Some(ReturnCode::Success) && is_first_misplaced(
            switches,
            response.node_device_details@,
            n,
        ) ==> r is Err && r->Err_0@ == misplacement(switches, response.node_device_details@[n]),
{
    let details = response.node_device_details@;
    placements_follow_nodes(switches, details);
    if response.status.succeeded() && is_first_misplaced(switches, details, n) {
        if placements_of(switches, details) is Err {
            let m = choose|m: int| #[trigger]
                is_first_misplaced(switches, details, m) && placements_of(
                    switches,
                    details,
                )->Err_0 == misplacement(switches, details[m]);
            assert(m == n) by {
                if m < n {
                    assert(rack_has(switches, details[m].node_id@));
                } else if n < m {
                    assert(rack_has(switches, details[n].node_id@));
                }
            }
        } else {
            assert(rack_has(switches, details[n].node_id@));
        }
    }
}

/// A switch is named as unplaced exactly if no node of the response has its id.
pub proof fn unplaced_are_those_without_a_node(
    switches: Seq<FirmwareUpgradeDeviceInfo>,
    details: Seq<NodeDeviceInfo>,
    node_id: Seq<char>,
)
    ensures
        unplaced_ids(switches, details).contains(node_id) <==> rack_has(switches, node_id) && (
        forall|n: int| 0 <= n < details.len() ==> (#[trigger] details[n]).node_id@ != node_id),
    decreases switches.len(),
{
    if switches.len() > 0 {
        let before = switches.drop_last();
        let ids = unplaced_ids(before, details);
        let last = switches.last().node_id@;
        unplaced_are_those_without_a_node(before, details, node_id);
        assert(rack_has(switches, node_id) <==> rack_has(before, node_id) || last == node_id) by {
            if rack_has(switches, node_id) {
                let j = choose|j: int|
                    0 <= j < switches.len() && (#[trigger] switches[j]).node_id@ == node_id;
                if j < before.len() {
                    assert(before[j] == switches[j]);
                }
            }
            if rack_has(before, node_id) {
                let j = choose|j: int|
                    0 <= j < before.len() && (#[trigger] before[j]).node_id@ == node_id;
                assert(before[j] == switches[j]);
            }
            assert(switches[switches.len() - 1] == switches.last());
        }
        pushing_adds(ids, last, node_id);
    }
}

proof fn pushing_adds(ids: Seq<Seq<char>>, added: Seq<char>, id: Seq<char>)
    ensures
        ids.push(added).contains(id) <==> ids.contains(id) || added == id,
{
    let more = ids.push(added);
    if ids.contains(id) {
        let i = choose|i: int| 0 <= i < ids.len() && ids[i] == id;
        assert(more[i] == id);
    }
    assert(more[ids.len() as int] == added);
    if more.contains(id) {
        let i = choose|i: int| 0 <= i < more.len() && more[i] == id;
        if i < ids.len() {
            assert(ids[i] == id);
        }
    }
}

/// Whether a status is what an entry reports. The fabric manager counts as running only where the
/// rack manager has no error and reports "ok"; an error of the rack manager is kept and hides all
/// else; what the fabric manager says of itself is kept as it is.
pub open spec fn reports(
    entry: ScaleUpFabricServiceStatusEntry,
    status: FabricManagerStatus,
) -> bool {
    let readable = blank(entry.error_message@) && !blank(entry.status_json@) && entry.payload
        is Some;
    &&& status.fabric_manager_state == FabricManagerState::StatusOk <==> readable
        && entry.payload->0.status is Some && entry.payload->0.status->0@ == "ok"@
    &&& status.fabric_manager_state == FabricManagerState::NotOk <==> readable
        && entry.payload->0.status is Some && entry.payload->0.status->0@ == "not ok"@
    &&& status.error_message == (if blank(entry.error_message@) {
        None
    } else {
        Some(entry.error_message)
    })
    &&& readable ==> status.addition_info == entry.payload->0.addition_info && status.reason
        == entry.payload->0.reason
    &&& !readable ==> status.addition_info is None && status.reason is None
}

/// The status of an entry is what the entry reports.
pub proof fn status_is_what_the_entry_reports(entry: ScaleUpFabricServiceStatusEntry)
    ensures
        reports(entry, entry_status(entry)),
{
    reveal_strlit("ok");
    reveal_strlit("not ok");
    assert("ok"@ != "not ok"@) by {
        assert("ok"@.len() != "not ok"@.len());
    }
}

/// What is written of a switch is the status of its own entry: the first of the response that
/// has the switch's node id. It is written under the switch's own id.
pub proof fn switches_get_their_own_status(
    switch: FirmwareUpgradeDeviceInfo,
    response: BatchGetScaleUpFabricServiceStatusResponse,
    id: SwitchId,
    status: FabricManagerStatus,
)
    ensures
        status_write(switch, response) == Ok::<(SwitchId, FabricManagerStatus), Seq<char>>(
            (id, status),
        ) ==> {
            &&& switch.switch_id == Ok::<SwitchId, String>(id)
            &&& exists|i: int|
                {
                    &&& #[trigger] is_own_entry(switch, response, i)
                    &&& reports(response.service_statuses@[i].1, status)
                }
        },
{
    own_entry_is_found(response.service_statuses@, switch.node_id@);
    if let Some(entry) = entry_of(response.service_statuses@, switch.node_id@) {
        let i = choose|i: int|
            {
                &&& 0 <= i < response.service_statuses@.len()
                &&& (#[trigger] response.service_statuses@[i]).0@ == switch.node_id@
                &&& response.service_statuses@[i].1 == entry
                &&& forall|k: int|
                    0 <= k < i ==> (#[trigger] response.service_statuses@[k]).0@
                        != switch.node_id@
            };
        assert(is_own_entry(switch, response, i));
        status_is_what_the_entry_reports(entry);
    }
}

/// Whether the entry at this position is the switch's own: the first with its node id.
pub open spec fn is_own_entry(
    switch: FirmwareUpgradeDeviceInfo,
    response: BatchGetScaleUpFabricServiceStatusResponse,
    i: int,
) -> bool {
    &&& 0 <= i < response.service_statuses@.len()
    &&& response.service_statuses@[i].0@ == switch.node_id@
    &&& forall|k: int|
        0 <= k < i ==> (#[trigger] response.service_statuses@[k]).0@ != switch.node_id@
}

proof fn own_entry_is_found(
    entries: Seq<(String, ScaleUpFabricServiceStatusEntry)>,
    node_id: Seq<char>,
)
    ensures
        match entry_of(entries, node_id) {
            Some(entry) => exists|i: int|
                {
                    &&& 0 <= i < entries.len()
                    &&& (#[trigger] entries[i]).0@ == node_id
                    &&& entries[i].1 == entry
                    &&& forall|k: int| 0 <= k < i ==> (#[trigger] entries[k]).0@ != node_id
                },
            None => forall|k: int| 0 <= k < entries.len() ==> (#[trigger] entries[k]).0@ != node_id,
        },
    decreases entries.len(),
{
    if entries.len() > 0 {
        if entries[0].0@ == node_id {
            assert(entries[0].1 == entry_of(entries, node_id)->0);
        } else {
            let rest = entries.drop_first();
            own_entry_is_found(rest, node_id);
            match entry_of(rest, node_id) {
                Some(entry) => {
                    let i = choose|i: int|
                        {
                            &&& 0 <= i < rest.len()
                            &&& (#[trigger] rest[i]).0@ == node_id
                            &&& rest[i].1 == entry
                            &&& forall|k: int| 0 <= k < i ==> (#[trigger] rest[k]).0@ != node_id
                        };
                    assert(entries[i + 1] == rest[i]);
                    assert forall|k: int| 0 <= k < i + 1 implies (#[trigger] entries[k]).0@
                        != node_id by {
                        if k > 0 {
                            assert(rest[k - 1] == entries[k]);
                        }
                    }
                },
                None => {
                    assert forall|k: int| 0 <= k < entries.len() implies (
                    #[trigger] entries[k]).0@ != node_id by {
                        if k > 0 {
                            assert(rest[k - 1] == entries[k]);
                        }
                    }
                },
            }
        }
    }
}

/// A status is owed: a switch with a valid id and an entry in the response has one written. A
/// switch without entry is refused by name, and so is one whose id is not valid.
pub proof fn status_is_owed(
    switch: FirmwareUpgradeDeviceInfo,
    response: BatchGetScaleUpFabricServiceStatusResponse,
)
    ensures
        status_write(switch, response) is Ok <==> switch.switch_id is Ok && exists|i: int|
            #[trigger] is_own_entry(switch, response, i),
        (forall|k: int|
            0 <= k < response.service_statuses@.len() ==> (
            #[trigger] response.service_statuses@[k]).0@ != switch.node_id@) ==> status_write(
            switch,
            response,
        ) == Err::<(SwitchId, FabricManagerStatus), Seq<char>>(
            "RMS did not return fabric-manager status for switch "@ + switch.node_id@,
        ),
        (exists|i: int| #[trigger] is_own_entry(switch, response, i)) && switch.switch_id is Err
            ==> status_write(switch, response) == Err::<(SwitchId, FabricManagerStatus), Seq<char>>(
            "invalid switch id "@ + switch.node_id@ + " while persisting fabric-manager status: "@
                + switch.switch_id->Err_0@,
        ),
{
    let entries = response.service_statuses@;
    own_entry_is_found(entries, switch.node_id@);
    if let Some(entry) = entry_of(entries, switch.node_id@) {
        let i = choose|i: int|
            {
                &&& 0 <= i < entries.len()
                &&& (#[trigger] entries[i]).0@ == switch.node_id@
                &&& entries[i].1 == entry
                &&& forall|k: int| 0 <= k < i ==> (#[trigger] entries[k]).0@ != switch.node_id@
            };
        assert(is_own_entry(switch, response, i));
    } else {
        assert forall|i: int| !#[trigger] is_own_entry(switch, response, i) by {
            if 0 <= i < entries.len() {
                assert(entries[i].0@ != switch.node_id@);
            }
        }
    }
}

/// A switch can have its cluster configured exactly if it has an address, a user and a password,
/// none of them empty; what is said otherwise names the switch and what it lacks, first the
/// address.
pub proof fn inventory_needs_address_and_credentials(switch: FirmwareUpgradeDeviceInfo)
    ensures
        ({
            let has_ip = switch.os_ip is Some && switch.os_ip->0@.len() > 0;
            let has_credentials = switch.os_username is Some && switch.os_username->0@.len() > 0
                && switch.os_password is Some && switch.os_password->0@.len() > 0;
            &&& inventory_failure(switch) is None <==> has_ip && has_credentials
            &&& !has_ip ==> inventory_failure(switch) == Some(
                "switch "@ + switch.node_id@
                    + " is missing an NVOS IP address for ConfigureNmxCluster"@,
            )
            &&& has_ip && !has_credentials ==> inventory_failure(switch) == Some(
                "switch "@ + switch.node_id@
                    + " is missing NVOS credentials for ConfigureNmxCluster"@,
            )
        }),
{
}

/// An inventory is refused for the first switch that lacks something.
pub proof fn inventory_fails_at_the_first_lacking_switch(
    switches: Seq<FirmwareUpgradeDeviceInfo>,
    n: int,
)
    requires
        0 <= n <= switches.len(),
        forall|k: int| 0 <= k < n ==> inventory_failure(#[trigger] switches[k]) is None,
        n < switches.len() ==> inventory_failure(switches[n]) is Some,
    ensures
        n == switches.len() ==> first_inventory_failure(switches) is None,
        n < switches.len() ==> first_inventory_failure(switches) == inventory_failure(switches[n]),
    decreases switches.len(),
{
    if switches.len() > 0 && n > 0 {
        let rest = switches.drop_first();
        assert(inventory_failure(switches[0]) is None);
        assert forall|k: int| 0 <= k < n - 1 implies inventory_failure(
            #[trigger] rest[k],
        ) is None by {
            assert(rest[k] == switches[k + 1]);
        }
        if n < switches.len() {
            assert(rest[n - 1] == switches[n]);
        }
        inventory_fails_at_the_first_lacking_switch(rest, n - 1);
    }
}

/// A node of a request goes by its switch's id and carries the identity of switches; it keeps its
/// rack and how it is reached.
pub proof fn nodes_go_by_their_switch(
    switch: FirmwareUpgradeDeviceInfo,
    node: NodeInfo,
    identity: RmsNodeIdentity,
    r: NodeInfo,
)
    requires
        switch_node(switch, node, identity, r),
    ensures
        r.node_id@ == switch.node_id@,
        r.rack_id@ == node.rack_id@,
        r.bmc_endpoint == node.bmc_endpoint,
        r.node_type == identity.legacy_node_type,
        r.node_descriptor is Some,
        r.node_descriptor->0.entries() == identity.node_descriptor.entries(),
{
}

/// Whether the primary switch can be read off a fabric status: every observed switch is one of
/// the rack's, is observed once and could be inspected, and every switch of the rack is observed.
pub open spec fn shows_the_whole_rack(
    switches: Seq<FirmwareUpgradeDeviceInfo>,
    observed: Seq<ScaleUpFabricSwitchStatus>,
) -> bool {
    &&& forall|k: int|
        0 <= k < observed.len() ==> rack_has(switches, (#[trigger] observed[k]).node_id@)
    &&& forall|k: int| 0 <= k < observed.len() ==> blank((#[trigger] observed[k]).error_message@)
    &&& forall|k: int, m: int|
        #![trigger observed[k], observed[m]]
        0 <= k < m < observed.len() ==> observed[k].node_id@ != observed[m].node_id@
    &&& forall|j: int|
        0 <= j < switches.len() ==> exists|k: int|
            0 <= k < observed.len() && (#[trigger] observed[k]).node_id@ == (
            #[trigger] switches[j]).node_id@
}

/// Whether this is the id of the only enabled switch of a fabric status.
pub open spec fn is_the_enabled_one(
    switches: Seq<FirmwareUpgradeDeviceInfo>,
    observed: Seq<ScaleUpFabricSwitchStatus>,
    id: SwitchId,
    k: int,
    j: int,
) -> bool {
    &&& 0 <= k < observed.len() && observed[k].enabled
    &&& forall|m: int| 0 <= m < observed.len() && m != k ==> !(#[trigger] observed[m]).enabled
    &&& 0 <= j < switches.len() && switches[j].node_id@ == observed[k].node_id@
    &&& switches[j].switch_id == Ok::<SwitchId, String>(id)
    &&& forall|m: int|
        j < m < switches.len() ==> (#[trigger] switches[m]).node_id@ != observed[k].node_id@
}

/// A primary switch is observed exactly in a successful response whose fabric status shows the
/// whole rack and has one enabled switch; it is that switch.
pub proof fn observed_switch_is_the_enabled_one(
    switches: Seq<FirmwareUpgradeDeviceInfo>,
    response: GetScaleUpFabricStatusResponse,
    id: SwitchId,
)
    ensures
        primary_observation(switches, response) == Ok::<SwitchId, ObservationFailure>(id) <==> {
            &&& response.status.code == Some(ReturnCode::Success)
            &&& response.fabric_status is Some
            &&& shows_the_whole_rack(switches, response.fabric_status->0@)
            &&& exists|k: int, j: int| #[trigger]
                is_the_enabled_one(switches, response.fabric_status->0@, id, k, j)
        },
{
    primary_is_observed_in_complete_responses_only(switches, response, id);
    if response.status.succeeded() && response.fabric_status is Some {
        let observed = response.fabric_status->0@;
        if exists|i: int| #[trigger] enabled_with_id(switches, observed, i, id) {
            let i = choose|i: int| #[trigger] enabled_with_id(switches, observed, i, id);
            device_has_the_node_id(switches, observed[i].node_id@);
            let device = device_of(switches, observed[i].node_id@)->0;
            let j = choose|j: int|
                {
                    &&& 0 <= j < switches.len()
                    &&& #[trigger] switches[j] == device
                    &&& switches[j].node_id@ == observed[i].node_id@
                    &&& forall|k: int|
                        j < k < switches.len() ==> (#[trigger] switches[k]).node_id@
                            != observed[i].node_id@
                };
            assert(is_the_enabled_one(switches, observed, id, i, j));
        }
        if exists|k: int, j: int| #[trigger] is_the_enabled_one(switches, observed, id, k, j) {
            let (k, j) = choose|k: int, j: int| #[trigger]
                is_the_enabled_one(switches, observed, id, k, j);
            device_has_the_node_id(switches, observed[k].node_id@);
            assert(only_enabled(observed, k));
            assert(switches[j].node_id@ == observed[k].node_id@);
            let device = device_of(switches, observed[k].node_id@)->0;
            let l = choose|l: int|
                {
                    &&& 0 <= l < switches.len()
                    &&& #[trigger] switches[l] == device
                    &&& switches[l].node_id@ == observed[k].node_id@
                    &&& forall|m: int|
                        l < m < switches.len() ==> (#[trigger] switches[m]).node_id@
                            != observed[k].node_id@
                };
            assert(l == j);
            assert(enabled_with_id(switches, observed, k, id));
        }
        whole_rack_means_complete(switches, observed);
    }
}

proof fn whole_rack_means_complete(
    switches: Seq<FirmwareUpgradeDeviceInfo>,
    observed: Seq<ScaleUpFabricSwitchStatus>,
)
    ensures
        crate::fabric_manager::is_complete(switches, observed) <==> shows_the_whole_rack(
            switches,
            observed,
        ),
{
    assert forall|k: int| 0 <= k < observed.len() implies (is_expected(
        switches,
        (#[trigger] observed[k]).node_id@,
    ) <==> rack_has(switches, observed[k].node_id@)) by {}
    if crate::fabric_manager::is_complete(switches, observed) {
        assert forall|j: int| 0 <= j < switches.len() implies exists|k: int|
            0 <= k < observed.len() && (#[trigger] observed[k]).node_id@ == (
            #[trigger] switches[j]).node_id@ by {
            assert(is_observed(observed, switches[j].node_id@));
        }
    }
    if shows_the_whole_rack(switches, observed) {
        assert forall|j: int| 0 <= j < switches.len() implies is_observed(
            observed,
            (#[trigger] switches[j]).node_id@,
        ) by {
            let k = choose|k: int|
                0 <= k < observed.len() && (#[trigger] observed[k]).node_id@
                    == switches[j].node_id@;
            assert(observed[k].node_id@ == switches[j].node_id@);
        }
    }
}

/// Whether a switch before this position has this id.
pub open spec fn seen_before(
    observed: Seq<ScaleUpFabricSwitchStatus>,
    n: int,
    node_id: Seq<char>,
) -> bool {
    exists|m: int| 0 <= m < n && (#[trigger] observed[m]).node_id@ == node_id
}

/// Whether something is wrong with the observed switch at this position: it is no switch of the
/// rack, was observed before, could not be inspected, or is enabled as one before it is.
pub open spec fn is_wrong(
    switches: Seq<FirmwareUpgradeDeviceInfo>,
    observed: Seq<ScaleUpFabricSwitchStatus>,
    n: int,
) -> bool {
    ||| !rack_has(switches, observed[n].node_id@)
    ||| seen_before(observed, n, observed[n].node_id@)
    ||| !blank(observed[n].error_message@)
    ||| observed[n].enabled && exists|m: int| 0 <= m < n && (#[trigger] observed[m]).enabled
}

/// Whether the observed switch at this position is the first with which something is wrong.
pub open spec fn is_first_wrong(
    switches: Seq<FirmwareUpgradeDeviceInfo>,
    observed: Seq<ScaleUpFabricSwitchStatus>,
    n: int,
) -> bool {
    &&& 0 <= n < observed.len()
    &&& is_wrong(switches, observed, n)
    &&& forall|k: int| 0 <= k < n ==> !#[trigger] is_wrong(switches, observed, k)
}

/// What is said of the first observed switch with which something is wrong. A switch that breaks
/// the contract of the response makes the failure terminal; one that could not be inspected, or
/// is enabled as another one, can be asked for again.
pub open spec fn names_the_wrong_one(
    switches: Seq<FirmwareUpgradeDeviceInfo>,
    observed: Seq<ScaleUpFabricSwitchStatus>,
    n: int,
    failure: ObservationFailure,
) -> bool {
    let node_id = observed[n].node_id@;
    if !rack_has(switches, node_id) {
        failure == ObservationFailure::Terminal(
            "RMS GetScaleUpFabricStatus returned unexpected switch "@ + node_id,
        )
    } else if seen_before(observed, n, node_id) {
        failure == ObservationFailure::Terminal(
            "RMS GetScaleUpFabricStatus returned duplicate switch "@ + node_id,
        )
    } else if !blank(observed[n].error_message@) {
        failure == ObservationFailure::Retryable(
            "RMS failed to inspect switch "@ + node_id + ": "@ + observed[n].error_message@,
        )
    } else {
        exists|m: int|
            {
                &&& 0 <= m < n
                &&& (#[trigger] observed[m]).enabled
                &&& failure == ObservationFailure::Retryable(
                    "RMS reported multiple primary switches: "@ + observed[m].node_id@ + ", "@
                        + node_id,
                )
            }
    }
}

proof fn soundness_in_words(
    switches: Seq<FirmwareUpgradeDeviceInfo>,
    observed: Seq<ScaleUpFabricSwitchStatus>,
    k: int,
)
    requires
        0 <= k < observed.len(),
    ensures
        sound_at(switches, observed, k) <==> !is_wrong(switches, observed, k),
        is_observed(observed.subrange(0, k), observed[k].node_id@) <==> seen_before(
            observed,
            k,
            observed[k].node_id@,
        ),
        is_expected(switches, observed[k].node_id@) <==> rack_has(switches, observed[k].node_id@),
        first_enabled(observed.subrange(0, k)) is Some <==> exists|m: int|
            0 <= m < k && (#[trigger] observed[m]).enabled,
{
    let before = observed.subrange(0, k);
    let node_id = observed[k].node_id@;
    if is_observed(before, node_id) {
        let m = choose|m: int|
            0 <= m < before.len() && (#[trigger] before[m]).node_id@ == node_id;
        assert(observed[m] == before[m]);
    }
    if seen_before(observed, k, node_id) {
        let m = choose|m: int| 0 <= m < k && (#[trigger] observed[m]).node_id@ == node_id;
        assert(before[m] == observed[m]);
    }
    if first_enabled(before) is None {
        nothing_enabled(before);
        assert forall|m: int| 0 <= m < k implies !(#[trigger] observed[m]).enabled by {
            assert(before[m] == observed[m]);
        }
    } else {
        if forall|m: int| 0 <= m < k ==> !(#[trigger] observed[m]).enabled {
            assert forall|m: int| 0 <= m < before.len() implies !(#[trigger] before[m]).enabled by {
                assert(before[m] == observed[m]);
            }
            none_enabled(before);
        }
    }
}

/// A response is refused for the first observed switch with which something is wrong.
pub proof fn observation_fails_at_the_first_wrong_switch(
    switches: Seq<FirmwareUpgradeDeviceInfo>,
    response: GetScaleUpFabricStatusResponse,
    n: int,
)
    requires
        response.status.code == Some(ReturnCode::Success),
        response.fabric_status is Some,
        is_first_wrong(switches, response.fabric_status->0@, n),
    ensures
        primary_observation(switches, response) is Err,
        names_the_wrong_one(
            switches,
            response.fabric_status->0@,
            n,
            primary_observation(switches, response)->Err_0,
        ),
{
    let observed = response.fabric_status->0@;
    let until = observed.subrange(0, n + 1);
    let before = observed.subrange(0, n);
    assert(until.drop_last() =~= before);
    assert(until.last() == observed[n]);
    no_failure_means_sound(switches, before);
    assert forall|k: int| 0 <= k < before.len() implies #[trigger] sound_at(
        switches,
        before,
        k,
    ) by {
        soundness_in_words(switches, observed, k);
        assert(before.subrange(0, k) =~= observed.subrange(0, k));
        assert(before[k] == observed[k]);
        assert(!is_wrong(switches, observed, k));
    }
    soundness_in_words(switches, observed, n);
    assert(last_failure(switches, until) is Some);
    assert(first_failure(switches, until) == last_failure(switches, until));
    failure_stays(switches, observed, n + 1);
    if first_enabled(before) is Some {
        let m = choose|m: int| #[trigger] only_enabled(before, m);
        enabled_is_first(before, m);
        assert(before[m] == observed[m]);
    }
}

/// Where nothing is wrong with any observed switch, a response that leaves out a switch of the
/// rack is refused for good, and one without an enabled switch can be asked for again.
pub proof fn incomplete_observations_are_refused(
    switches: Seq<FirmwareUpgradeDeviceInfo>,
    response: GetScaleUpFabricStatusResponse,
)
    requires
        response.status.code == Some(ReturnCode::Success),
        response.fabric_status is Some,
        forall|n: int|
            0 <= n < response.fabric_status->0@.len() ==> !#[trigger] is_wrong(
                switches,
                response.fabric_status->0@,
                n,
            ),
    ensures
        ({
            let observed = response.fabric_status->0@;
            let all_observed = forall|j: int|
                0 <= j < switches.len() ==> seen_before(
                    observed,
                    observed.len() as int,
                    (#[trigger] switches[j]).node_id@,
                );
            let nothing_is_enabled = forall|k: int|
                0 <= k < observed.len() ==> !(#[trigger] observed[k]).enabled;
            &&& !all_observed ==> primary_observation(switches, response) == Err::<
                SwitchId,
                ObservationFailure,
            >(
                ObservationFailure::Terminal(
                    "RMS GetScaleUpFabricStatus omitted switches: "@ + joined(
                        omitted_ids(switches, observed),
                        ", "@,
                    ),
                ),
            )
            &&& all_observed && nothing_is_enabled ==> primary_observation(switches, response) == Err::<
                SwitchId,
                ObservationFailure,
            >(
                ObservationFailure::Retryable(
                    "RMS GetScaleUpFabricStatus reported no primary switch"@,
                ),
            )
        }),
{
    let observed = response.fabric_status->0@;
    no_failure_means_sound(switches, observed);
    assert forall|k: int| 0 <= k < observed.len() implies #[trigger] sound_at(
        switches,
        observed,
        k,
    ) by {
        soundness_in_words(switches, observed, k);
        assert(!is_wrong(switches, observed, k));
    }
    nothing_omitted_means_all_observed(switches, observed);
    assert forall|j: int| 0 <= j < switches.len() implies (is_observed(
        observed,
        (#[trigger] switches[j]).node_id@,
    ) <==> seen_before(observed, observed.len() as int, switches[j].node_id@)) by {}
    if forall|k: int| 0 <= k < observed.len() ==> !(#[trigger] observed[k]).enabled {
        none_enabled(observed);
    }
}

/// A switch is named as omitted exactly if it is one of the rack's and was not observed.
pub proof fn omitted_are_the_unobserved(
    switches: Seq<FirmwareUpgradeDeviceInfo>,
    observed: Seq<ScaleUpFabricSwitchStatus>,
    node_id: Seq<char>,
)
    ensures
        omitted_ids(switches, observed).contains(node_id) <==> rack_has(switches, node_id) && (
        forall|k: int| 0 <= k < observed.len() ==> (#[trigger] observed[k]).node_id@ != node_id),
    decreases switches.len(),
{
    if switches.len() > 0 {
        let before = switches.drop_last();
        let last = switches.last().node_id@;
        omitted_are_the_unobserved(before, observed, node_id);
        assert(rack_has(before, node_id) <==> is_expected(before, node_id));
        assert(rack_has(switches, node_id) <==> rack_has(before, node_id) || last == node_id) by {
            if rack_has(switches, node_id) {
                let j = choose|j: int|
                    0 <= j < switches.len() && (#[trigger] switches[j]).node_id@ == node_id;
                if j < before.len() {
                    assert(before[j] == switches[j]);
                }
            }
            if rack_has(before, node_id) {
                let j = choose|j: int|
                    0 <= j < before.len() && (#[trigger] before[j]).node_id@ == node_id;
                assert(before[j] == switches[j]);
            }
            assert(switches[switches.len() - 1] == switches.last());
        }
        pushing_adds(omitted_ids(before, observed), last, node_id);
    }
}

/// A response that is no success shows no primary switch: a failure can be asked for again, with
/// the rack manager's details; anything else breaks the contract of the response, and so does a
/// success without a fabric status.
pub proof fn unsuccessful_responses_show_nothing(
    switches: Seq<FirmwareUpgradeDeviceInfo>,
    response: GetScaleUpFabricStatusResponse,
)
    ensures
        response.status.code == Some(ReturnCode::Failure) ==> primary_observation(
            switches,
            response,
        ) == Err::<SwitchId, ObservationFailure>(
            ObservationFailure::Retryable(
                "RMS GetScaleUpFabricStatus failed: "@ + (if blank(response.error_message@) {
                    "no error details provided"@
                } else {
                    response.error_message@
                }),
            ),
        ),
        response.status.code != Some(ReturnCode::Failure) && response.status.code != Some(
            ReturnCode::Success,
        ) ==> primary_observation(switches, response) == Err::<SwitchId, ObservationFailure>(
            ObservationFailure::Terminal(
                "RMS GetScaleUpFabricStatus returned invalid status "@ + signed_decimal_text(
                    response.status.number as int,
                ),
            ),
        ),
        response.status.code == Some(ReturnCode::Success) && response.fabric_status is None
            ==> primary_observation(switches, response) == Err::<SwitchId, ObservationFailure>(
            ObservationFailure::Terminal("RMS GetScaleUpFabricStatus returned no fabric status"@),
        ),
{
}

} // verus!
