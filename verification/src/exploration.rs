//! What exploring a site's endpoints found.
use vstd::prelude::*;

use crate::addresses::{Address, MacAddress, MachineId};
use crate::outside::lowercase;
use crate::text::{lowercase_contains, occurs_in};

verus! {

/// A network interface of a computer system.
#[derive(Debug)]
pub struct EthernetInterface {
    pub id: Option<String>,
    pub mac_address: Option<MacAddress>,
}

/// A computer system behind an endpoint.
#[derive(Debug)]
pub struct ComputerSystem {
    pub ethernet_interfaces: Vec<EthernetInterface>,
}

/// What exploring the endpoint of a host found.
#[derive(Debug)]
pub struct EndpointExplorationReport {
    /// The MAC addresses of all system interfaces, in the order of the report.
    pub all_mac_addresses: Vec<MacAddress>,
    /// The report's interface ids, by MAC address.
    pub interface_ids: Vec<(MacAddress, String)>,
    pub is_dpu: bool,
    pub is_switch: bool,
    pub is_power_shelf: bool,
}

/// What the hardware data of a DPU says about its host.
#[derive(Debug)]
pub struct DpuHardwareInfo {
    /// The MAC address by which the host sees the DPU, or why there is none.
    pub factory_mac_address: Result<MacAddress, String>,
    /// The host's machine id, or why there is none.
    pub host_machine_id: Result<MachineId, String>,
}

/// What exploring a DPU found.
#[derive(Debug)]
pub struct ExploredDpu {
    pub bmc_ip: Address,
    pub bmc_mac_address: Option<MacAddress>,
    pub host_pf_mac_address: Option<MacAddress>,
    /// The DPU's machine id, or why the report is not valid.
    pub machine_id: Result<MachineId, String>,
    /// The hardware data that the report gives, or why it gives none.
    pub hardware_info: Result<DpuHardwareInfo, String>,
    pub systems: Vec<ComputerSystem>,
}

/// A host with its DPUs, as exploration matched them.
#[derive(Debug)]
pub struct ExploredManagedHost {
    pub host_bmc_ip: Address,
    pub dpus: Vec<ExploredDpu>,
}

/// Whether the interface's id, in small letters, holds "oob".
pub open spec fn names_oob(interface: EthernetInterface) -> bool {
    interface.id is Some && occurs_in("oob"@, lowercase(interface.id->0@))
}

/// The MAC address of the first out-of-band interface that has one.
pub open spec fn oob_mac_among(interfaces: Seq<EthernetInterface>) -> Option<MacAddress>
    decreases interfaces.len(),
{
    if interfaces.len() == 0 {
        None
    } else if names_oob(interfaces[0]) && interfaces[0].mac_address is Some {
        interfaces[0].mac_address
    } else {
        oob_mac_among(interfaces.drop_first())
    }
}

/// The MAC address of the first out-of-band interface in the first system that has one.
pub open spec fn oob_mac_of(systems: Seq<ComputerSystem>) -> Option<MacAddress>
    decreases systems.len(),
{
    if systems.len() == 0 {
        None
    } else if oob_mac_among(systems[0].ethernet_interfaces@) is Some {
        oob_mac_among(systems[0].ethernet_interfaces@)
    } else {
        oob_mac_of(systems.drop_first())
    }
}

fn oob_mac_address(interfaces: &Vec<EthernetInterface>) -> (r: Option<MacAddress>)
    ensures
        r == oob_mac_among(interfaces@),
{
    let mut i: usize = 0;
    assert(interfaces@.subrange(0, interfaces@.len() as int) =~= interfaces@);
    while i < interfaces.len()
        invariant
            i <= interfaces.len(),
            oob_mac_among(interfaces@) == oob_mac_among(
                interfaces@.subrange(i as int, interfaces@.len() as int),
            ),
        decreases interfaces.len() - i,
    {
        let ghost rest = interfaces@.subrange(i as int, interfaces@.len() as int);
        assert(rest.drop_first() =~= interfaces@.subrange(i + 1, interfaces@.len() as int));
        let is_oob = match &interfaces[i].id {
            Some(id) => lowercase_contains(id.as_str(), "oob"),
            None => false,
        };
        if is_oob {
            if let Some(mac) = interfaces[i].mac_address {
                return Some(mac);
            }
        }
        i += 1;
    }
    None
}

/// The MAC address of a DPU's out-of-band interface: the first interface, over all its
/// systems, whose id speaks of "oob" and that has a MAC address.
pub fn dpu_oob_mac_address(explored_dpu: &ExploredDpu) -> (r: Option<MacAddress>)
    ensures
        r == oob_mac_of(explored_dpu.systems@),
{
    let systems = &explored_dpu.systems;
    let mut i: usize = 0;
    assert(systems@.subrange(0, systems@.len() as int) =~= systems@);
    while i < systems.len()
        invariant
            i <= systems.len(),
            systems@ == explored_dpu.systems@,
            oob_mac_of(systems@) == oob_mac_of(systems@.subrange(i as int, systems@.len() as int)),
        decreases systems.len() - i,
    {
        let ghost rest = systems@.subrange(i as int, systems@.len() as int);
        assert(rest.drop_first() =~= systems@.subrange(i + 1, systems@.len() as int));
        let mac = oob_mac_address(&systems[i].ethernet_interfaces);
        if mac.is_some() {
            return mac;
        }
        i += 1;
    }
    None
}

/// The interface id that the report gives for a MAC address: that of the first entry.
pub open spec fn interface_id_for(ids: Seq<(MacAddress, String)>, mac: MacAddress) -> Option<String>
    decreases ids.len(),
{
    if ids.len() == 0 {
        None
    } else if ids[0].0 == mac {
        Some(ids[0].1)
    } else {
        interface_id_for(ids.drop_first(), mac)
    }
}

/// The interface id that the report gives for a MAC address.
pub fn find_interface_id_for_mac(ids: &Vec<(MacAddress, String)>, mac: MacAddress) -> (r: Option<
    String,
>)
    ensures
        r == interface_id_for(ids@, mac),
{
    let mut i: usize = 0;
    assert(ids@.subrange(0, ids@.len() as int) =~= ids@);
    while i < ids.len()
        invariant
            i <= ids.len(),
            interface_id_for(ids@, mac) == interface_id_for(
                ids@.subrange(i as int, ids@.len() as int),
                mac,
            ),
        decreases ids.len() - i,
    {
        let ghost rest = ids@.subrange(i as int, ids@.len() as int);
        assert(rest.drop_first() =~= ids@.subrange(i + 1, ids@.len() as int));
        if ids[i].0 == mac {
            return Some(ids[i].1.clone());
        }
        i += 1;
    }
    None
}

} // verus!
