//! What is read out of an exploration report, said by positions.
use vstd::prelude::*;

use crate::addresses::MacAddress;
use crate::exploration::{
    interface_id_for, oob_mac_among, oob_mac_of, ComputerSystem, EthernetInterface,
};
use crate::outside::lowercase;
use crate::text::occurs_in;

verus! {

/// Whether this interface gives the out-of-band MAC address: its id, in small letters, holds
/// "oob", and it has a MAC address.
pub open spec fn gives_oob_mac(interface: EthernetInterface) -> bool {
    &&& interface.mac_address is Some
    &&& exists|id: String|
        interface.id == Some(id) && occurs_in("oob"@, #[trigger] lowercase(id@))
}

/// Whether this is the first of the interfaces that gives the out-of-band MAC address.
pub open spec fn is_first_oob(interfaces: Seq<EthernetInterface>, i: int) -> bool {
    &&& 0 <= i < interfaces.len()
    &&& gives_oob_mac(interfaces[i])
    &&& forall|j: int| 0 <= j < i ==> !gives_oob_mac(#[trigger] interfaces[j])
}

proof fn first_oob_of_a_system(interfaces: Seq<EthernetInterface>)
    ensures
        oob_mac_among(interfaces) is None ==> forall|i: int|
            0 <= i < interfaces.len() ==> !gives_oob_mac(#[trigger] interfaces[i]),
        oob_mac_among(interfaces) is Some ==> exists|i: int| #[trigger]
            is_first_oob(interfaces, i) && interfaces[i].mac_address == oob_mac_among(interfaces),
    decreases interfaces.len(),
{
    if interfaces.len() > 0 {
        let rest = interfaces.drop_first();
        first_oob_of_a_system(rest);
        let first = interfaces[0];
        if first.id is Some {
            assert(first.id == Some(first.id->0));
            assert(gives_oob_mac(first) <==> first.mac_address is Some && occurs_in(
                "oob"@,
                lowercase(first.id->0@),
            ));
        }
        if gives_oob_mac(first) {
            assert(is_first_oob(interfaces, 0));
        } else if oob_mac_among(rest) is Some {
            let i = choose|i: int| #[trigger]
                is_first_oob(rest, i) && rest[i].mac_address == oob_mac_among(rest);
            assert forall|j: int| 0 <= j < i + 1 implies !gives_oob_mac(
                #[trigger] interfaces[j],
            ) by {
                if j > 0 {
                    assert(rest[j - 1] == interfaces[j]);
                }
            }
            assert(rest[i] == interfaces[i + 1]);
            assert(is_first_oob(interfaces, i + 1));
        } else {
            assert forall|i: int| 0 <= i < interfaces.len() implies !gives_oob_mac(
                #[trigger] interfaces[i],
            ) by {
                if i > 0 {
                    assert(rest[i - 1] == interfaces[i]);
                }
            }
        }
    }
}

/// Whether this is the first system with an out-of-band MAC address, and the interface in it
/// that gives the address.
pub open spec fn is_oob_place(systems: Seq<ComputerSystem>, s: int, i: int) -> bool {
    &&& 0 <= s < systems.len()
    &&& is_first_oob(systems[s].ethernet_interfaces@, i)
    &&& forall|r: int, j: int|
        0 <= r < s && 0 <= j < systems[r].ethernet_interfaces@.len() ==> !gives_oob_mac(
            #[trigger] systems[r].ethernet_interfaces@[j],
        )
}

/// A DPU's out-of-band MAC address is that of the first interface, over its systems in their
/// order, that gives one; it has none exactly if no interface gives one.
pub proof fn oob_mac_is_the_first(systems: Seq<ComputerSystem>)
    ensures
        oob_mac_of(systems) is None <==> forall|s: int, i: int|
            0 <= s < systems.len() && 0 <= i < systems[s].ethernet_interfaces@.len()
                ==> !gives_oob_mac(#[trigger] systems[s].ethernet_interfaces@[i]),
        oob_mac_of(systems) matches Some(mac) ==> exists|s: int, i: int| #[trigger]
            is_oob_place(systems, s, i) && systems[s].ethernet_interfaces@[i].mac_address == Some(
                mac,
            ),
    decreases systems.len(),
{
    if systems.len() > 0 {
        let rest = systems.drop_first();
        let here = systems[0].ethernet_interfaces@;
        oob_mac_is_the_first(rest);
        first_oob_of_a_system(here);
        if oob_mac_among(here) is Some {
            let i = choose|i: int| #[trigger]
                is_first_oob(here, i) && here[i].mac_address == oob_mac_among(here);
            assert(is_oob_place(systems, 0, i));
            assert(gives_oob_mac(systems[0].ethernet_interfaces@[i]));
        } else if oob_mac_of(rest) is Some {
            let mac = oob_mac_of(rest)->0;
            let (s, i) = choose|s: int, i: int| #[trigger]
                is_oob_place(rest, s, i) && rest[s].ethernet_interfaces@[i].mac_address == Some(
                    mac,
                );
            assert(rest[s] == systems[s + 1]);
            assert forall|r: int, j: int|
                0 <= r < s + 1 && 0 <= j
                    < systems[r].ethernet_interfaces@.len() implies !gives_oob_mac(
                #[trigger] systems[r].ethernet_interfaces@[j],
            ) by {
                if r > 0 {
                    assert(rest[r - 1] == systems[r]);
                    assert(!gives_oob_mac(rest[r - 1].ethernet_interfaces@[j]));
                }
            }
            assert(is_oob_place(systems, s + 1, i));
            assert(gives_oob_mac(systems[s + 1].ethernet_interfaces@[i]));
        } else {
            assert forall|s: int, i: int|
                0 <= s < systems.len() && 0 <= i
                    < systems[s].ethernet_interfaces@.len() implies !gives_oob_mac(
                #[trigger] systems[s].ethernet_interfaces@[i],
            ) by {
                if s > 0 {
                    assert(rest[s - 1] == systems[s]);
                    assert(!gives_oob_mac(rest[s - 1].ethernet_interfaces@[i]));
                }
            }
        }
    }
}

/// The interface id for a MAC address is that of an entry with this address before which there is
/// none; there is no id exactly if no entry has the address.
pub proof fn interface_id_goes_by_its_mac(ids: Seq<(MacAddress, String)>, mac: MacAddress)
    ensures
        interface_id_for(ids, mac) is None <==> forall|i: int|
            0 <= i < ids.len() ==> (#[trigger] ids[i]).0 != mac,
        interface_id_for(ids, mac) matches Some(id) ==> exists|i: int|
            {
                &&& 0 <= i < ids.len()
                &&& #[trigger] ids[i] == (mac, id)
                &&& forall|j: int| 0 <= j < i ==> (#[trigger] ids[j]).0 != mac
            },
    decreases ids.len(),
{
    if ids.len() > 0 {
        let rest = ids.drop_first();
        interface_id_goes_by_its_mac(rest, mac);
        if ids[0].0 == mac {
            assert(ids[0] == (mac, ids[0].1));
        } else if interface_id_for(rest, mac) is Some {
            let id = interface_id_for(rest, mac)->0;
            let i = choose|i: int|
                {
                    &&& 0 <= i < rest.len()
                    &&& #[trigger] rest[i] == (mac, id)
                    &&& forall|j: int| 0 <= j < i ==> (#[trigger] rest[j]).0 != mac
                };
            assert(ids[i + 1] == (mac, id));
            assert forall|j: int| 0 <= j < i + 1 implies (#[trigger] ids[j]).0 != mac by {
                if j > 0 {
                    assert(rest[j - 1] == ids[j]);
                }
            }
        } else {
            assert forall|i: int| 0 <= i < ids.len() implies (#[trigger] ids[i]).0 != mac by {
                if i > 0 {
                    assert(rest[i - 1] == ids[i]);
                }
            }
        }
    }
}

} // verus!
