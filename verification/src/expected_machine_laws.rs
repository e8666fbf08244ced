//! What reading and writing expected machines keeps, field by field.
use vstd::prelude::*;

use crate::expected_machine::{
    allocation_in_message, allocation_of, allocation_outcome, bmc_allocation_of, mode_of,
    policy_from_number, policy_number, policy_of, role_in_message, role_of, role_outcome,
    wire_allocation, wire_bmc_allocation, wire_role, BmcIpAllocationType,
    ExpectedInterfaceIpAllocation, ExpectedInterfaceRole, HostDpuPolicy, Metadata,
};
use crate::expected_machine_data::{
    bmc_allocation_in_message, bmc_allocation_outcome, data_from_message, first_nic_failure,
    machine_failure, machine_in_message, nic_failure, nic_failure_with, nic_from_message_with,
    nic_in_message, ExpectedHostNic, ExpectedMachine, ExpectedMachineData, ExpectedMachineRequest,
};
use crate::forge;
use crate::forge::{ConversionFailure, Discriminant, ReceivedMetadata, WireAddress};
use crate::outside::{mac_parsed, uuid_parsed};
use crate::text::signed_decimal_text;

verus! {

/// Whether an address field stands for this address: none where it is absent or empty, otherwise
/// what its text is read as.
pub open spec fn stands_for(
    field: Option<WireAddress>,
    address: Option<crate::addresses::Address>,
) -> bool {
    if field is None || field->0.text@.len() == 0 {
        address is None
    } else {
        field->0.parsed is Some && address == field->0.parsed
    }
}

/// Reading a machine keeps every field under its own name: user, password, serial numbers, and
/// all the others.
pub proof fn reading_keeps_every_field(
    message: forge::ExpectedMachine<ReceivedMetadata>,
    data: ExpectedMachineData,
)
    requires
        machine_failure(message) is None,
        data_from_message(message, data),
    ensures
        data.bmc_username@ == message.bmc_username@,
        data.bmc_password@ == message.bmc_password@,
        data.serial_number@ == message.chassis_serial_number@,
        data.fallback_dpu_serial_numbers@ == message.fallback_dpu_serial_numbers@,
        data.sku_id == message.sku_id,
        data.rack_id == message.rack_id,
        data.default_pause_ingestion_and_poweron == message.default_pause_ingestion_and_poweron,
        data.dpf_enabled == message.is_dpf_enabled,
        data.bmc_retain_credentials == message.bmc_retain_credentials,
        stands_for(message.bmc_ip_address, data.bmc_ip_address),
        data.host_nics@.len() == message.host_nics@.len(),
        message.metadata is Some ==> message.metadata->0.validation is Ok
            && message.metadata->0.converted == Ok::<Metadata, crate::forge::RpcDataConversionError>(
            data.metadata,
        ),
        message.metadata is None ==> data.metadata.name@.len() == 0
            && data.metadata.description@.len() == 0 && data.metadata.labels@.len() == 0,
        message.host_lifecycle_profile is Some ==> data.host_lifecycle_profile.disable_lockdown
            == message.host_lifecycle_profile->0.disable_lockdown,
        message.host_lifecycle_profile is None ==> data.host_lifecycle_profile.disable_lockdown
            is None,
        data.dpu_policy == HostDpuPolicy::Nic <==> message.dpu_mode == Some(2i32),
        data.dpu_policy == HostDpuPolicy::Ignore <==> message.dpu_mode == Some(3i32),
{
    reveal_strlit("");
}

/// Writing a machine keeps every field under its own name.
pub proof fn writing_keeps_every_field(
    machine: ExpectedMachine,
    message: forge::ExpectedMachine<Metadata>,
)
    requires
        machine_in_message(machine, message),
    ensures
        message.bmc_username@ == machine.data.bmc_username@,
        message.bmc_password@ == machine.data.bmc_password@,
        message.chassis_serial_number@ == machine.data.serial_number@,
        message.fallback_dpu_serial_numbers@ == machine.data.fallback_dpu_serial_numbers@,
        message.metadata == Some(machine.data.metadata),
        message.sku_id == machine.data.sku_id,
        message.rack_id == machine.data.rack_id,
        message.default_pause_ingestion_and_poweron
            == machine.data.default_pause_ingestion_and_poweron,
        message.is_dpf_enabled == machine.data.dpf_enabled,
        message.dpf_enabled <==> machine.data.dpf_enabled != Some(false),
        message.bmc_retain_credentials == Some(true) <==> machine.data.bmc_retain_credentials
            == Some(true),
        message.bmc_retain_credentials != Some(false),
        message.host_nics@.len() == machine.data.host_nics@.len(),
        mac_parsed(message.bmc_mac_address@) == Some(machine.bmc_mac_address.octets()),
        machine.id is None ==> message.id is None,
        machine.id is Some ==> message.id is Some && uuid_parsed(message.id->0@) == Some(
            machine.id->0.value,
        ),
        machine.data.bmc_ip_address is None ==> message.bmc_ip_address is None,
        machine.data.bmc_ip_address is Some ==> message.bmc_ip_address is Some
            && message.bmc_ip_address->0.text@ == machine.data.bmc_ip_address->0.text@,
        message.dpu_mode == Some(2i32) <==> machine.data.dpu_policy == HostDpuPolicy::Nic,
        message.dpu_mode == Some(3i32) <==> machine.data.dpu_policy == HostDpuPolicy::Ignore,
        message.dpu_mode is None <==> machine.data.dpu_policy == HostDpuPolicy::Manage,
        message.bmc_ip_allocation is None <==> machine.data.bmc_ip_allocation
            == BmcIpAllocationType::Auto,
        machine.data.host_lifecycle_profile.disable_lockdown is None
            ==> message.host_lifecycle_profile is None,
        machine.data.host_lifecycle_profile.disable_lockdown is Some
            ==> message.host_lifecycle_profile is Some
            && message.host_lifecycle_profile->0.disable_lockdown
            == machine.data.host_lifecycle_profile.disable_lockdown,
{
}

/// Reading an interface keeps every field under its own name.
pub proof fn reading_an_interface_keeps_every_field(
    message: forge::ExpectedHostNic,
    octets: Option<Seq<u8>>,
    nic: ExpectedHostNic,
)
    requires
        nic_failure_with(message, octets) is None,
        nic_from_message_with(message, octets, nic),
    ensures
        octets == Some(nic.mac_address.octets()),
        nic.nic_type == message.nic_type,
        stands_for(message.fixed_ip, nic.fixed_ip),
        nic.fixed_mask == message.fixed_mask,
        stands_for(message.fixed_gateway, nic.fixed_gateway),
        nic.primary == message.primary,
        message.network_segment_type is None ==> nic.network_segment_type is None,
        message.network_segment_type is Some ==> message.network_segment_type->0.decoded is Ok
            && nic.network_segment_type == Some(message.network_segment_type->0.decoded->Ok_0),
        nic.role == ExpectedInterfaceRole::DpuOs <==> message.role == Some(
            Discriminant::Known(forge::ExpectedInterfaceRole::DpuOs),
        ),
        nic.role == ExpectedInterfaceRole::DpuBmc <==> message.role == Some(
            Discriminant::Known(forge::ExpectedInterfaceRole::DpuBmc),
        ),
        nic.ip_allocation == Some(ExpectedInterfaceIpAllocation::Dynamic) <==> message.ip_allocation
            == Some(Discriminant::Known(forge::ExpectedInterfaceIpAllocation::Dynamic)),
        nic.ip_allocation == Some(ExpectedInterfaceIpAllocation::Fixed) <==> message.ip_allocation
            == Some(Discriminant::Known(forge::ExpectedInterfaceIpAllocation::Fixed)),
        nic.ip_allocation == Some(ExpectedInterfaceIpAllocation::Retained)
            <==> message.ip_allocation == Some(
            Discriminant::Known(forge::ExpectedInterfaceIpAllocation::Retained),
        ),
{
}

/// Writing an interface keeps every field under its own name.
pub proof fn writing_an_interface_keeps_every_field(
    nic: ExpectedHostNic,
    message: forge::ExpectedHostNic,
)
    requires
        nic_in_message(nic, message),
    ensures
        mac_parsed(message.mac_address@) == Some(nic.mac_address.octets()),
        message.nic_type == nic.nic_type,
        nic.fixed_ip is None <==> message.fixed_ip is None,
        nic.fixed_ip is Some ==> message.fixed_ip->0.text@ == nic.fixed_ip->0.text@,
        message.fixed_mask == nic.fixed_mask,
        nic.fixed_gateway is None <==> message.fixed_gateway is None,
        nic.fixed_gateway is Some ==> message.fixed_gateway->0.text@
            == nic.fixed_gateway->0.text@,
        message.primary == nic.primary,
        nic.network_segment_type is None <==> message.network_segment_type is None,
        nic.network_segment_type matches Some(segment_type) ==> message.network_segment_type->0.number
            == segment_type.0,
        message.role is None <==> nic.role == ExpectedInterfaceRole::Host,
        message.role == Some(Discriminant::Known(forge::ExpectedInterfaceRole::DpuOs)) <==> nic.role
            == ExpectedInterfaceRole::DpuOs,
        message.role == Some(Discriminant::Known(forge::ExpectedInterfaceRole::DpuBmc))
            <==> nic.role == ExpectedInterfaceRole::DpuBmc,
        message.ip_allocation is None <==> nic.ip_allocation is None,
        message.ip_allocation == Some(
            Discriminant::Known(forge::ExpectedInterfaceIpAllocation::Dynamic),
        ) <==> nic.ip_allocation == Some(ExpectedInterfaceIpAllocation::Dynamic),
        message.ip_allocation == Some(
            Discriminant::Known(forge::ExpectedInterfaceIpAllocation::Fixed),
        ) <==> nic.ip_allocation == Some(ExpectedInterfaceIpAllocation::Fixed),
        message.ip_allocation == Some(
            Discriminant::Known(forge::ExpectedInterfaceIpAllocation::Retained),
        ) <==> nic.ip_allocation == Some(ExpectedInterfaceIpAllocation::Retained),
{
}

/// Every interface of a machine is read from the message's interface at the same position, and
/// written to it.
pub proof fn interfaces_keep_their_positions(
    received: forge::ExpectedMachine<ReceivedMetadata>,
    data: ExpectedMachineData,
    machine: ExpectedMachine,
    sent: forge::ExpectedMachine<Metadata>,
    i: int,
)
    requires
        data_from_message(received, data),
        machine_in_message(machine, sent),
    ensures
        0 <= i < received.host_nics@.len() ==> mac_parsed(received.host_nics@[i].mac_address@)
            == Some(data.host_nics@[i].mac_address.octets()) && data.host_nics@[i].primary
            == received.host_nics@[i].primary && data.host_nics@[i].nic_type
            == received.host_nics@[i].nic_type,
        0 <= i < machine.data.host_nics@.len() ==> mac_parsed(sent.host_nics@[i].mac_address@)
            == Some(machine.data.host_nics@[i].mac_address.octets())
            && sent.host_nics@[i].primary == machine.data.host_nics@[i].primary
            && sent.host_nics@[i].nic_type == machine.data.host_nics@[i].nic_type,
{
    if 0 <= i < received.host_nics@.len() {
        let nic = data.host_nics@[i];
        assert(crate::expected_machine_data::nic_from_message(received.host_nics@[i], nic));
    }
    if 0 <= i < machine.data.host_nics@.len() {
        assert(nic_in_message(machine.data.host_nics@[i], sent.host_nics@[i]));
    }
}

/// The names of policies, roles and allocations stand for each other, name by name; what a message
/// leaves open stands for the default.
pub proof fn names_stand_for_each_other()
    ensures
        mode_of(HostDpuPolicy::Manage) == forge::DpuMode::DpuMode,
        mode_of(HostDpuPolicy::Nic) == forge::DpuMode::NicMode,
        mode_of(HostDpuPolicy::Ignore) == forge::DpuMode::NoDpu,
        policy_of(forge::DpuMode::Unspecified) == HostDpuPolicy::Manage,
        forall|policy: HostDpuPolicy| policy_of(#[trigger] mode_of(policy)) == policy,
        forge::DpuMode::Unspecified.number() == 0 && forge::DpuMode::DpuMode.number() == 1
            && forge::DpuMode::NicMode.number() == 2 && forge::DpuMode::NoDpu.number() == 3,
        wire_role(ExpectedInterfaceRole::Host) == forge::ExpectedInterfaceRole::Host,
        wire_role(ExpectedInterfaceRole::DpuOs) == forge::ExpectedInterfaceRole::DpuOs,
        wire_role(ExpectedInterfaceRole::DpuBmc) == forge::ExpectedInterfaceRole::DpuBmc,
        role_of(forge::ExpectedInterfaceRole::Unspecified) == ExpectedInterfaceRole::Host,
        forall|role: ExpectedInterfaceRole| role_of(#[trigger] wire_role(role)) == role,
        wire_allocation(ExpectedInterfaceIpAllocation::Dynamic)
            == forge::ExpectedInterfaceIpAllocation::Dynamic,
        wire_allocation(ExpectedInterfaceIpAllocation::Fixed)
            == forge::ExpectedInterfaceIpAllocation::Fixed,
        wire_allocation(ExpectedInterfaceIpAllocation::Retained)
            == forge::ExpectedInterfaceIpAllocation::Retained,
        allocation_of(forge::ExpectedInterfaceIpAllocation::Unspecified) is None,
        forall|policy: ExpectedInterfaceIpAllocation|
            allocation_of(#[trigger] wire_allocation(policy)) == Some(policy),
        wire_bmc_allocation(BmcIpAllocationType::Auto) == forge::BmcIpAllocationType::Auto,
        wire_bmc_allocation(BmcIpAllocationType::Dynamic) == forge::BmcIpAllocationType::Dynamic,
        wire_bmc_allocation(BmcIpAllocationType::Fixed) == forge::BmcIpAllocationType::Fixed,
        wire_bmc_allocation(BmcIpAllocationType::Retained) == forge::BmcIpAllocationType::Retained,
        bmc_allocation_of(forge::BmcIpAllocationType::Unspecified) == BmcIpAllocationType::Auto,
        forall|mode: BmcIpAllocationType|
            bmc_allocation_of(#[trigger] wire_bmc_allocation(mode)) == mode,
{
}

/// What a message carries reads back as what was written, and only the default is left out: the
/// policy to manage DPUs, the role of the host itself, the absent allocation, and the automatic one.
pub proof fn only_defaults_are_left_out(
    policy: HostDpuPolicy,
    role: ExpectedInterfaceRole,
    allocation: Option<ExpectedInterfaceIpAllocation>,
    mode: BmcIpAllocationType,
    number: i32,
)
    ensures
        policy_number(policy) is None <==> policy == HostDpuPolicy::Manage,
        policy_number(policy) == Some(number as int) ==> policy_from_number(Some(number)) == policy,
        policy_from_number(None) == HostDpuPolicy::Manage,
        role_in_message(role) is None <==> role == ExpectedInterfaceRole::Host,
        role_outcome(role_in_message(role)) == Ok::<ExpectedInterfaceRole, ConversionFailure>(role),
        allocation_in_message(allocation) is None <==> allocation is None,
        allocation_outcome(allocation_in_message(allocation)) == Ok::<
            Option<ExpectedInterfaceIpAllocation>,
            ConversionFailure,
        >(allocation),
        bmc_allocation_in_message(mode) is None <==> mode == BmcIpAllocationType::Auto,
        bmc_allocation_outcome(bmc_allocation_in_message(mode)) == Ok::<
            BmcIpAllocationType,
            ConversionFailure,
        >(mode),
{
}

/// A number without a name is refused, by that number; an absent one stands for the default.
pub proof fn nameless_numbers_are_refused(number: i32)
    ensures
        role_outcome(Some(Discriminant::Unknown(number))) == Err::<
            ExpectedInterfaceRole,
            ConversionFailure,
        >(
            ConversionFailure::InvalidArgument(
                "invalid expected interface role: "@ + signed_decimal_text(number as int),
            ),
        ),
        role_outcome(None) == Ok::<ExpectedInterfaceRole, ConversionFailure>(
            ExpectedInterfaceRole::Host,
        ),
        allocation_outcome(Some(Discriminant::Unknown(number))) == Err::<
            Option<ExpectedInterfaceIpAllocation>,
            ConversionFailure,
        >(
            ConversionFailure::InvalidArgument(
                "invalid expected interface IP allocation: "@ + signed_decimal_text(number as int),
            ),
        ),
        allocation_outcome(None) == Ok::<Option<ExpectedInterfaceIpAllocation>, ConversionFailure>(
            None,
        ),
        bmc_allocation_outcome(Some(Discriminant::Unknown(number))) == Err::<
            BmcIpAllocationType,
            ConversionFailure,
        >(
            ConversionFailure::InvalidArgument(
                "Invalid bmc_ip_allocation: "@ + signed_decimal_text(number as int),
            ),
        ),
        bmc_allocation_outcome(None) == Ok::<BmcIpAllocationType, ConversionFailure>(
            BmcIpAllocationType::Auto,
        ),
        number != 2 && number != 3 ==> policy_from_number(Some(number)) == HostDpuPolicy::Manage,
        policy_from_number(None) == HostDpuPolicy::Manage,
{
}

/// Whether an address field holds a text that is no address.
pub open spec fn holds_no_address(field: Option<WireAddress>) -> bool {
    field is Some && field->0.text@.len() > 0 && field->0.parsed is None
}

/// Whether the number of an enumeration has no name.
pub open spec fn is_nameless<T>(field: Option<Discriminant<T>>) -> bool {
    field is Some && field->0 is Unknown
}

/// An interface is read exactly if its MAC address, its addresses, its segment type and its two
/// choices all can be; otherwise the first of them, in this order, is refused.
pub proof fn interfaces_are_refused_for_their_first_bad_field(
    message: forge::ExpectedHostNic,
    octets: Option<Seq<u8>>,
)
    ensures
        ({
            let bad_segment = message.network_segment_type is Some
                && message.network_segment_type->0.decoded is Err;
            &&& nic_failure_with(message, octets) is None <==> octets is Some && !holds_no_address(
                message.fixed_ip,
            ) && !holds_no_address(message.fixed_gateway) && !bad_segment && !is_nameless(
                message.role,
            ) && !is_nameless(message.ip_allocation)
            &&& octets is None ==> nic_failure_with(message, octets) == Some(
                ConversionFailure::InvalidMacAddress(message.mac_address@),
            )
            &&& octets is Some && holds_no_address(message.fixed_ip) ==> nic_failure_with(
                message,
                octets,
            ) == Some(
                ConversionFailure::InvalidArgument(
                    "Invalid fixed IP: "@ + message.fixed_ip->0.text@,
                ),
            )
            &&& octets is Some && !holds_no_address(message.fixed_ip) && holds_no_address(
                message.fixed_gateway,
            ) ==> nic_failure_with(message, octets) == Some(
                ConversionFailure::InvalidArgument(
                    "Invalid fixed gateway: "@ + message.fixed_gateway->0.text@,
                ),
            )
            &&& octets is Some && !holds_no_address(message.fixed_ip) && !holds_no_address(
                message.fixed_gateway,
            ) && bad_segment ==> nic_failure_with(message, octets) == Some(
                message.network_segment_type->0.decoded->Err_0@,
            )
        }),
        nic_failure(message) == nic_failure_with(message, mac_parsed(message.mac_address@)),
{
}

/// Whether the interface at this position is the first that cannot be read.
pub open spec fn is_first_unreadable(nics: Seq<forge::ExpectedHostNic>, n: int) -> bool {
    &&& 0 <= n < nics.len()
    &&& nic_failure(nics[n]) is Some
    &&& forall|k: int| 0 <= k < n ==> nic_failure(#[trigger] nics[k]) is None
}

/// The interfaces of a machine are refused for the first that cannot be read.
pub proof fn interfaces_are_refused_for_the_first(nics: Seq<forge::ExpectedHostNic>)
    ensures
        match first_nic_failure(nics) {
            None => forall|k: int| 0 <= k < nics.len() ==> nic_failure(#[trigger] nics[k]) is None,
            Some(failure) => exists|n: int| #[trigger]
                is_first_unreadable(nics, n) && nic_failure(nics[n]) == Some(failure),
        },
    decreases nics.len(),
{
    if nics.len() > 0 {
        let before = nics.drop_last();
        let last = nics.len() - 1;
        interfaces_are_refused_for_the_first(before);
        if first_nic_failure(before) is Some {
            let n = choose|n: int| #[trigger]
                is_first_unreadable(before, n) && nic_failure(before[n]) == first_nic_failure(
                    before,
                );
            assert forall|k: int| 0 <= k < n implies nic_failure(#[trigger] nics[k]) is None by {
                assert(before[k] == nics[k]);
            }
            assert(before[n] == nics[n]);
            assert(is_first_unreadable(nics, n));
        } else {
            assert forall|k: int| 0 <= k < last implies nic_failure(
                #[trigger] nics[k],
            ) is None by {
                assert(before[k] == nics[k]);
            }
            assert(nics[last] == nics.last());
            if nic_failure(nics[last]) is Some {
                assert(is_first_unreadable(nics, last));
            }
        }
    }
}

/// A machine is read exactly if its metadata, its interfaces, its BMC address and its BMC
/// allocation all can be; otherwise the first of them, in this order, is refused.
pub proof fn machines_are_refused_for_their_first_bad_field(
    message: forge::ExpectedMachine<ReceivedMetadata>,
)
    ensures
        ({
            let bad_metadata = message.metadata is Some && (message.metadata->0.converted is Err
                || message.metadata->0.validation is Err);
            let bad_nics = exists|n: int| #[trigger] is_first_unreadable(message.host_nics@, n);
            &&& machine_failure(message) is None <==> !bad_metadata && !bad_nics
                && !holds_no_address(message.bmc_ip_address) && !is_nameless(
                message.bmc_ip_allocation,
            )
            &&& message.metadata is Some && message.metadata->0.converted is Err
                ==> machine_failure(message) == Some(message.metadata->0.converted->Err_0@)
            &&& message.metadata is Some && message.metadata->0.converted is Ok
                && message.metadata->0.validation is Err ==> machine_failure(message) == Some(
                ConversionFailure::InvalidArgument(message.metadata->0.validation->Err_0@),
            )
            &&& !bad_metadata && !bad_nics && holds_no_address(message.bmc_ip_address)
                ==> machine_failure(message) == Some(
                ConversionFailure::InvalidArgument(
                    "Invalid BMC IP address: "@ + message.bmc_ip_address->0.text@,
                ),
            )
        }),
        forall|n: int| #[trigger]
            is_first_unreadable(message.host_nics@, n) && (message.metadata is None
                || message.metadata->0.converted is Ok && message.metadata->0.validation is Ok)
                ==> machine_failure(message) == nic_failure(message.host_nics@[n]),
{
    let nics = message.host_nics@;
    interfaces_are_refused_for_the_first(nics);
    assert forall|n: int| #[trigger]
        is_first_unreadable(nics, n) && (message.metadata is None
            || message.metadata->0.converted is Ok
            && message.metadata->0.validation is Ok) implies machine_failure(message)
        == nic_failure(nics[n]) by {
        if first_nic_failure(nics) is Some {
            let m = choose|m: int| #[trigger]
                is_first_unreadable(nics, m) && nic_failure(nics[m]) == first_nic_failure(nics);
            assert(m == n) by {
                if m < n {
                    assert(nic_failure(nics[m]) is None);
                } else if n < m {
                    assert(nic_failure(nics[n]) is None);
                }
            }
        } else {
            assert(nic_failure(nics[n]) is None);
        }
    }
    if first_nic_failure(nics) is None {
        assert forall|n: int| !#[trigger] is_first_unreadable(nics, n) by {
            if 0 <= n < nics.len() {
                assert(nic_failure(nics[n]) is None);
            }
        }
    }
}

/// A request names a machine by its id and its MAC address, each as it was read. An id that is
/// none is refused first, then a MAC address that is none; an empty MAC address means none.
pub proof fn requests_name_what_they_carry(
    rpc: forge::ExpectedMachineRequest,
    request: ExpectedMachineRequest,
    id: Option<u128>,
    octets: Option<Seq<u8>>,
)
    ensures
        ExpectedMachineRequest::failure_with(rpc, id, octets) is None <==> (rpc.id is None
            || id is Some) && (rpc.bmc_mac_address@.len() == 0 || octets is Some),
        rpc.id is Some && id is None ==> ExpectedMachineRequest::failure_with(rpc, id, octets)
            == Some(ConversionFailure::InvalidArgument(rpc.id->0@)),
        (rpc.id is None || id is Some) && rpc.bmc_mac_address@.len() > 0 && octets is None
            ==> ExpectedMachineRequest::failure_with(rpc, id, octets) == Some(
            ConversionFailure::InvalidMacAddress(rpc.bmc_mac_address@),
        ),
        request.names(rpc, id, octets) ==> {
            &&& rpc.id is None ==> request.id is None
            &&& rpc.id is Some && id is Some ==> request.id is Some && request.id->0.value == id->0
            &&& rpc.bmc_mac_address@.len() == 0 ==> request.bmc_mac_address is None
            &&& rpc.bmc_mac_address@.len() > 0 && octets is Some ==> request.bmc_mac_address is Some
                && request.bmc_mac_address->0.octets() == octets->0
        },
{
}

} // verus!
