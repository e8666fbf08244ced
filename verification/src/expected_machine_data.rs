//! The data kept about expected machines, and its reading from and writing to messages.
use vstd::prelude::*;

use crate::addresses::{
    mac_is_its_octets, mac_text, uuid_text, Address, MacAddress, MachineId, Uuid,
};
use crate::expected_machine::{
    allocation_in_message, allocation_outcome, bmc_allocation_of, expected_interface_ip_allocation_from_rpc,
    expected_interface_ip_allocation_to_rpc, expected_interface_role_from_rpc,
    expected_interface_role_to_rpc, host_dpu_policy_from_rpc, host_dpu_policy_to_rpc,
    policy_from_number, policy_number, role_in_message, role_outcome, wire_bmc_allocation,
    BmcIpAllocationType, ExpectedInterfaceIpAllocation, ExpectedInterfaceRole, HostDpuPolicy,
    HostLifecycleProfile, Metadata, NetworkSegmentType,
};
use crate::forge;
use crate::forge::{
    ConversionFailure, Discriminant, ReceivedMetadata, RpcDataConversionError, WireAddress,
    WireSegmentType,
};
use crate::outside::{mac_parsed, uuid_parsed};
use crate::text::{concat2, signed_decimal, signed_decimal_text};

verus! {

/// An interface that a host is expected to have.
#[derive(Debug)]
pub struct ExpectedHostNic {
    pub mac_address: MacAddress,
    pub nic_type: Option<String>,
    pub fixed_ip: Option<Address>,
    pub fixed_mask: Option<String>,
    pub fixed_gateway: Option<Address>,
    pub primary: Option<bool>,
    pub network_segment_type: Option<NetworkSegmentType>,
    pub role: ExpectedInterfaceRole,
    pub ip_allocation: Option<ExpectedInterfaceIpAllocation>,
}

impl Clone for ExpectedHostNic {
    fn clone(&self) -> (r: Self)
        ensures
            r == *self,
    {
        ExpectedHostNic {
            mac_address: self.mac_address,
            nic_type: self.nic_type.clone(),
            fixed_ip: self.fixed_ip.clone(),
            fixed_mask: self.fixed_mask.clone(),
            fixed_gateway: self.fixed_gateway.clone(),
            primary: self.primary,
            network_segment_type: self.network_segment_type,
            role: self.role,
            ip_allocation: self.ip_allocation,
        }
    }
}

impl ExpectedHostNic {
    /// An interface with this MAC and role of which nothing else is declared.
    pub fn new(mac_address: MacAddress, role: ExpectedInterfaceRole) -> (r: Self)
        ensures
            r == (ExpectedHostNic {
                mac_address,
                nic_type: None,
                fixed_ip: None,
                fixed_mask: None,
                fixed_gateway: None,
                primary: None,
                network_segment_type: None,
                role,
                ip_allocation: None,
            }),
    {
        ExpectedHostNic {
            mac_address,
            nic_type: None,
            fixed_ip: None,
            fixed_mask: None,
            fixed_gateway: None,
            primary: None,
            network_segment_type: None,
            role,
            ip_allocation: None,
        }
    }

    /// The declared allocation; without one, fixed where a fixed address is declared and
    /// dynamic where none is.
    pub fn resolved_ip_allocation(&self) -> (r: ExpectedInterfaceIpAllocation)
        ensures
            r == (match self.ip_allocation {
                Some(policy) => policy,
                None => if self.fixed_ip is Some {
                    ExpectedInterfaceIpAllocation::Fixed
                } else {
                    ExpectedInterfaceIpAllocation::Dynamic
                },
            }),
    {
        match self.ip_allocation {
            Some(policy) => policy,
            None => if self.fixed_ip.is_some() {
                ExpectedInterfaceIpAllocation::Fixed
            } else {
                ExpectedInterfaceIpAllocation::Dynamic
            },
        }
    }
}

/// What a textual address field stands for: an absent or empty one for no address.
pub open spec fn address_of(field: Option<WireAddress>) -> Option<Address> {
    match field {
        None => None,
        Some(address) => if address.text@.len() == 0 {
            None
        } else {
            address.parsed
        },
    }
}

/// Whether a textual address field holds something that is no address.
pub open spec fn address_is_invalid(field: Option<WireAddress>) -> bool {
    field is Some && field->0.text@.len() > 0 && field->0.parsed is None
}

/// Reads a textual address field; `prefix` starts the refusal of a text that is no address.
fn address_from_rpc(field: Option<WireAddress>, prefix: &str) -> (r: Result<
    Option<Address>,
    RpcDataConversionError,
>)
    ensures
        if address_is_invalid(field) {
            r is Err && r->Err_0@ == ConversionFailure::InvalidArgument(
                prefix@ + field->0.text@,
            )
        } else {
            r == Ok::<Option<Address>, RpcDataConversionError>(address_of(field))
        },
{
    match field {
        None => Ok(None),
        Some(address) => {
            if address.text.as_str().is_empty() {
                Ok(None)
            } else {
                match address.parsed {
                    Some(parsed) => Ok(Some(parsed)),
                    None => Err(
                        RpcDataConversionError::InvalidArgument(
                            concat2(prefix, address.text.as_str()),
                        ),
                    ),
                }
            }
        },
    }
}

/// What a message carries for an address.
pub open spec fn address_in_message(address: Option<Address>, field: Option<WireAddress>) -> bool {
    match address {
        None => field is None,
        Some(address) => field is Some && field->0.text == address.text && field->0.parsed == Some(
            address,
        ),
    }
}

/// Writes an address into a message.
fn address_to_rpc(address: Option<Address>) -> (r: Option<WireAddress>)
    ensures
        address_in_message(address, r),
{
    match address {
        None => None,
        Some(address) => Some(
            WireAddress { text: address.text.clone(), parsed: Some(address) },
        ),
    }
}

/// What a message carries for a MAC address: its text, which reads back as the address.
pub open spec fn mac_in_message(mac: MacAddress, text: Seq<char>) -> bool {
    text == mac_text(mac.octets()) && mac_parsed(text) == Some(mac.octets())
}

/// What a message carries for a UUID: its text, which reads back as the UUID.
pub open spec fn uuid_in_message(id: Option<Uuid>, field: Option<String>) -> bool {
    match id {
        None => field is None,
        Some(id) => field is Some && field->0@ == uuid_text(id.value) && uuid_parsed(field->0@) == Some(
            id.value,
        ),
    }
}

fn uuid_to_rpc(id: Option<Uuid>) -> (r: Option<String>)
    ensures
        uuid_in_message(id, r),
{
    match id {
        None => None,
        Some(id) => Some(id.to_text()),
    }
}

/// The octets of a MAC address, where there is one.
pub open spec fn octets_of(mac_address: Option<MacAddress>) -> Option<Seq<u8>> {
    match mac_address {
        Some(mac) => Some(mac.octets()),
        None => None,
    }
}

/// The number of a UUID, where there is one.
pub open spec fn number_of(id: Option<Uuid>) -> Option<u128> {
    match id {
        Some(id) => Some(id.value),
        None => None,
    }
}

/// A request that names an expected machine.
#[derive(Clone, Copy, Debug)]
pub struct ExpectedMachineRequest {
    pub id: Option<Uuid>,
    pub bmc_mac_address: Option<MacAddress>,
}

impl ExpectedMachineRequest {
    /// Why a request cannot be read: first its id, then its MAC address, must be one; an
    /// empty MAC address means none.
    pub open spec fn failure(rpc: forge::ExpectedMachineRequest) -> Option<ConversionFailure> {
        Self::failure_with(rpc, id_parsed(rpc.id), mac_parsed(rpc.bmc_mac_address@))
    }

    /// Why a request cannot be read, where `id` and `octets` are what its texts are read as.
    pub open spec fn failure_with(
        rpc: forge::ExpectedMachineRequest,
        id: Option<u128>,
        octets: Option<Seq<u8>>,
    ) -> Option<ConversionFailure> {
        if rpc.id is Some && id is None {
            Some(ConversionFailure::InvalidArgument(rpc.id->0@))
        } else if rpc.bmc_mac_address@.len() > 0 && octets is None {
            Some(ConversionFailure::InvalidMacAddress(rpc.bmc_mac_address@))
        } else {
            None
        }
    }

    /// What a request without failure names, where `id` and `octets` are what its texts are
    /// read as.
    pub open spec fn names(
        self,
        rpc: forge::ExpectedMachineRequest,
        id: Option<u128>,
        octets: Option<Seq<u8>>,
    ) -> bool {
        &&& number_of(self.id) == (if rpc.id is Some {
            id
        } else {
            None
        })
        &&& octets_of(self.bmc_mac_address) == (if rpc.bmc_mac_address@.len() > 0 {
            octets
        } else {
            None
        })
    }

    /// Reads a request.
    pub fn try_from(rpc: forge::ExpectedMachineRequest) -> (r: Result<Self, RpcDataConversionError>)
        ensures
            match Self::failure(rpc) {
                Some(failure) => r is Err && r->Err_0@ == failure,
                None => r is Ok && r->Ok_0.names(
                    rpc,
                    id_parsed(rpc.id),
                    mac_parsed(rpc.bmc_mac_address@),
                ),
            },
    {
        let id = match &rpc.id {
            None => None,
            Some(text) => Uuid::parse(text.as_str()),
        };
        let bmc_mac_address = MacAddress::parse(rpc.bmc_mac_address.as_str());
        ExpectedMachineRequest::with_parsed(rpc, id, bmc_mac_address)
    }

    /// Reads a request, where `id` and `bmc_mac_address` are what its texts are read as.
    pub fn with_parsed(
        rpc: forge::ExpectedMachineRequest,
        id: Option<Uuid>,
        bmc_mac_address: Option<MacAddress>,
    ) -> (r: Result<Self, RpcDataConversionError>)
        ensures
            match Self::failure_with(rpc, number_of(id), octets_of(bmc_mac_address)) {
                Some(failure) => r is Err && r->Err_0@ == failure,
                None => r is Ok && r->Ok_0.names(rpc, number_of(id), octets_of(bmc_mac_address)),
            },
    {
        let id = match (rpc.id, id) {
            (None, _) => None,
            (Some(_), Some(id)) => Some(id),
            (Some(text), None) => {
                return Err(RpcDataConversionError::InvalidArgument(text));
            },
        };
        if rpc.bmc_mac_address.as_str().is_empty() {
            return Ok(ExpectedMachineRequest { id, bmc_mac_address: None });
        }
        match bmc_mac_address {
            Some(mac) => Ok(ExpectedMachineRequest { id, bmc_mac_address: Some(mac) }),
            None => Err(RpcDataConversionError::InvalidMacAddress(rpc.bmc_mac_address)),
        }
    }
}

/// What the text of an id is read as, where there is one.
pub open spec fn id_parsed(id: Option<String>) -> Option<u128> {
    match id {
        Some(text) => uuid_parsed(text@),
        None => None,
    }
}

/// What a message carries for an interface.
pub open spec fn nic_in_message(nic: ExpectedHostNic, message: forge::ExpectedHostNic) -> bool {
    &&& mac_in_message(nic.mac_address, message.mac_address@)
    &&& message.nic_type == nic.nic_type
    &&& address_in_message(nic.fixed_ip, message.fixed_ip)
    &&& message.fixed_mask == nic.fixed_mask
    &&& address_in_message(nic.fixed_gateway, message.fixed_gateway)
    &&& message.primary == nic.primary
    &&& match nic.network_segment_type {
        None => message.network_segment_type is None,
        Some(segment_type) => message.network_segment_type == Some(
            WireSegmentType { number: segment_type.0, decoded: Ok(segment_type) },
        ),
    }
    &&& message.role == role_in_message(nic.role)
    &&& message.ip_allocation == allocation_in_message(nic.ip_allocation)
}

impl forge::ExpectedHostNic {
    /// Writes an interface into a message.
    pub fn from(nic: ExpectedHostNic) -> (r: Self)
        ensures
            nic_in_message(nic, r),
    {
        forge::ExpectedHostNic {
            mac_address: nic.mac_address.to_text(),
            nic_type: nic.nic_type,
            fixed_ip: address_to_rpc(nic.fixed_ip),
            fixed_mask: nic.fixed_mask,
            fixed_gateway: address_to_rpc(nic.fixed_gateway),
            primary: nic.primary,
            network_segment_type: match nic.network_segment_type {
                None => None,
                Some(segment_type) => Some(
                    WireSegmentType { number: segment_type.0, decoded: Ok(segment_type) },
                ),
            },
            role: expected_interface_role_to_rpc(nic.role),
            ip_allocation: expected_interface_ip_allocation_to_rpc(nic.ip_allocation),
        }
    }
}

/// Why an interface cannot be read from a message, in the order in which its fields are read.
pub open spec fn nic_failure(message: forge::ExpectedHostNic) -> Option<ConversionFailure> {
    nic_failure_with(message, mac_parsed(message.mac_address@))
}

/// Why an interface cannot be read from a message, where `octets` is what its MAC address is
/// read as.
pub open spec fn nic_failure_with(
    message: forge::ExpectedHostNic,
    octets: Option<Seq<u8>>,
) -> Option<ConversionFailure> {
    if octets is None {
        Some(ConversionFailure::InvalidMacAddress(message.mac_address@))
    } else if address_is_invalid(message.fixed_ip) {
        Some(
            ConversionFailure::InvalidArgument("Invalid fixed IP: "@ + message.fixed_ip->0.text@),
        )
    } else if address_is_invalid(message.fixed_gateway) {
        Some(
            ConversionFailure::InvalidArgument(
                "Invalid fixed gateway: "@ + message.fixed_gateway->0.text@,
            ),
        )
    } else if message.network_segment_type is Some
        && message.network_segment_type->0.decoded is Err {
        Some(message.network_segment_type->0.decoded->Err_0@)
    } else if role_outcome(message.role) is Err {
        Some(role_outcome(message.role)->Err_0)
    } else if allocation_outcome(message.ip_allocation) is Err {
        Some(allocation_outcome(message.ip_allocation)->Err_0)
    } else {
        None
    }
}

/// The interface that a message without failure stands for.
pub open spec fn nic_from_message(message: forge::ExpectedHostNic, nic: ExpectedHostNic) -> bool {
    nic_from_message_with(message, mac_parsed(message.mac_address@), nic)
}

/// The interface that a message without failure stands for, where `octets` is what its MAC
/// address is read as.
pub open spec fn nic_from_message_with(
    message: forge::ExpectedHostNic,
    octets: Option<Seq<u8>>,
    nic: ExpectedHostNic,
) -> bool {
    &&& octets == Some(nic.mac_address.octets())
    &&& nic.nic_type == message.nic_type
    &&& nic.fixed_ip == address_of(message.fixed_ip)
    &&& nic.fixed_mask == message.fixed_mask
    &&& nic.fixed_gateway == address_of(message.fixed_gateway)
    &&& nic.primary == message.primary
    &&& nic.network_segment_type == (match message.network_segment_type {
        None => None,
        Some(segment_type) => Some(segment_type.decoded->Ok_0),
    })
    &&& Ok::<ExpectedInterfaceRole, ConversionFailure>(nic.role) == role_outcome(message.role)
    &&& Ok::<Option<ExpectedInterfaceIpAllocation>, ConversionFailure>(nic.ip_allocation)
        == allocation_outcome(message.ip_allocation)
}

impl ExpectedHostNic {
    /// Reads an interface from a message.
    pub fn try_from(message: forge::ExpectedHostNic) -> (r: Result<Self, RpcDataConversionError>)
        ensures
            match nic_failure(message) {
                Some(failure) => r is Err && r->Err_0@ == failure,
                None => r is Ok && nic_from_message(message, r->Ok_0),
            },
    {
        let mac_address = MacAddress::parse(message.mac_address.as_str());
        ExpectedHostNic::with_mac_address(message, mac_address)
    }

    /// Reads an interface from a message, where `mac_address` is what its MAC address is read
    /// as.
    pub fn with_mac_address(
        message: forge::ExpectedHostNic,
        mac_address: Option<MacAddress>,
    ) -> (r: Result<Self, RpcDataConversionError>)
        ensures
            match nic_failure_with(message, octets_of(mac_address)) {
                Some(failure) => r is Err && r->Err_0@ == failure,
                None => r is Ok && nic_from_message_with(
                    message,
                    octets_of(mac_address),
                    r->Ok_0,
                ),
            },
    {
        let mac_address = match mac_address {
            Some(mac) => mac,
            None => {
                return Err(RpcDataConversionError::InvalidMacAddress(message.mac_address));
            },
        };
        let fixed_ip = match address_from_rpc(message.fixed_ip, "Invalid fixed IP: ") {
            Ok(address) => address,
            Err(error) => {
                return Err(error);
            },
        };
        let fixed_gateway = match address_from_rpc(
            message.fixed_gateway,
            "Invalid fixed gateway: ",
        ) {
            Ok(address) => address,
            Err(error) => {
                return Err(error);
            },
        };
        let network_segment_type = match message.network_segment_type {
            None => None,
            Some(segment_type) => match segment_type.decoded {
                Ok(segment_type) => Some(segment_type),
                Err(error) => {
                    return Err(error);
                },
            },
        };
        let role = match expected_interface_role_from_rpc(message.role) {
            Ok(role) => role,
            Err(error) => {
                return Err(error);
            },
        };
        let ip_allocation = match expected_interface_ip_allocation_from_rpc(message.ip_allocation) {
            Ok(policy) => policy,
            Err(error) => {
                return Err(error);
            },
        };
        Ok(
            ExpectedHostNic {
                mac_address,
                nic_type: message.nic_type,
                fixed_ip,
                fixed_mask: message.fixed_mask,
                fixed_gateway,
                primary: message.primary,
                network_segment_type,
                role,
                ip_allocation,
            },
        )
    }
}

/// An address has a text.
pub open spec fn address_has_text(address: Option<Address>) -> bool {
    address is Some ==> address->0.text@.len() > 0
}

/// A written interface can be read, and reads back as itself.
pub proof fn host_nic_round_trips(
    nic: ExpectedHostNic,
    message: forge::ExpectedHostNic,
    read: ExpectedHostNic,
)
    requires
        nic_in_message(nic, message),
        address_has_text(nic.fixed_ip),
        address_has_text(nic.fixed_gateway),
    ensures
        nic_failure(message) is None,
        nic_from_message(message, read) ==> read == nic,
{
    if nic_from_message(message, read) {
        mac_is_its_octets(nic.mac_address, read.mac_address);
    }
}

/// The data kept about an expected machine.
#[derive(Debug)]
pub struct ExpectedMachineData {
    pub bmc_username: String,
    pub bmc_password: String,
    pub serial_number: String,
    pub fallback_dpu_serial_numbers: Vec<String>,
    pub sku_id: Option<String>,
    pub metadata: Metadata,
    pub host_nics: Vec<ExpectedHostNic>,
    pub rack_id: Option<String>,
    pub default_pause_ingestion_and_poweron: Option<bool>,
    pub dpf_enabled: Option<bool>,
    pub bmc_ip_address: Option<Address>,
    pub bmc_retain_credentials: Option<bool>,
    pub dpu_policy: HostDpuPolicy,
    pub bmc_ip_allocation: BmcIpAllocationType,
    pub host_lifecycle_profile: HostLifecycleProfile,
}

impl Default for ExpectedMachineData {
    fn default() -> (r: Self)
        ensures
            r.bmc_username@ == ""@,
            r.bmc_password@ == ""@,
            r.serial_number@ == ""@,
            r.fallback_dpu_serial_numbers@.len() == 0,
            r.sku_id is None,
            r.metadata.name@ == ""@,
            r.metadata.description@ == ""@,
            r.metadata.labels@.len() == 0,
            r.host_nics@.len() == 0,
            r.rack_id is None,
            r.default_pause_ingestion_and_poweron is None,
            r.dpf_enabled is None,
            r.bmc_ip_address is None,
            r.bmc_retain_credentials is None,
            r.dpu_policy == HostDpuPolicy::Manage,
            r.bmc_ip_allocation == BmcIpAllocationType::Auto,
            r.host_lifecycle_profile.disable_lockdown is None,
    {
        ExpectedMachineData {
            bmc_username: "".to_owned(),
            bmc_password: "".to_owned(),
            serial_number: "".to_owned(),
            fallback_dpu_serial_numbers: Vec::new(),
            sku_id: None,
            metadata: Metadata {
                name: "".to_owned(),
                description: "".to_owned(),
                labels: Vec::new(),
            },
            host_nics: Vec::new(),
            rack_id: None,
            default_pause_ingestion_and_poweron: None,
            dpf_enabled: None,
            bmc_ip_address: None,
            bmc_retain_credentials: None,
            dpu_policy: HostDpuPolicy::default(),
            bmc_ip_allocation: BmcIpAllocationType::default(),
            host_lifecycle_profile: HostLifecycleProfile::default(),
        }
    }
}

/// An expected machine.
#[derive(Debug)]
pub struct ExpectedMachine {
    pub id: Option<Uuid>,
    pub bmc_mac_address: MacAddress,
    pub data: ExpectedMachineData,
}

/// What a message carries for an expected machine.
pub open spec fn machine_in_message(
    machine: ExpectedMachine,
    message: forge::ExpectedMachine<Metadata>,
) -> bool {
    let data = machine.data;
    &&& uuid_in_message(machine.id, message.id)
    &&& mac_in_message(machine.bmc_mac_address, message.bmc_mac_address@)
    &&& message.bmc_username == data.bmc_username
    &&& message.bmc_password == data.bmc_password
    &&& message.chassis_serial_number == data.serial_number
    &&& message.fallback_dpu_serial_numbers == data.fallback_dpu_serial_numbers
    &&& message.metadata == Some(data.metadata)
    &&& message.sku_id == data.sku_id
    &&& message.rack_id == data.rack_id
    &&& message.host_nics@.len() == data.host_nics@.len()
    &&& forall|i: int|
        0 <= i < data.host_nics@.len() ==> nic_in_message(
            #[trigger] data.host_nics@[i],
            message.host_nics@[i],
        )
    &&& message.default_pause_ingestion_and_poweron == data.default_pause_ingestion_and_poweron
    &&& message.dpf_enabled == (data.dpf_enabled != Some(false))
    &&& message.is_dpf_enabled == data.dpf_enabled
    &&& address_in_message(data.bmc_ip_address, message.bmc_ip_address)
    &&& message.bmc_retain_credentials == kept_if_true(data.bmc_retain_credentials)
    &&& policy_number(data.dpu_policy) == (match message.dpu_mode {
        Some(value) => Some(value as int),
        None => None,
    })
    &&& message.bmc_ip_allocation == bmc_allocation_in_message(data.bmc_ip_allocation)
    &&& message.host_lifecycle_profile == (match data.host_lifecycle_profile.disable_lockdown {
        None => None,
        disable_lockdown => Some(forge::HostLifecycleProfile { disable_lockdown }),
    })
}

/// Keeps a flag only where it is set.
pub open spec fn kept_if_true(flag: Option<bool>) -> Option<bool> {
    if flag == Some(true) {
        flag
    } else {
        None
    }
}

/// What a message carries for a BMC allocation: nothing for the default.
pub open spec fn bmc_allocation_in_message(mode: BmcIpAllocationType) -> Option<
    Discriminant<forge::BmcIpAllocationType>,
> {
    if mode == BmcIpAllocationType::Auto {
        None
    } else {
        Some(Discriminant::Known(wire_bmc_allocation(mode)))
    }
}

impl forge::ExpectedMachine<Metadata> {
    /// Writes an expected machine into a message.
    pub fn from(machine: ExpectedMachine) -> (r: Self)
        ensures
            machine_in_message(machine, r),
            r.bmc_username == machine.data.bmc_username,
            r.bmc_password == machine.data.bmc_password,
            r.chassis_serial_number == machine.data.serial_number,
            r.fallback_dpu_serial_numbers == machine.data.fallback_dpu_serial_numbers,
            r.sku_id == machine.data.sku_id,
            r.rack_id == machine.data.rack_id,
            r.default_pause_ingestion_and_poweron
                == machine.data.default_pause_ingestion_and_poweron,
            r.is_dpf_enabled == machine.data.dpf_enabled,
    {
        let mut host_nics: Vec<forge::ExpectedHostNic> = Vec::new();
        let mut i: usize = 0;
        while i < machine.data.host_nics.len()
            invariant
                i <= machine.data.host_nics@.len(),
                host_nics@.len() == i,
                forall|k: int|
                    0 <= k < i ==> nic_in_message(
                        #[trigger] machine.data.host_nics@[k],
                        host_nics@[k],
                    ),
            decreases machine.data.host_nics@.len() - i,
        {
            host_nics.push(forge::ExpectedHostNic::from(machine.data.host_nics[i].clone()));
            i += 1;
        }
        let data = machine.data;
        forge::ExpectedMachine {
            id: uuid_to_rpc(machine.id),
            bmc_mac_address: machine.bmc_mac_address.to_text(),
            bmc_username: data.bmc_username,
            bmc_password: data.bmc_password,
            chassis_serial_number: data.serial_number,
            fallback_dpu_serial_numbers: data.fallback_dpu_serial_numbers,
            metadata: Some(data.metadata),
            sku_id: data.sku_id,
            rack_id: data.rack_id,
            host_nics,
            default_pause_ingestion_and_poweron: data.default_pause_ingestion_and_poweron,
            dpf_enabled: data.dpf_enabled.unwrap_or(true),
            is_dpf_enabled: data.dpf_enabled,
            bmc_ip_address: address_to_rpc(data.bmc_ip_address),
            bmc_retain_credentials: match data.bmc_retain_credentials {
                Some(true) => Some(true),
                _ => None,
            },
            dpu_mode: host_dpu_policy_to_rpc(data.dpu_policy),
            bmc_ip_allocation: match data.bmc_ip_allocation {
                BmcIpAllocationType::Auto => None,
                other => Some(Discriminant::Known(forge::BmcIpAllocationType::from(other))),
            },
            host_lifecycle_profile: if data.host_lifecycle_profile.is_empty() {
                None
            } else {
                Some(
                    forge::HostLifecycleProfile {
                        disable_lockdown: data.host_lifecycle_profile.disable_lockdown,
                    },
                )
            },
        }
    }
}

/// An expected machine with what the site found of it.
#[derive(Debug)]
pub struct LinkedExpectedMachine {
    pub serial_number: String,
    pub bmc_mac_address: MacAddress,
    pub interface_id: Option<String>,
    pub address: Option<Address>,
    pub machine_id: Option<MachineId>,
    pub expected_machine_id: Option<Uuid>,
}

impl forge::LinkedExpectedMachine {
    /// Writes a linked expected machine into a message.
    pub fn from(m: LinkedExpectedMachine) -> (r: Self)
        ensures
            r.chassis_serial_number == m.serial_number,
            mac_in_message(m.bmc_mac_address, r.bmc_mac_address@),
            r.interface_id == m.interface_id,
            r.explored_endpoint_address == (match m.address {
                Some(address) => Some(address.text),
                None => None,
            }),
            r.machine_id == m.machine_id,
            uuid_in_message(m.expected_machine_id, r.expected_machine_id),
    {
        forge::LinkedExpectedMachine {
            chassis_serial_number: m.serial_number,
            bmc_mac_address: m.bmc_mac_address.to_text(),
            interface_id: m.interface_id,
            explored_endpoint_address: match m.address {
                Some(address) => Some(address.text),
                None => None,
            },
            machine_id: m.machine_id,
            expected_machine_id: uuid_to_rpc(m.expected_machine_id),
        }
    }
}

/// A machine that the site found and nobody expected.
#[derive(Debug)]
pub struct UnexpectedMachine {
    pub address: Address,
    pub bmc_mac_address: MacAddress,
    pub machine_id: Option<MachineId>,
}

impl forge::UnexpectedMachine {
    /// Writes an unexpected machine into a message.
    pub fn from(m: UnexpectedMachine) -> (r: Self)
        ensures
            r.address == m.address.text,
            mac_in_message(m.bmc_mac_address, r.bmc_mac_address@),
            r.machine_id == m.machine_id,
    {
        forge::UnexpectedMachine {
            address: m.address.text,
            bmc_mac_address: m.bmc_mac_address.to_text(),
            machine_id: m.machine_id,
        }
    }
}

/// Why received metadata is refused: it could not be read, or did not pass validation.
pub open spec fn metadata_failure(metadata: Option<ReceivedMetadata>) -> Option<
    ConversionFailure,
> {
    match metadata {
        None => None,
        Some(received) => match received.converted {
            Err(error) => Some(error@),
            Ok(_) => match received.validation {
                Err(text) => Some(ConversionFailure::InvalidArgument(text@)),
                Ok(_) => None,
            },
        },
    }
}

/// The metadata that a message stands for: empty where it carries none.
pub open spec fn metadata_from_message(
    message: Option<ReceivedMetadata>,
    metadata: Metadata,
) -> bool {
    match message {
        None => metadata.name@ == ""@ && metadata.description@ == ""@ && metadata.labels@.len()
            == 0,
        Some(received) => received.converted == Ok::<Metadata, RpcDataConversionError>(metadata),
    }
}

/// Takes the metadata of a request if it is valid, and empty metadata where there is none.
pub fn metadata_from_request(metadata: Option<ReceivedMetadata>) -> (r: Result<
    Metadata,
    RpcDataConversionError,
>)
    ensures
        match metadata_failure(metadata) {
            Some(failure) => r is Err && r->Err_0@ == failure,
            None => r is Ok && metadata_from_message(metadata, r->Ok_0),
        },
{
    match metadata {
        None => Ok(
            Metadata { name: "".to_owned(), description: "".to_owned(), labels: Vec::new() },
        ),
        Some(received) => match received.converted {
            Err(error) => Err(error),
            Ok(metadata) => match received.validation {
                Err(text) => Err(RpcDataConversionError::InvalidArgument(text)),
                Ok(()) => Ok(metadata),
            },
        },
    }
}

/// The failure of the first interface that cannot be read.
pub open spec fn first_nic_failure(nics: Seq<forge::ExpectedHostNic>) -> Option<ConversionFailure>
    decreases nics.len(),
{
    if nics.len() == 0 {
        None
    } else {
        match first_nic_failure(nics.drop_last()) {
            Some(failure) => Some(failure),
            None => nic_failure(nics.last()),
        }
    }
}

/// Reads the interfaces of a machine, stopping at the first that cannot be read.
fn host_nics_from_rpc(nics: Vec<forge::ExpectedHostNic>) -> (r: Result<
    Vec<ExpectedHostNic>,
    RpcDataConversionError,
>)
    ensures
        match first_nic_failure(nics@) {
            Some(failure) => r is Err && r->Err_0@ == failure,
            None => {
                &&& r is Ok
                &&& r->Ok_0@.len() == nics@.len()
                &&& forall|i: int|
                    0 <= i < nics@.len() ==> nic_from_message(nics@[i], #[trigger] r->Ok_0@[i])
            },
        },
{
    let ghost all = nics@;
    let count: usize = nics.len();
    let mut host_nics: Vec<ExpectedHostNic> = Vec::new();
    let mut rest = nics;
    let mut i: usize = 0;
    assert(all.subrange(0, count as int) =~= all);
    while i < count
        invariant
            i <= count,
            count == all.len(),
            all == nics@,
            rest@ == all.subrange(i as int, count as int),
            first_nic_failure(all.subrange(0, i as int)) is None,
            host_nics@.len() == i,
            forall|k: int| 0 <= k < i ==> nic_from_message(all[k], #[trigger] host_nics@[k]),
        decreases count - i,
    {
        let message = rest.remove(0);
        proof {
            assert(rest@ =~= all.subrange(i + 1, count as int));
            assert(message == all[i as int]);
            assert(all.subrange(0, i + 1).drop_last() =~= all.subrange(0, i as int));
            assert(all.subrange(0, i + 1).last() == message);
        }
        match ExpectedHostNic::try_from(message) {
            Ok(nic) => {
                host_nics.push(nic);
            },
            Err(error) => {
                proof {
                    failure_of_prefix(all, i + 1);
                }
                return Err(error);
            },
        }
        i += 1;
    }
    assert(all.subrange(0, count as int) =~= all);
    Ok(host_nics)
}

proof fn failure_of_prefix(nics: Seq<forge::ExpectedHostNic>, n: int)
    requires
        0 <= n <= nics.len(),
        first_nic_failure(nics.subrange(0, n)) is Some,
    ensures
        first_nic_failure(nics) == first_nic_failure(nics.subrange(0, n)),
    decreases nics.len(),
{
    if n == nics.len() {
        assert(nics.subrange(0, n) =~= nics);
    } else {
        assert(nics.drop_last().subrange(0, n) =~= nics.subrange(0, n));
        failure_of_prefix(nics.drop_last(), n);
    }
}

/// What reading a BMC allocation from a message gives.
pub open spec fn bmc_allocation_outcome(
    mode: Option<Discriminant<forge::BmcIpAllocationType>>,
) -> Result<BmcIpAllocationType, ConversionFailure> {
    match mode {
        None => Ok(BmcIpAllocationType::Auto),
        Some(Discriminant::Known(mode)) => Ok(bmc_allocation_of(mode)),
        Some(Discriminant::Unknown(number)) => Err(
            ConversionFailure::InvalidArgument(
                "Invalid bmc_ip_allocation: "@ + signed_decimal_text(number as int),
            ),
        ),
    }
}

fn bmc_allocation_from_rpc(mode: Option<Discriminant<forge::BmcIpAllocationType>>) -> (r: Result<
    BmcIpAllocationType,
    RpcDataConversionError,
>)
    ensures
        bmc_allocation_outcome(mode) == (match r {
            Ok(mode) => Ok(mode),
            Err(error) => Err(error@),
        }),
{
    match mode {
        None => Ok(BmcIpAllocationType::default()),
        Some(Discriminant::Known(mode)) => Ok(BmcIpAllocationType::from(mode)),
        Some(Discriminant::Unknown(number)) => {
            let number_text = signed_decimal(number as i64);
            Err(
                RpcDataConversionError::InvalidArgument(
                    concat2("Invalid bmc_ip_allocation: ", number_text.as_str()),
                ),
            )
        },
    }
}

/// Why a machine cannot be read from a message: its metadata, then its interfaces, its BMC
/// address and its BMC allocation must be readable.
pub open spec fn machine_failure(
    message: forge::ExpectedMachine<ReceivedMetadata>,
) -> Option<ConversionFailure> {
    if metadata_failure(message.metadata) is Some {
        metadata_failure(message.metadata)
    } else if first_nic_failure(message.host_nics@) is Some {
        first_nic_failure(message.host_nics@)
    } else if address_is_invalid(message.bmc_ip_address) {
        Some(
            ConversionFailure::InvalidArgument(
                "Invalid BMC IP address: "@ + message.bmc_ip_address->0.text@,
            ),
        )
    } else if bmc_allocation_outcome(message.bmc_ip_allocation) is Err {
        Some(bmc_allocation_outcome(message.bmc_ip_allocation)->Err_0)
    } else {
        None
    }
}

/// The data that a message without failure stands for.
pub open spec fn data_from_message(
    message: forge::ExpectedMachine<ReceivedMetadata>,
    data: ExpectedMachineData,
) -> bool {
    &&& data.bmc_username == message.bmc_username
    &&& data.bmc_password == message.bmc_password
    &&& data.serial_number == message.chassis_serial_number
    &&& data.fallback_dpu_serial_numbers == message.fallback_dpu_serial_numbers
    &&& data.sku_id == message.sku_id
    &&& metadata_from_message(message.metadata, data.metadata)
    &&& data.host_nics@.len() == message.host_nics@.len()
    &&& forall|i: int|
        0 <= i < message.host_nics@.len() ==> nic_from_message(
            message.host_nics@[i],
            #[trigger] data.host_nics@[i],
        )
    &&& data.rack_id == message.rack_id
    &&& data.default_pause_ingestion_and_poweron == message.default_pause_ingestion_and_poweron
    &&& data.dpf_enabled == message.is_dpf_enabled
    &&& data.bmc_ip_address == address_of(message.bmc_ip_address)
    &&& data.bmc_retain_credentials == message.bmc_retain_credentials
    &&& data.dpu_policy == policy_from_number(message.dpu_mode)
    &&& Ok::<BmcIpAllocationType, ConversionFailure>(data.bmc_ip_allocation)
        == bmc_allocation_outcome(message.bmc_ip_allocation)
    &&& data.host_lifecycle_profile.disable_lockdown == (match message.host_lifecycle_profile {
        Some(profile) => profile.disable_lockdown,
        None => None,
    })
}

impl ExpectedMachineData {
    /// Reads the data of an expected machine from a message.
    pub fn try_from(message: forge::ExpectedMachine<ReceivedMetadata>) -> (r: Result<
        Self,
        RpcDataConversionError,
    >)
        ensures
            match machine_failure(message) {
                Some(failure) => r is Err && r->Err_0@ == failure,
                None => r is Ok && data_from_message(message, r->Ok_0),
            },
            r matches Ok(data) ==> {
                &&& data.bmc_username == message.bmc_username
                &&& data.bmc_password == message.bmc_password
                &&& data.serial_number == message.chassis_serial_number
                &&& data.fallback_dpu_serial_numbers == message.fallback_dpu_serial_numbers
                &&& data.sku_id == message.sku_id
                &&& data.rack_id == message.rack_id
                &&& data.default_pause_ingestion_and_poweron
                    == message.default_pause_ingestion_and_poweron
                &&& data.dpf_enabled == message.is_dpf_enabled
                &&& data.bmc_retain_credentials == message.bmc_retain_credentials
            },
    {
        let metadata = match metadata_from_request(message.metadata) {
            Ok(metadata) => metadata,
            Err(error) => {
                return Err(error);
            },
        };
        let host_nics = match host_nics_from_rpc(message.host_nics) {
            Ok(host_nics) => host_nics,
            Err(error) => {
                return Err(error);
            },
        };
        let bmc_ip_address = match address_from_rpc(
            message.bmc_ip_address,
            "Invalid BMC IP address: ",
        ) {
            Ok(address) => address,
            Err(error) => {
                return Err(error);
            },
        };
        let bmc_ip_allocation = match bmc_allocation_from_rpc(message.bmc_ip_allocation) {
            Ok(mode) => mode,
            Err(error) => {
                return Err(error);
            },
        };
        Ok(
            ExpectedMachineData {
                bmc_username: message.bmc_username,
                bmc_password: message.bmc_password,
                serial_number: message.chassis_serial_number,
                fallback_dpu_serial_numbers: message.fallback_dpu_serial_numbers,
                sku_id: message.sku_id,
                metadata,
                host_nics,
                rack_id: message.rack_id,
                default_pause_ingestion_and_poweron: message.default_pause_ingestion_and_poweron,
                dpf_enabled: message.is_dpf_enabled,
                bmc_ip_address,
                bmc_retain_credentials: message.bmc_retain_credentials,
                dpu_policy: host_dpu_policy_from_rpc(message.dpu_mode),
                bmc_ip_allocation,
                host_lifecycle_profile: match message.host_lifecycle_profile {
                    Some(profile) => HostLifecycleProfile {
                        disable_lockdown: profile.disable_lockdown,
                    },
                    None => HostLifecycleProfile::default(),
                },
            },
        )
    }
}

/// The same flag, choice and data as written, but for a credential flag that was explicitly
/// off: it is not written.
pub open spec fn data_as_written(data: ExpectedMachineData, read: ExpectedMachineData) -> bool {
    &&& read.bmc_username == data.bmc_username
    &&& read.bmc_password == data.bmc_password
    &&& read.serial_number == data.serial_number
    &&& read.fallback_dpu_serial_numbers == data.fallback_dpu_serial_numbers
    &&& read.sku_id == data.sku_id
    &&& read.metadata == data.metadata
    &&& read.host_nics@ == data.host_nics@
    &&& read.rack_id == data.rack_id
    &&& read.default_pause_ingestion_and_poweron == data.default_pause_ingestion_and_poweron
    &&& read.dpf_enabled == data.dpf_enabled
    &&& read.bmc_ip_address == data.bmc_ip_address
    &&& read.bmc_retain_credentials == kept_if_true(data.bmc_retain_credentials)
    &&& read.dpu_policy == data.dpu_policy
    &&& read.bmc_ip_allocation == data.bmc_ip_allocation
    &&& read.host_lifecycle_profile == data.host_lifecycle_profile
}

/// A message as it is received after it was sent: nothing changes on the way, and its
/// metadata is read as what was sent and found valid.
pub open spec fn received_as_sent(
    sent: forge::ExpectedMachine<Metadata>,
    received: forge::ExpectedMachine<ReceivedMetadata>,
) -> bool {
    &&& received.id == sent.id
    &&& received.bmc_mac_address == sent.bmc_mac_address
    &&& received.bmc_username == sent.bmc_username
    &&& received.bmc_password == sent.bmc_password
    &&& received.chassis_serial_number == sent.chassis_serial_number
    &&& received.fallback_dpu_serial_numbers == sent.fallback_dpu_serial_numbers
    &&& sent.metadata is Some
    &&& received.metadata == Some(
        ReceivedMetadata { converted: Ok(sent.metadata->0), validation: Ok(()) },
    )
    &&& received.sku_id == sent.sku_id
    &&& received.rack_id == sent.rack_id
    &&& received.host_nics == sent.host_nics
    &&& received.default_pause_ingestion_and_poweron == sent.default_pause_ingestion_and_poweron
    &&& received.dpf_enabled == sent.dpf_enabled
    &&& received.is_dpf_enabled == sent.is_dpf_enabled
    &&& received.bmc_ip_address == sent.bmc_ip_address
    &&& received.bmc_retain_credentials == sent.bmc_retain_credentials
    &&& received.dpu_mode == sent.dpu_mode
    &&& received.bmc_ip_allocation == sent.bmc_ip_allocation
    &&& received.host_lifecycle_profile == sent.host_lifecycle_profile
}

/// A written machine can be read, and its data reads back as written.
pub proof fn expected_machine_round_trips(
    machine: ExpectedMachine,
    sent: forge::ExpectedMachine<Metadata>,
    received: forge::ExpectedMachine<ReceivedMetadata>,
    read: ExpectedMachineData,
)
    requires
        machine_in_message(machine, sent),
        received_as_sent(sent, received),
        address_has_text(machine.data.bmc_ip_address),
        forall|i: int|
            0 <= i < machine.data.host_nics@.len() ==> address_has_text(
                (#[trigger] machine.data.host_nics@[i]).fixed_ip,
            ) && address_has_text(machine.data.host_nics@[i].fixed_gateway),
    ensures
        machine_failure(received) is None,
        data_from_message(received, read) ==> data_as_written(machine.data, read),
{
    let nics = machine.data.host_nics@;
    assert forall|i: int| 0 <= i < nics.len() implies nic_failure(
        #[trigger] received.host_nics@[i],
    ) is None by {
        host_nic_round_trips(nics[i], received.host_nics@[i], nics[i]);
    }
    no_failure_without_a_failing_nic(received.host_nics@);
    if data_from_message(received, read) {
        assert forall|i: int| 0 <= i < nics.len() implies #[trigger] read.host_nics@[i]
            == nics[i] by {
            host_nic_round_trips(nics[i], received.host_nics@[i], read.host_nics@[i]);
        }
        assert(read.host_nics@ =~= nics);
    }
}

proof fn no_failure_without_a_failing_nic(nics: Seq<forge::ExpectedHostNic>)
    requires
        forall|i: int| 0 <= i < nics.len() ==> nic_failure(#[trigger] nics[i]) is None,
    ensures
        first_nic_failure(nics) is None,
    decreases nics.len(),
{
    if nics.len() > 0 {
        assert forall|i: int| 0 <= i < nics.drop_last().len() implies nic_failure(
            #[trigger] nics.drop_last()[i],
        ) is None by {
            assert(nics.drop_last()[i] == nics[i]);
        }
        no_failure_without_a_failing_nic(nics.drop_last());
        assert(nics.last() == nics[nics.len() - 1]);
    }
}

/// Writing a policy and reading it again gives the policy.
pub proof fn dpu_policy_round_trips(policy: HostDpuPolicy, number: Option<i32>)
    requires
        policy_number(policy) == (match number {
            Some(value) => Some(value as int),
            None => None,
        }),
    ensures
        policy_from_number(number) == policy,
{
}

/// Writing a role and reading it again gives the role.
pub proof fn interface_role_round_trips(role: ExpectedInterfaceRole)
    ensures
        role_outcome(role_in_message(role)) == Ok::<ExpectedInterfaceRole, ConversionFailure>(role),
{
}

/// Writing an allocation policy and reading it again gives the policy.
pub proof fn ip_allocation_round_trips(policy: Option<ExpectedInterfaceIpAllocation>)
    ensures
        allocation_outcome(allocation_in_message(policy)) == Ok::<
            Option<ExpectedInterfaceIpAllocation>,
            ConversionFailure,
        >(policy),
{
}

/// Writing a BMC allocation and reading it again gives the allocation.
pub proof fn bmc_allocation_round_trips(mode: BmcIpAllocationType)
    ensures
        bmc_allocation_outcome(bmc_allocation_in_message(mode)) == Ok::<
            BmcIpAllocationType,
            ConversionFailure,
        >(mode),
{
}

/// Whether lockdown is disabled survives reading a message, writing the data again and
/// reading that message: a declared value stays, and where none is declared no profile is
/// written.
pub proof fn disable_lockdown_round_trips(
    received: forge::ExpectedMachine<ReceivedMetadata>,
    machine: ExpectedMachine,
    sent: forge::ExpectedMachine<Metadata>,
)
    requires
        data_from_message(received, machine.data),
        machine_in_message(machine, sent),
    ensures
        received.host_lifecycle_profile is Some
            && received.host_lifecycle_profile->0.disable_lockdown is Some
            ==> sent.host_lifecycle_profile == received.host_lifecycle_profile,
        received.host_lifecycle_profile is None ==> sent.host_lifecycle_profile is None,
{
}

} // verus!
