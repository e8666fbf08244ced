//! The messages that travel between clients and the service about expected machines.
//!
//! Two things are decided before a message reaches the library, because the tables they
//! depend on belong to the message definitions: which name an enumeration's number has, and
//! whether a textual address is one. A message field carries the outcome beside the raw value.
use vstd::prelude::*;

use crate::addresses::{Address, MachineId};
use crate::expected_machine::{Metadata, NetworkSegmentType};

verus! {

/// How a host's DPUs are run, as a message says it.
#[derive(Clone, Copy, Debug, PartialEq, Eq, Structural)]
pub enum DpuMode {
    Unspecified,
    DpuMode,
    NicMode,
    NoDpu,
}

impl DpuMode {
    /// The number of the mode in a message.
    pub open spec fn number(self) -> int {
        match self {
            DpuMode::Unspecified => 0,
            DpuMode::DpuMode => 1,
            DpuMode::NicMode => 2,
            DpuMode::NoDpu => 3,
        }
    }

    /// The number of the mode in a message.
    pub fn wire_value(self) -> (r: i32)
        ensures
            r == self.number(),
    {
        match self {
            DpuMode::Unspecified => 0,
            DpuMode::DpuMode => 1,
            DpuMode::NicMode => 2,
            DpuMode::NoDpu => 3,
        }
    }

    /// The mode with this number, where there is one.
    pub fn from_wire_value(value: i32) -> (r: Option<DpuMode>)
        ensures
            match r {
                Some(mode) => mode.number() == value,
                None => value < 0 || value > 3,
            },
    {
        if value == 0 {
            Some(DpuMode::Unspecified)
        } else if value == 1 {
            Some(DpuMode::DpuMode)
        } else if value == 2 {
            Some(DpuMode::NicMode)
        } else if value == 3 {
            Some(DpuMode::NoDpu)
        } else {
            None
        }
    }
}

/// What an expected interface belongs to, as a message says it.
#[derive(Clone, Copy, Debug, PartialEq, Eq, Structural)]
pub enum ExpectedInterfaceRole {
    Unspecified,
    Host,
    DpuOs,
    DpuBmc,
}

/// How an expected interface gets its address, as a message says it.
#[derive(Clone, Copy, Debug, PartialEq, Eq, Structural)]
pub enum ExpectedInterfaceIpAllocation {
    Unspecified,
    Dynamic,
    Fixed,
    Retained,
}

/// How a BMC gets its address, as a message says it.
#[derive(Clone, Copy, Debug, PartialEq, Eq, Structural)]
pub enum BmcIpAllocationType {
    Unspecified,
    Auto,
    Dynamic,
    Fixed,
    Retained,
}

/// The number of an enumeration in a message: one that has a name, or one that has none.
#[derive(Debug)]
pub enum Discriminant<T> {
    Known(T),
    Unknown(i32),
}

/// A textual address in a message, with what it was read as; `parsed` is absent where the
/// text is no address.
#[derive(Debug)]
pub struct WireAddress {
    pub text: String,
    pub parsed: Option<Address>,
}

/// The number of a network segment type in a message, with what it was read as.
#[derive(Debug)]
pub struct WireSegmentType {
    pub number: i32,
    pub decoded: Result<NetworkSegmentType, RpcDataConversionError>,
}

/// The metadata of a received message: what it was read as, and whether it passed the
/// validation of metadata.
#[derive(Debug)]
pub struct ReceivedMetadata {
    pub converted: Result<Metadata, RpcDataConversionError>,
    pub validation: Result<(), String>,
}

/// Why a message could not be read.
#[derive(Debug)]
pub enum RpcDataConversionError {
    InvalidArgument(String),
    InvalidMacAddress(String),
    /// A failure reported by the reader of a nested value.
    Other(String),
}

/// Why a message could not be read, with texts as characters.
pub enum ConversionFailure {
    InvalidArgument(Seq<char>),
    InvalidMacAddress(Seq<char>),
    Other(Seq<char>),
}

impl View for RpcDataConversionError {
    type V = ConversionFailure;

    open spec fn view(&self) -> ConversionFailure {
        match *self {
            RpcDataConversionError::InvalidArgument(text) => ConversionFailure::InvalidArgument(
                text@,
            ),
            RpcDataConversionError::InvalidMacAddress(
                text,
            ) => ConversionFailure::InvalidMacAddress(text@),
            RpcDataConversionError::Other(text) => ConversionFailure::Other(text@),
        }
    }
}

/// A request that names an expected machine.
#[derive(Debug)]
pub struct ExpectedMachineRequest {
    pub id: Option<String>,
    pub bmc_mac_address: String,
}

/// An interface that a host is expected to have.
#[derive(Debug)]
pub struct ExpectedHostNic {
    pub mac_address: String,
    pub nic_type: Option<String>,
    pub fixed_ip: Option<WireAddress>,
    pub fixed_mask: Option<String>,
    pub fixed_gateway: Option<WireAddress>,
    pub primary: Option<bool>,
    pub network_segment_type: Option<WireSegmentType>,
    pub role: Option<Discriminant<ExpectedInterfaceRole>>,
    pub ip_allocation: Option<Discriminant<ExpectedInterfaceIpAllocation>>,
}

/// Settings of a host's life cycle.
#[derive(Clone, Copy, Debug, PartialEq, Eq)]
pub struct HostLifecycleProfile {
    pub disable_lockdown: Option<bool>,
}

/// A machine that is expected at the site. `M` is the form of its metadata: `Metadata` in a
/// message that is sent, `ReceivedMetadata` in one that was received.
#[derive(Debug)]
pub struct ExpectedMachine<M> {
    pub id: Option<String>,
    pub bmc_mac_address: String,
    pub bmc_username: String,
    pub bmc_password: String,
    pub chassis_serial_number: String,
    pub fallback_dpu_serial_numbers: Vec<String>,
    pub metadata: Option<M>,
    pub sku_id: Option<String>,
    pub rack_id: Option<String>,
    pub host_nics: Vec<ExpectedHostNic>,
    pub default_pause_ingestion_and_poweron: Option<bool>,
    pub dpf_enabled: bool,
    pub is_dpf_enabled: Option<bool>,
    pub bmc_ip_address: Option<WireAddress>,
    pub bmc_retain_credentials: Option<bool>,
    pub dpu_mode: Option<i32>,
    pub bmc_ip_allocation: Option<Discriminant<BmcIpAllocationType>>,
    pub host_lifecycle_profile: Option<HostLifecycleProfile>,
}

/// An expected machine with what the site found of it.
#[derive(Debug)]
pub struct LinkedExpectedMachine {
    pub chassis_serial_number: String,
    pub bmc_mac_address: String,
    pub interface_id: Option<String>,
    pub explored_endpoint_address: Option<String>,
    pub machine_id: Option<MachineId>,
    pub expected_machine_id: Option<String>,
}

/// A machine that the site found and nobody expected.
#[derive(Debug)]
pub struct UnexpectedMachine {
    pub address: String,
    pub bmc_mac_address: String,
    pub machine_id: Option<MachineId>,
}

} // verus!
