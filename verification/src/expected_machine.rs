//! The choices that a declaration of an expected machine makes, and their reading from and
//! writing to messages.
use vstd::prelude::*;
use vstd::std_specs::convert::FromSpecImpl;

use crate::forge;
use crate::forge::{ConversionFailure, Discriminant, RpcDataConversionError};
use crate::text::{concat2, signed_decimal, signed_decimal_text};

verus! {

/// What the site does with the DPUs of a host.
#[derive(Clone, Copy, Debug, PartialEq, Eq, Structural)]
pub enum HostDpuPolicy {
    Manage,
    Nic,
    Ignore,
}

impl Default for HostDpuPolicy {
    fn default() -> (r: Self)
        ensures
            r == HostDpuPolicy::Manage,
    {
        HostDpuPolicy::Manage
    }
}

impl From<HostDpuPolicy> for forge::DpuMode {
    fn from(policy: HostDpuPolicy) -> (r: Self) {
        match policy {
            HostDpuPolicy::Manage => forge::DpuMode::DpuMode,
            HostDpuPolicy::Nic => forge::DpuMode::NicMode,
            HostDpuPolicy::Ignore => forge::DpuMode::NoDpu,
        }
    }
}

impl FromSpecImpl<HostDpuPolicy> for forge::DpuMode {
    open spec fn obeys_from_spec() -> bool {
        true
    }

    open spec fn from_spec(policy: HostDpuPolicy) -> Self {
        mode_of(policy)
    }
}

/// The mode that stands for a policy in a message.
pub open spec fn mode_of(policy: HostDpuPolicy) -> forge::DpuMode {
    match policy {
        HostDpuPolicy::Manage => forge::DpuMode::DpuMode,
        HostDpuPolicy::Nic => forge::DpuMode::NicMode,
        HostDpuPolicy::Ignore => forge::DpuMode::NoDpu,
    }
}

/// The policy that a mode stands for; no particular mode stands for managing the DPUs.
pub open spec fn policy_of(mode: forge::DpuMode) -> HostDpuPolicy {
    match mode {
        forge::DpuMode::DpuMode => HostDpuPolicy::Manage,
        forge::DpuMode::NicMode => HostDpuPolicy::Nic,
        forge::DpuMode::NoDpu => HostDpuPolicy::Ignore,
        forge::DpuMode::Unspecified => HostDpuPolicy::Manage,
    }
}

impl From<forge::DpuMode> for HostDpuPolicy {
    fn from(mode: forge::DpuMode) -> (r: Self) {
        match mode {
            forge::DpuMode::DpuMode => HostDpuPolicy::Manage,
            forge::DpuMode::NicMode => HostDpuPolicy::Nic,
            forge::DpuMode::NoDpu => HostDpuPolicy::Ignore,
            forge::DpuMode::Unspecified => HostDpuPolicy::default(),
        }
    }
}

impl FromSpecImpl<forge::DpuMode> for HostDpuPolicy {
    open spec fn obeys_from_spec() -> bool {
        true
    }

    open spec fn from_spec(mode: forge::DpuMode) -> Self {
        policy_of(mode)
    }
}

/// The policy that a message's number stands for: NIC mode and no DPU by their numbers, and
/// managing for everything else, be it absent or unknown.
pub open spec fn policy_from_number(dpu_mode: Option<i32>) -> HostDpuPolicy {
    if dpu_mode == Some(2i32) {
        HostDpuPolicy::Nic
    } else if dpu_mode == Some(3i32) {
        HostDpuPolicy::Ignore
    } else {
        HostDpuPolicy::Manage
    }
}

/// Reads the policy from a message. Missing, unspecified and unknown values mean the default.
pub fn host_dpu_policy_from_rpc(dpu_mode: Option<i32>) -> (r: HostDpuPolicy)
    ensures
        r == policy_from_number(dpu_mode),
{
    match dpu_mode {
        None => HostDpuPolicy::default(),
        Some(value) => match forge::DpuMode::from_wire_value(value) {
            Some(mode) => HostDpuPolicy::from(mode),
            None => HostDpuPolicy::default(),
        },
    }
}

/// The number that a message carries for a policy: none for the default.
pub open spec fn policy_number(policy: HostDpuPolicy) -> Option<int> {
    if policy == HostDpuPolicy::Manage {
        None
    } else {
        Some(mode_of(policy).number())
    }
}

/// Writes the policy into a message. The default is represented by absence.
pub fn host_dpu_policy_to_rpc(policy: HostDpuPolicy) -> (r: Option<i32>)
    ensures
        policy_number(policy) == (match r {
            Some(value) => Some(value as int),
            None => None,
        }),
{
    match policy {
        HostDpuPolicy::Manage => None,
        _ => Some(forge::DpuMode::from(policy).wire_value()),
    }
}

/// What an expected interface belongs to.
#[derive(Clone, Copy, Debug, PartialEq, Eq, Structural)]
pub enum ExpectedInterfaceRole {
    Host,
    DpuOs,
    DpuBmc,
}

impl Default for ExpectedInterfaceRole {
    fn default() -> (r: Self)
        ensures
            r == ExpectedInterfaceRole::Host,
    {
        ExpectedInterfaceRole::Host
    }
}

impl ExpectedInterfaceRole {
    /// Whether the interface belongs to the host itself.
    pub fn is_host(self) -> (r: bool)
        ensures
            r == (self == ExpectedInterfaceRole::Host),
    {
        match self {
            ExpectedInterfaceRole::Host => true,
            _ => false,
        }
    }
}

/// The message's name for a role.
pub open spec fn wire_role(role: ExpectedInterfaceRole) -> forge::ExpectedInterfaceRole {
    match role {
        ExpectedInterfaceRole::Host => forge::ExpectedInterfaceRole::Host,
        ExpectedInterfaceRole::DpuOs => forge::ExpectedInterfaceRole::DpuOs,
        ExpectedInterfaceRole::DpuBmc => forge::ExpectedInterfaceRole::DpuBmc,
    }
}

/// The role that a message's name stands for; an unspecified one is the host's.
pub open spec fn role_of(role: forge::ExpectedInterfaceRole) -> ExpectedInterfaceRole {
    match role {
        forge::ExpectedInterfaceRole::Unspecified => ExpectedInterfaceRole::Host,
        forge::ExpectedInterfaceRole::Host => ExpectedInterfaceRole::Host,
        forge::ExpectedInterfaceRole::DpuOs => ExpectedInterfaceRole::DpuOs,
        forge::ExpectedInterfaceRole::DpuBmc => ExpectedInterfaceRole::DpuBmc,
    }
}

impl From<ExpectedInterfaceRole> for forge::ExpectedInterfaceRole {
    fn from(role: ExpectedInterfaceRole) -> (r: Self) {
        match role {
            ExpectedInterfaceRole::Host => forge::ExpectedInterfaceRole::Host,
            ExpectedInterfaceRole::DpuOs => forge::ExpectedInterfaceRole::DpuOs,
            ExpectedInterfaceRole::DpuBmc => forge::ExpectedInterfaceRole::DpuBmc,
        }
    }
}

impl FromSpecImpl<ExpectedInterfaceRole> for forge::ExpectedInterfaceRole {
    open spec fn obeys_from_spec() -> bool {
        true
    }

    open spec fn from_spec(role: ExpectedInterfaceRole) -> Self {
        wire_role(role)
    }
}

impl From<forge::ExpectedInterfaceRole> for ExpectedInterfaceRole {
    fn from(role: forge::ExpectedInterfaceRole) -> (r: Self) {
        match role {
            forge::ExpectedInterfaceRole::Unspecified | forge::ExpectedInterfaceRole::Host => {
                ExpectedInterfaceRole::Host
            },
            forge::ExpectedInterfaceRole::DpuOs => ExpectedInterfaceRole::DpuOs,
            forge::ExpectedInterfaceRole::DpuBmc => ExpectedInterfaceRole::DpuBmc,
        }
    }
}

impl FromSpecImpl<forge::ExpectedInterfaceRole> for ExpectedInterfaceRole {
    open spec fn obeys_from_spec() -> bool {
        true
    }

    open spec fn from_spec(role: forge::ExpectedInterfaceRole) -> Self {
        role_of(role)
    }
}

/// What reading a role from a message gives.
pub open spec fn role_outcome(
    role: Option<Discriminant<forge::ExpectedInterfaceRole>>,
) -> Result<ExpectedInterfaceRole, ConversionFailure> {
    match role {
        None => Ok(ExpectedInterfaceRole::Host),
        Some(Discriminant::Known(role)) => Ok(role_of(role)),
        Some(Discriminant::Unknown(number)) => Err(
            ConversionFailure::InvalidArgument(
                "invalid expected interface role: "@ + signed_decimal_text(number as int),
            ),
        ),
    }
}

/// Reads a role from a message: an absent one is the host's, a number without a name is
/// refused.
pub fn expected_interface_role_from_rpc(
    role: Option<Discriminant<forge::ExpectedInterfaceRole>>,
) -> (r: Result<ExpectedInterfaceRole, RpcDataConversionError>)
    ensures
        role_outcome(role) == (match r {
            Ok(role) => Ok(role),
            Err(error) => Err(error@),
        }),
{
    match role {
        None => Ok(ExpectedInterfaceRole::default()),
        Some(Discriminant::Known(role)) => Ok(ExpectedInterfaceRole::from(role)),
        Some(Discriminant::Unknown(number)) => {
            let number_text = signed_decimal(number as i64);
            Err(
                RpcDataConversionError::InvalidArgument(
                    concat2("invalid expected interface role: ", number_text.as_str()),
                ),
            )
        },
    }
}

/// What a message carries for a role: nothing for the host's.
pub open spec fn role_in_message(
    role: ExpectedInterfaceRole,
) -> Option<Discriminant<forge::ExpectedInterfaceRole>> {
    if role == ExpectedInterfaceRole::Host {
        None
    } else {
        Some(Discriminant::Known(wire_role(role)))
    }
}

/// Writes a role into a message. The host's is represented by absence.
pub fn expected_interface_role_to_rpc(role: ExpectedInterfaceRole) -> (r: Option<
    Discriminant<forge::ExpectedInterfaceRole>,
>)
    ensures
        r == role_in_message(role),
{
    match role {
        ExpectedInterfaceRole::Host => None,
        _ => Some(Discriminant::Known(forge::ExpectedInterfaceRole::from(role))),
    }
}

/// How an expected interface gets its address.
#[derive(Clone, Copy, Debug, PartialEq, Eq, Structural)]
pub enum ExpectedInterfaceIpAllocation {
    Dynamic,
    Fixed,
    Retained,
}

/// The message's name for a policy.
pub open spec fn wire_allocation(
    policy: ExpectedInterfaceIpAllocation,
) -> forge::ExpectedInterfaceIpAllocation {
    match policy {
        ExpectedInterfaceIpAllocation::Dynamic => forge::ExpectedInterfaceIpAllocation::Dynamic,
        ExpectedInterfaceIpAllocation::Fixed => forge::ExpectedInterfaceIpAllocation::Fixed,
        ExpectedInterfaceIpAllocation::Retained => forge::ExpectedInterfaceIpAllocation::Retained,
    }
}

/// The policy that a message's name stands for; an unspecified one stands for none.
pub open spec fn allocation_of(
    policy: forge::ExpectedInterfaceIpAllocation,
) -> Option<ExpectedInterfaceIpAllocation> {
    match policy {
        forge::ExpectedInterfaceIpAllocation::Unspecified => None,
        forge::ExpectedInterfaceIpAllocation::Dynamic => Some(
            ExpectedInterfaceIpAllocation::Dynamic,
        ),
        forge::ExpectedInterfaceIpAllocation::Fixed => Some(ExpectedInterfaceIpAllocation::Fixed),
        forge::ExpectedInterfaceIpAllocation::Retained => Some(
            ExpectedInterfaceIpAllocation::Retained,
        ),
    }
}

impl From<ExpectedInterfaceIpAllocation> for forge::ExpectedInterfaceIpAllocation {
    fn from(policy: ExpectedInterfaceIpAllocation) -> (r: Self) {
        match policy {
            ExpectedInterfaceIpAllocation::Dynamic => forge::ExpectedInterfaceIpAllocation::Dynamic,
            ExpectedInterfaceIpAllocation::Fixed => forge::ExpectedInterfaceIpAllocation::Fixed,
            ExpectedInterfaceIpAllocation::Retained => {
                forge::ExpectedInterfaceIpAllocation::Retained
            },
        }
    }
}

impl FromSpecImpl<ExpectedInterfaceIpAllocation> for forge::ExpectedInterfaceIpAllocation {
    open spec fn obeys_from_spec() -> bool {
        true
    }

    open spec fn from_spec(policy: ExpectedInterfaceIpAllocation) -> Self {
        wire_allocation(policy)
    }
}

impl ExpectedInterfaceIpAllocation {
    /// The policy that a message's name stands for; an unspecified one is refused.
    pub fn try_from(policy: forge::ExpectedInterfaceIpAllocation) -> (r: Result<
        Self,
        RpcDataConversionError,
    >)
        ensures
            match allocation_of(policy) {
                Some(policy) => r == Ok::<Self, RpcDataConversionError>(policy),
                None => r is Err && r->Err_0@ == ConversionFailure::InvalidArgument(
                    "expected interface IP allocation is unspecified"@,
                ),
            },
    {
        match policy {
            forge::ExpectedInterfaceIpAllocation::Unspecified => Err(
                RpcDataConversionError::InvalidArgument(
                    "expected interface IP allocation is unspecified".to_owned(),
                ),
            ),
            forge::ExpectedInterfaceIpAllocation::Dynamic => Ok(
                ExpectedInterfaceIpAllocation::Dynamic,
            ),
            forge::ExpectedInterfaceIpAllocation::Fixed => Ok(ExpectedInterfaceIpAllocation::Fixed),
            forge::ExpectedInterfaceIpAllocation::Retained => Ok(
                ExpectedInterfaceIpAllocation::Retained,
            ),
        }
    }
}

/// What reading an allocation policy from a message gives.
pub open spec fn allocation_outcome(
    policy: Option<Discriminant<forge::ExpectedInterfaceIpAllocation>>,
) -> Result<Option<ExpectedInterfaceIpAllocation>, ConversionFailure> {
    match policy {
        None => Ok(None),
        Some(Discriminant::Known(policy)) => Ok(allocation_of(policy)),
        Some(Discriminant::Unknown(number)) => Err(
            ConversionFailure::InvalidArgument(
                "invalid expected interface IP allocation: "@ + signed_decimal_text(number as int),
            ),
        ),
    }
}

/// Reads an allocation policy from a message: an absent or unspecified one stays absent, a
/// number without a name is refused.
pub fn expected_interface_ip_allocation_from_rpc(
    policy: Option<Discriminant<forge::ExpectedInterfaceIpAllocation>>,
) -> (r: Result<Option<ExpectedInterfaceIpAllocation>, RpcDataConversionError>)
    ensures
        allocation_outcome(policy) == (match r {
            Ok(policy) => Ok(policy),
            Err(error) => Err(error@),
        }),
{
    match policy {
        None => Ok(None),
        Some(Discriminant::Unknown(number)) => {
            let number_text = signed_decimal(number as i64);
            Err(
                RpcDataConversionError::InvalidArgument(
                    concat2("invalid expected interface IP allocation: ", number_text.as_str()),
                ),
            )
        },
        Some(Discriminant::Known(forge::ExpectedInterfaceIpAllocation::Unspecified)) => Ok(None),
        Some(Discriminant::Known(policy)) => {
            match ExpectedInterfaceIpAllocation::try_from(policy) {
                Ok(policy) => Ok(Some(policy)),
                Err(error) => Err(error),
            }
        },
    }
}

/// What a message carries for an allocation policy.
pub open spec fn allocation_in_message(policy: Option<ExpectedInterfaceIpAllocation>) -> Option<
    Discriminant<forge::ExpectedInterfaceIpAllocation>,
> {
    match policy {
        None => None,
        Some(policy) => Some(Discriminant::Known(wire_allocation(policy))),
    }
}

/// Writes an allocation policy into a message; an absent one stays absent.
pub fn expected_interface_ip_allocation_to_rpc(
    policy: Option<ExpectedInterfaceIpAllocation>,
) -> (r: Option<Discriminant<forge::ExpectedInterfaceIpAllocation>>)
    ensures
        r == allocation_in_message(policy),
{
    match policy {
        None => None,
        Some(policy) => Some(
            Discriminant::Known(forge::ExpectedInterfaceIpAllocation::from(policy)),
        ),
    }
}

/// How a BMC gets its address.
#[derive(Clone, Copy, Debug, PartialEq, Eq, Structural)]
pub enum BmcIpAllocationType {
    Auto,
    Dynamic,
    Fixed,
    Retained,
}

impl Default for BmcIpAllocationType {
    fn default() -> (r: Self)
        ensures
            r == BmcIpAllocationType::Auto,
    {
        BmcIpAllocationType::Auto
    }
}

/// The message's name for a BMC allocation.
pub open spec fn wire_bmc_allocation(mode: BmcIpAllocationType) -> forge::BmcIpAllocationType {
    match mode {
        BmcIpAllocationType::Auto => forge::BmcIpAllocationType::Auto,
        BmcIpAllocationType::Dynamic => forge::BmcIpAllocationType::Dynamic,
        BmcIpAllocationType::Fixed => forge::BmcIpAllocationType::Fixed,
        BmcIpAllocationType::Retained => forge::BmcIpAllocationType::Retained,
    }
}

/// The BMC allocation that a message's name stands for; an unspecified one is automatic.
pub open spec fn bmc_allocation_of(mode: forge::BmcIpAllocationType) -> BmcIpAllocationType {
    match mode {
        forge::BmcIpAllocationType::Auto => BmcIpAllocationType::Auto,
        forge::BmcIpAllocationType::Dynamic => BmcIpAllocationType::Dynamic,
        forge::BmcIpAllocationType::Fixed => BmcIpAllocationType::Fixed,
        forge::BmcIpAllocationType::Retained => BmcIpAllocationType::Retained,
        forge::BmcIpAllocationType::Unspecified => BmcIpAllocationType::Auto,
    }
}

impl From<BmcIpAllocationType> for forge::BmcIpAllocationType {
    fn from(mode: BmcIpAllocationType) -> (r: Self) {
        match mode {
            BmcIpAllocationType::Auto => forge::BmcIpAllocationType::Auto,
            BmcIpAllocationType::Dynamic => forge::BmcIpAllocationType::Dynamic,
            BmcIpAllocationType::Fixed => forge::BmcIpAllocationType::Fixed,
            BmcIpAllocationType::Retained => forge::BmcIpAllocationType::Retained,
        }
    }
}

impl FromSpecImpl<BmcIpAllocationType> for forge::BmcIpAllocationType {
    open spec fn obeys_from_spec() -> bool {
        true
    }

    open spec fn from_spec(mode: BmcIpAllocationType) -> Self {
        wire_bmc_allocation(mode)
    }
}

impl From<forge::BmcIpAllocationType> for BmcIpAllocationType {
    fn from(mode: forge::BmcIpAllocationType) -> (r: Self) {
        match mode {
            forge::BmcIpAllocationType::Auto => BmcIpAllocationType::Auto,
            forge::BmcIpAllocationType::Dynamic => BmcIpAllocationType::Dynamic,
            forge::BmcIpAllocationType::Fixed => BmcIpAllocationType::Fixed,
            forge::BmcIpAllocationType::Retained => BmcIpAllocationType::Retained,
            forge::BmcIpAllocationType::Unspecified => BmcIpAllocationType::default(),
        }
    }
}

impl FromSpecImpl<forge::BmcIpAllocationType> for BmcIpAllocationType {
    open spec fn obeys_from_spec() -> bool {
        true
    }

    open spec fn from_spec(mode: forge::BmcIpAllocationType) -> Self {
        bmc_allocation_of(mode)
    }
}

/// Settings of a host's life cycle.
#[derive(Clone, Copy, Debug, PartialEq, Eq)]
pub struct HostLifecycleProfile {
    pub disable_lockdown: Option<bool>,
}

impl Default for HostLifecycleProfile {
    fn default() -> (r: Self)
        ensures
            r.disable_lockdown is None,
    {
        HostLifecycleProfile { disable_lockdown: None }
    }
}

impl HostLifecycleProfile {
    /// Whether nothing is set.
    pub fn is_empty(&self) -> (r: bool)
        ensures
            r == (self.disable_lockdown is None),
    {
        self.disable_lockdown.is_none()
    }
}

/// The kind of a network segment, by its number.
#[derive(Clone, Copy, Debug, PartialEq, Eq, Structural)]
pub struct NetworkSegmentType(pub i32);

/// Descriptive data of an object.
#[derive(Debug)]
pub struct Metadata {
    pub name: String,
    pub description: String,
    pub labels: Vec<(String, String)>,
}

} // verus!
