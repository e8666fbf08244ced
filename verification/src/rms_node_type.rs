//! Node identities for the rack manager, built from rack profiles.
//!
//! Only the inputs of a descriptor are validated: a product family and a vendor for the role,
//! neither of them blank. Whether a descriptor is supported is for the rack manager to
//! decide. A legacy node type is added for known combinations and never limits a descriptor.
use vstd::prelude::*;
use vstd::string::StrSliceExecFns;

use crate::text::{
    ascii_lowered, characters, concat3, text_eq, trim, trimmed,
};

verus! {

/// A rack profile lacks data that a descriptor needs.
#[derive(Clone, Copy, Debug, PartialEq, Eq)]
pub enum NodeDescriptorError {
    /// The profile does not identify a product family.
    MissingProductFamily,
    /// The profile does not identify a vendor for the role.
    VendorMissing { role: &'static str },
}

/// The text of an error.
pub open spec fn descriptor_error_text(error: NodeDescriptorError) -> Seq<char> {
    match error {
        NodeDescriptorError::MissingProductFamily =>
            "rack profile does not identify an RMS product family"@,
        NodeDescriptorError::VendorMissing { role } =>
            "rack profile does not identify an RMS "@ + role@ + " vendor"@,
    }
}

impl NodeDescriptorError {
    /// The text of the error.
    pub fn message(&self) -> (r: String)
        ensures
            r@ == descriptor_error_text(*self),
    {
        match self {
            NodeDescriptorError::MissingProductFamily => {
                "rack profile does not identify an RMS product family".to_owned()
            },
            NodeDescriptorError::VendorMissing { role } => {
                concat3("rack profile does not identify an RMS ", role, " vendor")
            },
        }
    }
}

/// The part that a node plays in a rack.
#[derive(Clone, Copy, Debug, PartialEq, Eq, Structural)]
pub enum RmsNodeRole {
    Compute,
    Switch,
    PowerShelf,
}

/// The role as it stands in a descriptor.
pub open spec fn role_value(role: RmsNodeRole) -> Seq<char> {
    match role {
        RmsNodeRole::Compute => "compute"@,
        RmsNodeRole::Switch => "switch"@,
        RmsNodeRole::PowerShelf => "power_shelf"@,
    }
}

/// The role as it stands in a message to people.
pub open spec fn role_label(role: RmsNodeRole) -> Seq<char> {
    match role {
        RmsNodeRole::Compute => "compute"@,
        RmsNodeRole::Switch => "switch"@,
        RmsNodeRole::PowerShelf => "power shelf"@,
    }
}

impl RmsNodeRole {
    /// The role as it stands in a descriptor.
    pub fn descriptor_value(self) -> (r: &'static str)
        ensures
            r@ == role_value(self),
    {
        match self {
            RmsNodeRole::Compute => "compute",
            RmsNodeRole::Switch => "switch",
            RmsNodeRole::PowerShelf => "power_shelf",
        }
    }

    /// The role as it stands in a message to people.
    pub fn label(self) -> (r: &'static str)
        ensures
            r@ == role_label(self),
    {
        match self {
            RmsNodeRole::Compute => "compute",
            RmsNodeRole::Switch => "switch",
            RmsNodeRole::PowerShelf => "power shelf",
        }
    }
}

/// The product family of a rack.
#[derive(Debug)]
pub enum RackProductFamily {
    Gb200,
    Gb300,
    Other(String),
}

/// The text of a product family.
pub open spec fn family_text(family: RackProductFamily) -> Seq<char> {
    match family {
        RackProductFamily::Gb200 => "gb200"@,
        RackProductFamily::Gb300 => "gb300"@,
        RackProductFamily::Other(text) => trimmed(text@),
    }
}

impl RackProductFamily {
    /// The text of the product family, without outer whitespace.
    pub fn to_text(&self) -> (r: String)
        ensures
            r@ == family_text(*self),
    {
        match self {
            RackProductFamily::Gb200 => "gb200".to_owned(),
            RackProductFamily::Gb300 => "gb300".to_owned(),
            RackProductFamily::Other(text) => trim(text.as_str()),
        }
    }
}

/// What a rack profile says of the rack that descriptors are built from.
#[derive(Debug)]
pub struct RackProfile {
    pub product_family: Option<RackProductFamily>,
    pub rack_hardware_type: Option<String>,
    pub compute_vendor: Option<String>,
    pub switch_vendor: Option<String>,
    pub power_shelf_vendor: Option<String>,
}

impl Default for RackProfile {
    fn default() -> (r: Self)
        ensures
            r.product_family is None,
            r.rack_hardware_type is None,
            r.compute_vendor is None,
            r.switch_vendor is None,
            r.power_shelf_vendor is None,
    {
        RackProfile {
            product_family: None,
            rack_hardware_type: None,
            compute_vendor: None,
            switch_vendor: None,
            power_shelf_vendor: None,
        }
    }
}

/// The node types that were in use before descriptors.
#[derive(Clone, Copy, Debug, PartialEq, Eq, Structural)]
pub enum NodeType {
    ComputeGb200Nvidia,
    ComputeGb300Nvidia,
    ComputeGb300Lenovo,
    ComputeVrnvl72Nvidia,
    SwitchGb200Nvidia,
    SwitchGb300Nvidia,
    SwitchVrnvl72Nvidia,
    PowershelfGb200Liteon,
    PowershelfGb200Delta,
    PowershelfGb300Liteon,
    PowershelfGb300Delta,
}

/// A descriptor: attributes by name. Of attributes with the same name the first one counts.
#[derive(Debug)]
pub struct NodeDescriptor {
    pub attributes: Vec<(String, String)>,
}

impl NodeDescriptor {
    /// The names and values of the attributes.
    pub open spec fn entries(self) -> Seq<(Seq<char>, Seq<char>)> {
        self.attributes@.map_values(|entry: (String, String)| (entry.0@, entry.1@))
    }

    /// Whether the attribute at this position is the first with this name.
    pub open spec fn first_at(self, name: Seq<char>, position: int) -> bool {
        &&& 0 <= position < self.entries().len()
        &&& self.entries()[position].0 == name
        &&& forall|k: int| 0 <= k < position ==> (#[trigger] self.entries()[k]).0 != name
    }

    /// The value of the first attribute with this name.
    pub fn get(&self, name: &str) -> (r: Option<String>)
        ensures
            match r {
                Some(value) => exists|i: int| #[trigger]
                    self.first_at(name@, i) && self.entries()[i].1 == value@,
                None => forall|i: int|
                    0 <= i < self.entries().len() ==> (#[trigger] self.entries()[i]).0 != name@,
            },
    {
        let mut i: usize = 0;
        while i < self.attributes.len()
            invariant
                i <= self.attributes.len(),
                forall|k: int| 0 <= k < i ==> (#[trigger] self.entries()[k]).0 != name@,
            decreases self.attributes.len() - i,
        {
            let ghost entry = self.entries()[i as int];
            if text_eq(self.attributes[i].0.as_str(), name) {
                assert(entry == (name@, self.attributes@[i as int].1@));
                assert(self.first_at(name@, i as int));
                return Some(self.attributes[i].1.clone());
            }
            i += 1;
        }
        None
    }
}

impl Clone for NodeDescriptor {
    fn clone(&self) -> (r: Self)
        ensures
            r.attributes@ == self.attributes@,
            r.entries() == self.entries(),
    {
        let mut attributes: Vec<(String, String)> = Vec::new();
        let mut i: usize = 0;
        while i < self.attributes.len()
            invariant
                i <= self.attributes.len(),
                attributes@ == self.attributes@.subrange(0, i as int),
            decreases self.attributes.len() - i,
        {
            attributes.push((self.attributes[i].0.clone(), self.attributes[i].1.clone()));
            assert(attributes@ =~= self.attributes@.subrange(0, i + 1));
            i += 1;
        }
        assert(self.attributes@.subrange(0, self.attributes@.len() as int) =~= self.attributes@);
        NodeDescriptor { attributes }
    }
}

/// The credentials and address by which a node's controller is reached.
#[derive(Debug)]
pub struct Endpoint {
    pub ip_address: String,
    pub mac_address: String,
    pub port: u32,
    pub credentials: Option<UsernamePassword>,
}

/// A user name with its password.
#[derive(Debug)]
pub struct UsernamePassword {
    pub username: String,
    pub password: String,
}

impl Clone for UsernamePassword {
    fn clone(&self) -> (r: Self)
        ensures
            r == *self,
    {
        UsernamePassword { username: self.username.clone(), password: self.password.clone() }
    }
}

/// A node in a request to the rack manager.
#[derive(Debug)]
pub struct NodeInfo {
    pub node_id: String,
    pub rack_id: String,
    pub node_type: Option<NodeType>,
    pub node_descriptor: Option<NodeDescriptor>,
    pub bmc_endpoint: Option<Endpoint>,
}

/// The identity of a node: a descriptor with role, vendor and product family, and the legacy
/// node type where the combination has one.
#[derive(Debug)]
pub struct RmsNodeIdentity {
    pub role: RmsNodeRole,
    pub legacy_node_type: Option<NodeType>,
    pub node_descriptor: NodeDescriptor,
}

impl RmsNodeIdentity {
    /// Gives a node in a request this identity: always the descriptor, and the legacy type or
    /// none.
    pub fn apply_to_node_info(&self, node: &mut NodeInfo)
        ensures
            final(node).node_id == old(node).node_id,
            final(node).rack_id == old(node).rack_id,
            final(node).bmc_endpoint == old(node).bmc_endpoint,
            final(node).node_type == self.legacy_node_type,
            final(node).node_descriptor is Some,
            final(node).node_descriptor->0.entries() == self.node_descriptor.entries(),
    {
        node.node_type = self.legacy_node_type;
        node.node_descriptor = Some(self.node_descriptor.clone());
    }

    /// Whether the host endpoint of a switch belongs into requests about this node.
    pub fn is_switch(&self) -> (r: bool)
        ensures
            r == (self.role == RmsNodeRole::Switch),
    {
        matches!(self.role, RmsNodeRole::Switch)
    }
}

/// Without spaces, hyphens and underscores.
pub open spec fn without_separators(s: Seq<char>) -> Seq<char>
    decreases s.len(),
{
    if s.len() == 0 {
        s
    } else if s.last() == ' ' || s.last() == '-' || s.last() == '_' {
        without_separators(s.drop_last())
    } else {
        without_separators(s.drop_last()).push(s.last())
    }
}

/// The form in which descriptor values are matched.
pub open spec fn normalized(s: Seq<char>) -> Seq<char> {
    without_separators(trimmed(s).map_values(|c: char| ascii_lowered(c)))
}

fn ascii_lower(c: char) -> (r: char)
    ensures
        r == ascii_lowered(c),
{
    if 'A' <= c && c <= 'Z' {
        ((c as u8) + 32u8) as char
    } else {
        c
    }
}

/// The form in which descriptor values are matched: without outer whitespace, in small
/// letters, without spaces, hyphens and underscores.
pub fn normalize_descriptor_value(value: &str) -> (r: String)
    ensures
        r@ == normalized(value@),
{
    let outer = trim(value);
    let chars = characters(outer.as_str());
    let ghost lowered = chars@.map_values(|c: char| ascii_lowered(c));
    let mut r = String::new();
    let mut i: usize = 0;
    assert(lowered.subrange(0, 0) =~= seq![]);
    assert(r@ =~= without_separators(lowered.subrange(0, 0)));
    while i < chars.len()
        invariant
            i <= chars.len(),
            lowered == chars@.map_values(|c: char| ascii_lowered(c)),
            r@ == without_separators(lowered.subrange(0, i as int)),
        decreases chars.len() - i,
    {
        let ghost next = lowered.subrange(0, i + 1);
        assert(next.drop_last() =~= lowered.subrange(0, i as int));
        assert(next.last() == ascii_lowered(chars@[i as int]));
        let c = ascii_lower(chars[i]);
        if c != ' ' && c != '-' && c != '_' {
            r.push(c);
        }
        i += 1;
    }
    assert(lowered.subrange(0, lowered.len() as int) =~= lowered);
    r
}

/// The legacy type of a role with a normalized family and vendor.
pub open spec fn legacy_type_of(
    role: RmsNodeRole,
    family: Seq<char>,
    vendor: Seq<char>,
) -> Option<NodeType> {
    match role {
        RmsNodeRole::Compute => if family == "gb200"@ && vendor == "nvidia"@ {
            Some(NodeType::ComputeGb200Nvidia)
        } else if family == "gb300"@ && vendor == "nvidia"@ {
            Some(NodeType::ComputeGb300Nvidia)
        } else if family == "gb300"@ && vendor == "lenovo"@ {
            Some(NodeType::ComputeGb300Lenovo)
        } else if family == "vrnvl72"@ && vendor == "nvidia"@ {
            Some(NodeType::ComputeVrnvl72Nvidia)
        } else {
            None
        },
        RmsNodeRole::Switch => if family == "gb200"@ && vendor == "nvidia"@ {
            Some(NodeType::SwitchGb200Nvidia)
        } else if family == "gb300"@ && vendor == "nvidia"@ {
            Some(NodeType::SwitchGb300Nvidia)
        } else if family == "vrnvl72"@ && vendor == "nvidia"@ {
            Some(NodeType::SwitchVrnvl72Nvidia)
        } else {
            None
        },
        RmsNodeRole::PowerShelf => if family == "gb200"@ && vendor == "liteon"@ {
            Some(NodeType::PowershelfGb200Liteon)
        } else if family == "gb200"@ && vendor == "delta"@ {
            Some(NodeType::PowershelfGb200Delta)
        } else if family == "gb300"@ && vendor == "liteon"@ {
            Some(NodeType::PowershelfGb300Liteon)
        } else if family == "gb300"@ && vendor == "delta"@ {
            Some(NodeType::PowershelfGb300Delta)
        } else {
            None
        },
    }
}

/// The legacy type of a combination, where it has one. A combination without one is no error.
pub fn legacy_node_type(role: RmsNodeRole, product_family: &str, vendor: &str) -> (r: Option<
    NodeType,
>)
    ensures
        r == legacy_type_of(role, normalized(product_family@), normalized(vendor@)),
{
    let family = normalize_descriptor_value(product_family);
    let vendor = normalize_descriptor_value(vendor);
    let gb200 = text_eq(family.as_str(), "gb200");
    let gb300 = text_eq(family.as_str(), "gb300");
    let vrnvl72 = text_eq(family.as_str(), "vrnvl72");
    let nvidia = text_eq(vendor.as_str(), "nvidia");
    match role {
        RmsNodeRole::Compute => if gb200 && nvidia {
            Some(NodeType::ComputeGb200Nvidia)
        } else if gb300 && nvidia {
            Some(NodeType::ComputeGb300Nvidia)
        } else if gb300 && text_eq(vendor.as_str(), "lenovo") {
            Some(NodeType::ComputeGb300Lenovo)
        } else if vrnvl72 && nvidia {
            Some(NodeType::ComputeVrnvl72Nvidia)
        } else {
            None
        },
        RmsNodeRole::Switch => if gb200 && nvidia {
            Some(NodeType::SwitchGb200Nvidia)
        } else if gb300 && nvidia {
            Some(NodeType::SwitchGb300Nvidia)
        } else if vrnvl72 && nvidia {
            Some(NodeType::SwitchVrnvl72Nvidia)
        } else {
            None
        },
        RmsNodeRole::PowerShelf => {
            let liteon = text_eq(vendor.as_str(), "liteon");
            let delta = text_eq(vendor.as_str(), "delta");
            if gb200 && liteon {
                Some(NodeType::PowershelfGb200Liteon)
            } else if gb200 && delta {
                Some(NodeType::PowershelfGb200Delta)
            } else if gb300 && liteon {
                Some(NodeType::PowershelfGb300Liteon)
            } else if gb300 && delta {
                Some(NodeType::PowershelfGb300Delta)
            } else {
                None
            }
        },
    }
}

/// The vendor that a profile declares for a role.
pub open spec fn declared_vendor(profile: RackProfile, role: RmsNodeRole) -> Option<String> {
    match role {
        RmsNodeRole::Compute => profile.compute_vendor,
        RmsNodeRole::Switch => profile.switch_vendor,
        RmsNodeRole::PowerShelf => profile.power_shelf_vendor,
    }
}

/// The vendor of a role without outer whitespace, where there is more than whitespace.
pub open spec fn vendor_text(profile: RackProfile, role: RmsNodeRole) -> Option<Seq<char>> {
    match declared_vendor(profile, role) {
        Some(vendor) => if trimmed(vendor@).len() == 0 {
            None
        } else {
            Some(trimmed(vendor@))
        },
        None => None,
    }
}

/// The vendor of a role without outer whitespace, where there is more than whitespace.
pub fn vendor_for_role(profile: &RackProfile, role: RmsNodeRole) -> (r: Option<String>)
    ensures
        vendor_text(*profile, role) == (match r {
            Some(vendor) => Some(vendor@),
            None => None,
        }),
{
    let declared = match role {
        RmsNodeRole::Compute => &profile.compute_vendor,
        RmsNodeRole::Switch => &profile.switch_vendor,
        RmsNodeRole::PowerShelf => &profile.power_shelf_vendor,
    };
    match declared {
        Some(vendor) => {
            let vendor = trim(vendor.as_str());
            if vendor.as_str().is_empty() {
                None
            } else {
                Some(vendor)
            }
        },
        None => None,
    }
}

/// The product family of a profile, where it is not blank.
pub open spec fn profile_family(profile: RackProfile) -> Option<Seq<char>> {
    match profile.product_family {
        Some(family) => if family_text(family).len() == 0 {
            None
        } else {
            Some(family_text(family))
        },
        None => None,
    }
}

/// The attributes of a descriptor.
pub open spec fn descriptor_entries(
    role: RmsNodeRole,
    vendor: Seq<char>,
    family: Seq<char>,
) -> Seq<(Seq<char>, Seq<char>)> {
    seq![("role"@, role_value(role)), ("vendor"@, vendor), ("product_family"@, family)]
}

/// What building an identity gives: the family must be there, then the vendor; the legacy
/// type decides nothing.
pub open spec fn identity_outcome(
    profile: RackProfile,
    role: RmsNodeRole,
    r: Result<RmsNodeIdentity, NodeDescriptorError>,
) -> bool {
    match profile_family(profile) {
        None => r == Err::<RmsNodeIdentity, NodeDescriptorError>(
            NodeDescriptorError::MissingProductFamily,
        ),
        Some(family) => match vendor_text(profile, role) {
            None => r is Err && r->Err_0 is VendorMissing && r->Err_0->role@ == role_label(role),
            Some(vendor) => {
                &&& r is Ok
                &&& r->Ok_0.role == role
                &&& r->Ok_0.legacy_node_type == legacy_type_of(
                    role,
                    normalized(family),
                    normalized(vendor),
                )
                &&& r->Ok_0.node_descriptor.entries() == descriptor_entries(role, vendor, family)
            },
        },
    }
}

/// Builds the identity of a node with this role in a rack with this profile.
pub fn node_identity_for_profile(profile: &RackProfile, role: RmsNodeRole) -> (r: Result<
    RmsNodeIdentity,
    NodeDescriptorError,
>)
    ensures
        identity_outcome(*profile, role, r),
{
    let family = match &profile.product_family {
        None => {
            return Err(NodeDescriptorError::MissingProductFamily);
        },
        Some(family) => family.to_text(),
    };
    if family.as_str().is_empty() {
        return Err(NodeDescriptorError::MissingProductFamily);
    }
    let vendor = match vendor_for_role(profile, role) {
        None => {
            return Err(NodeDescriptorError::VendorMissing { role: role.label() });
        },
        Some(vendor) => vendor,
    };
    let legacy = legacy_node_type(role, family.as_str(), vendor.as_str());
    let mut attributes: Vec<(String, String)> = Vec::new();
    let ghost family_chars = family@;
    let ghost vendor_chars = vendor@;
    attributes.push(("role".to_owned(), role.descriptor_value().to_owned()));
    attributes.push(("vendor".to_owned(), vendor));
    attributes.push(("product_family".to_owned(), family));
    let node_descriptor = NodeDescriptor { attributes };
    assert(node_descriptor.entries() =~= descriptor_entries(role, vendor_chars, family_chars));
    Ok(RmsNodeIdentity { role, legacy_node_type: legacy, node_descriptor })
}

/// Builds the identity of a compute node.
pub fn compute_node_identity_for_profile(profile: &RackProfile) -> (r: Result<
    RmsNodeIdentity,
    NodeDescriptorError,
>)
    ensures
        identity_outcome(*profile, RmsNodeRole::Compute, r),
{
    node_identity_for_profile(profile, RmsNodeRole::Compute)
}

/// Builds the identity of a switch.
pub fn switch_node_identity_for_profile(profile: &RackProfile) -> (r: Result<
    RmsNodeIdentity,
    NodeDescriptorError,
>)
    ensures
        identity_outcome(*profile, RmsNodeRole::Switch, r),
{
    node_identity_for_profile(profile, RmsNodeRole::Switch)
}

/// Builds the identity of a power shelf.
pub fn power_shelf_node_identity_for_profile(profile: &RackProfile) -> (r: Result<
    RmsNodeIdentity,
    NodeDescriptorError,
>)
    ensures
        identity_outcome(*profile, RmsNodeRole::PowerShelf, r),
{
    node_identity_for_profile(profile, RmsNodeRole::PowerShelf)
}

/// The components of which a firmware object is wanted.
#[derive(Debug)]
pub struct FirmwareObjectComponentFilter {
    pub components: Vec<String>,
}

/// A component filter for the nodes of a legacy type.
#[derive(Debug)]
pub struct NodeTypeComponentFilter {
    pub node_type: NodeType,
    pub component_filter: FirmwareObjectComponentFilter,
}

/// A component filter for the nodes with a descriptor.
#[derive(Debug)]
pub struct NodeDescriptorFirmwareObjectComponentFilter {
    pub node_descriptor: NodeDescriptor,
    pub component_filter: FirmwareObjectComponentFilter,
}

/// Whether one of the identities has this legacy type.
pub open spec fn some_identity_has_type(
    identities: Seq<RmsNodeIdentity>,
    node_type: NodeType,
) -> bool {
    exists|i: int|
        0 <= i < identities.len() && (#[trigger] identities[i]).legacy_node_type == Some(node_type)
}

/// Whether the filters are for this legacy type somewhere.
pub open spec fn some_filter_has_type(
    filters: Seq<NodeTypeComponentFilter>,
    node_type: NodeType,
) -> bool {
    exists|i: int| 0 <= i < filters.len() && (#[trigger] filters[i]).node_type == node_type
}

/// No legacy type has two filters, and every filter is for these components.
pub open spec fn type_filters_are_distinct(
    filters: Seq<NodeTypeComponentFilter>,
    components: Seq<String>,
) -> bool {
    &&& forall|i: int, j: int|
        #![trigger filters[i], filters[j]]
        0 <= i < j < filters.len() ==> filters[i].node_type != filters[j].node_type
    &&& forall|i: int|
        0 <= i < filters.len() ==> (#[trigger] filters[i]).component_filter.components@
            == components
}

/// Component filters for nodes: one for each legacy type that occurs, and one for each
/// identity by its descriptor, in the order of the identities. Without components there are
/// no filters.
pub fn firmware_object_component_filters_for_node_identities(
    components: &Vec<String>,
    node_identities: &Vec<RmsNodeIdentity>,
) -> (r: (Vec<NodeTypeComponentFilter>, Vec<NodeDescriptorFirmwareObjectComponentFilter>))
    ensures
        components@.len() == 0 ==> r.0@.len() == 0 && r.1@.len() == 0,
        components@.len() > 0 ==> {
            &&& type_filters_are_distinct(r.0@, components@)
            &&& forall|node_type: NodeType| #[trigger]
                some_filter_has_type(r.0@, node_type) <==> some_identity_has_type(
                    node_identities@,
                    node_type,
                )
            &&& r.1@.len() == node_identities@.len()
            &&& forall|i: int|
                0 <= i < node_identities@.len() ==> (
                #[trigger] r.1@[i]).node_descriptor.entries()
                    == node_identities@[i].node_descriptor.entries()
                    && r.1@[i].component_filter.components@ == components@
        },
{
    let mut type_filters: Vec<NodeTypeComponentFilter> = Vec::new();
    let mut descriptor_filters: Vec<NodeDescriptorFirmwareObjectComponentFilter> = Vec::new();
    if components.len() == 0 {
        return (type_filters, descriptor_filters);
    }
    let mut i: usize = 0;
    while i < node_identities.len()
        invariant
            i <= node_identities.len(),
            type_filters_are_distinct(type_filters@, components@),
            forall|node_type: NodeType| #[trigger]
                some_filter_has_type(type_filters@, node_type) <==> exists|k: int|
                    0 <= k < i && (#[trigger] node_identities@[k]).legacy_node_type == Some(
                        node_type,
                    ),
            descriptor_filters@.len() == i,
            forall|k: int|
                0 <= k < i ==> (#[trigger] descriptor_filters@[k]).node_descriptor.entries()
                    == node_identities@[k].node_descriptor.entries()
                    && descriptor_filters@[k].component_filter.components@ == components@,
        decreases node_identities.len() - i,
    {
        let ghost before = type_filters@;
        if let Some(node_type) = node_identities[i].legacy_node_type {
            if !filters_have_type(&type_filters, node_type) {
                type_filters.push(
                    NodeTypeComponentFilter {
                        node_type,
                        component_filter: FirmwareObjectComponentFilter {
                            components: components.clone(),
                        },
                    },
                );
                proof {
                    assert(type_filters@[before.len() as int].node_type == node_type);
                    assert forall|t: NodeType| #[trigger]
                        some_filter_has_type(type_filters@, t) <==> some_filter_has_type(before, t)
                            || t == node_type by {
                        if some_filter_has_type(before, t) {
                            let k = choose|k: int|
                                0 <= k < before.len() && (#[trigger] before[k]).node_type == t;
                            assert(type_filters@[k].node_type == t);
                        }
                        if some_filter_has_type(type_filters@, t) {
                            let k = choose|k: int|
                                0 <= k < type_filters@.len() && (
                                #[trigger] type_filters@[k]).node_type == t;
                            if k < before.len() {
                                assert(before[k].node_type == t);
                            }
                        }
                    }
                    assert forall|a: int, b: int|
                        #![trigger type_filters@[a], type_filters@[b]]
                        0 <= a < b < type_filters@.len() implies type_filters@[a].node_type
                        != type_filters@[b].node_type by {
                        assert(type_filters@[a] == before[a]);
                        if b < before.len() {
                            assert(type_filters@[b] == before[b]);
                        } else {
                            assert(!some_filter_has_type(before, node_type));
                        }
                    }
                }
            }
        }
        proof {
            assert forall|t: NodeType| #[trigger]
                some_filter_has_type(type_filters@, t) <==> exists|k: int|
                    0 <= k < i + 1 && (#[trigger] node_identities@[k]).legacy_node_type == Some(
                        t,
                    ) by {
                if node_identities@[i as int].legacy_node_type == Some(t) {
                    assert(some_filter_has_type(type_filters@, t));
                }
                if some_filter_has_type(type_filters@, t) {
                    assert(some_filter_has_type(before, t)
                        || node_identities@[i as int].legacy_node_type == Some(t));
                }
                if some_filter_has_type(before, t) {
                    assert(some_filter_has_type(type_filters@, t));
                }
            }
        }
        descriptor_filters.push(
            NodeDescriptorFirmwareObjectComponentFilter {
                node_descriptor: node_identities[i].node_descriptor.clone(),
                component_filter: FirmwareObjectComponentFilter { components: components.clone() },
            },
        );
        i += 1;
    }
    (type_filters, descriptor_filters)
}

fn filters_have_type(filters: &Vec<NodeTypeComponentFilter>, node_type: NodeType) -> (r: bool)
    ensures
        r == some_filter_has_type(filters@, node_type),
{
    let mut i: usize = 0;
    while i < filters.len()
        invariant
            i <= filters.len(),
            forall|k: int| 0 <= k < i ==> (#[trigger] filters@[k]).node_type != node_type,
        decreases filters.len() - i,
    {
        if filters[i].node_type == node_type {
            return true;
        }
        i += 1;
    }
    false
}

/// There is an identity exactly where the profile has a product family and a vendor for the
/// role, whatever legacy type the combination has; its descriptor names role, vendor and
/// product family and nothing else, none of them empty.
pub proof fn identity_always_has_a_full_descriptor(
    profile: RackProfile,
    role: RmsNodeRole,
    r: Result<RmsNodeIdentity, NodeDescriptorError>,
)
    requires
        identity_outcome(profile, role, r),
    ensures
        r is Ok <==> profile_family(profile) is Some && vendor_text(profile, role) is Some,
        r is Ok ==> {
            let entries = r->Ok_0.node_descriptor.entries();
            &&& entries.len() == 3
            &&& entries[0] == ("role"@, role_value(role))
            &&& entries[1].0 == "vendor"@ && entries[1].1.len() > 0
            &&& entries[2].0 == "product_family"@ && entries[2].1.len() > 0
        },
{
}

} // verus!
