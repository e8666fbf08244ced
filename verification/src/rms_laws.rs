//! What the identity of a node says of its rack's profile.
use vstd::prelude::*;

use crate::rms_node_type::{
    declared_vendor, descriptor_error_text, identity_outcome, legacy_type_of, normalized,
    some_filter_has_type, some_identity_has_type, type_filters_are_distinct, vendor_text,
    without_separators, NodeDescriptorError, NodeType, NodeTypeComponentFilter, RackProductFamily,
    RackProfile, RmsNodeIdentity, RmsNodeRole,
};
use crate::text::{ascii_lowered, blank, trimmed, trimmed_is_empty_iff_blank};

verus! {

/// Whether a character counts when descriptor values are matched.
pub open spec fn counts_in_matching(c: char) -> bool {
    c != ' ' && c != '-' && c != '_'
}

proof fn separators_are_filtered(s: Seq<char>)
    ensures
        without_separators(s) == s.filter(|c: char| counts_in_matching(c)),
    decreases s.len(),
{
    reveal(Seq::filter);
    if s.len() > 0 {
        separators_are_filtered(s.drop_last());
    } else {
        assert(s =~= Seq::<char>::empty());
    }
}

/// The matched form of a value is the value without outer whitespace, in small letters, with only
/// the characters left that count.
pub proof fn matching_ignores_case_and_separators(value: Seq<char>)
    ensures
        normalized(value) == trimmed(value).map_values(|c: char| ascii_lowered(c)).filter(
            |c: char| counts_in_matching(c),
        ),
{
    separators_are_filtered(trimmed(value).map_values(|c: char| ascii_lowered(c)));
}

/// Every character of a matched form counts in matching, and none is an ASCII capital letter.
pub proof fn matched_forms_are_small_letters(value: Seq<char>, i: int)
    requires
        0 <= i < normalized(value).len(),
    ensures
        counts_in_matching(normalized(value)[i]),
        !('A' <= normalized(value)[i] <= 'Z'),
{
    matched_form_of_lowered(trimmed(value), i);
}

proof fn matched_form_of_lowered(s: Seq<char>, i: int)
    requires
        0 <= i < without_separators(s.map_values(|c: char| ascii_lowered(c))).len(),
    ensures
        ({
            let c = without_separators(s.map_values(|c: char| ascii_lowered(c)))[i];
            counts_in_matching(c) && !('A' <= c <= 'Z')
        }),
    decreases s.len(),
{
    let lowered = s.map_values(|c: char| ascii_lowered(c));
    if s.len() > 0 {
        let front = s.drop_last();
        assert(lowered.drop_last() =~= front.map_values(|c: char| ascii_lowered(c)));
        if i < without_separators(lowered.drop_last()).len() {
            matched_form_of_lowered(front, i);
        }
    }
}

/// What a legacy node type stands for: a role with a product family and a vendor.
pub open spec fn stands_for(
    node_type: NodeType,
    role: RmsNodeRole,
    family: Seq<char>,
    vendor: Seq<char>,
) -> bool {
    match node_type {
        NodeType::ComputeGb200Nvidia => role is Compute && family == "gb200"@ && vendor
            == "nvidia"@,
        NodeType::ComputeGb300Nvidia => role is Compute && family == "gb300"@ && vendor
            == "nvidia"@,
        NodeType::ComputeGb300Lenovo => role is Compute && family == "gb300"@ && vendor
            == "lenovo"@,
        NodeType::ComputeVrnvl72Nvidia => role is Compute && family == "vrnvl72"@ && vendor
            == "nvidia"@,
        NodeType::SwitchGb200Nvidia => role is Switch && family == "gb200"@ && vendor == "nvidia"@,
        NodeType::SwitchGb300Nvidia => role is Switch && family == "gb300"@ && vendor == "nvidia"@,
        NodeType::SwitchVrnvl72Nvidia => role is Switch && family == "vrnvl72"@ && vendor
            == "nvidia"@,
        NodeType::PowershelfGb200Liteon => role is PowerShelf && family == "gb200"@ && vendor
            == "liteon"@,
        NodeType::PowershelfGb200Delta => role is PowerShelf && family == "gb200"@ && vendor
            == "delta"@,
        NodeType::PowershelfGb300Liteon => role is PowerShelf && family == "gb300"@ && vendor
            == "liteon"@,
        NodeType::PowershelfGb300Delta => role is PowerShelf && family == "gb300"@ && vendor
            == "delta"@,
    }
}

proof fn names_differ()
    ensures
        "gb200"@ != "gb300"@,
        "gb200"@ != "vrnvl72"@,
        "gb300"@ != "vrnvl72"@,
        "nvidia"@ != "lenovo"@,
        "liteon"@ != "delta"@,
{
    reveal_strlit("gb200");
    reveal_strlit("gb300");
    reveal_strlit("vrnvl72");
    reveal_strlit("nvidia");
    reveal_strlit("lenovo");
    reveal_strlit("liteon");
    reveal_strlit("delta");
    assert("gb200"@[2] != "gb300"@[2]);
    assert("nvidia"@[0] != "lenovo"@[0]);
    assert("gb200"@.len() != "vrnvl72"@.len());
    assert("gb300"@.len() != "vrnvl72"@.len());
    assert("liteon"@.len() != "delta"@.len());
}

/// A combination has a legacy type exactly if the type stands for it.
pub proof fn legacy_types_stand_for_their_combination(
    role: RmsNodeRole,
    family: Seq<char>,
    vendor: Seq<char>,
    node_type: NodeType,
)
    ensures
        legacy_type_of(role, family, vendor) == Some(node_type) <==> stands_for(
            node_type,
            role,
            family,
            vendor,
        ),
{
    names_differ();
}

/// The vendor that counts for a role is the one that the profile declares for this role.
pub open spec fn is_vendor_of(profile: RackProfile, role: RmsNodeRole, vendor: String) -> bool {
    ||| role is Compute && profile.compute_vendor == Some(vendor)
    ||| role is Switch && profile.switch_vendor == Some(vendor)
    ||| role is PowerShelf && profile.power_shelf_vendor == Some(vendor)
}

/// Whether the profile declares a vendor for the role that is more than whitespace.
pub open spec fn names_vendor(profile: RackProfile, role: RmsNodeRole) -> bool {
    exists|vendor: String| #[trigger] is_vendor_of(profile, role, vendor) && !blank(vendor@)
}

/// Whether the profile names a product family that is more than whitespace.
pub open spec fn names_family(profile: RackProfile) -> bool {
    match profile.product_family {
        None => false,
        Some(RackProductFamily::Other(text)) => !blank(text@),
        Some(_) => true,
    }
}

/// Identities need a product family first and a vendor for the role second; nothing else can be
/// missing.
pub proof fn identities_need_family_and_vendor(
    profile: RackProfile,
    role: RmsNodeRole,
    r: Result<RmsNodeIdentity, NodeDescriptorError>,
)
    requires
        identity_outcome(profile, role, r),
    ensures
        r == Err::<RmsNodeIdentity, NodeDescriptorError>(NodeDescriptorError::MissingProductFamily)
            <==> !names_family(profile),
        r is Err && r->Err_0 is VendorMissing <==> names_family(profile) && !names_vendor(
            profile,
            role,
        ),
        r is Ok <==> names_family(profile) && names_vendor(profile, role),
        r matches Err(NodeDescriptorError::VendorMissing { role: label }) ==> descriptor_error_text(
            r->Err_0,
        ) == "rack profile does not identify an RMS "@ + (match role {
            RmsNodeRole::Compute => "compute"@,
            RmsNodeRole::Switch => "switch"@,
            RmsNodeRole::PowerShelf => "power shelf"@,
        }) + " vendor"@,
{
    reveal_strlit("gb200");
    reveal_strlit("gb300");
    if let Some(RackProductFamily::Other(text)) = profile.product_family {
        trimmed_is_empty_iff_blank(text@);
    }
    vendor_is_declared(profile, role);
}

proof fn vendor_is_declared(profile: RackProfile, role: RmsNodeRole)
    ensures
        vendor_text(profile, role) is Some <==> names_vendor(profile, role),
{
    match declared_vendor(profile, role) {
        Some(vendor) => {
            trimmed_is_empty_iff_blank(vendor@);
            assert(is_vendor_of(profile, role, vendor));
        },
        None => {},
    }
}

/// An identity carries the role it was asked for, the vendor that the profile declares for the role
/// and the product family, each without outer whitespace, and the legacy type that stands for them.
pub proof fn identities_carry_the_profile(
    profile: RackProfile,
    role: RmsNodeRole,
    identity: RmsNodeIdentity,
    vendor: String,
    node_type: NodeType,
)
    requires
        identity_outcome(profile, role, Ok(identity)),
        is_vendor_of(profile, role, vendor),
    ensures
        identity.role == role,
        ({
            let entries = identity.node_descriptor.entries();
            let family = match profile.product_family {
                Some(RackProductFamily::Gb200) => "gb200"@,
                Some(RackProductFamily::Gb300) => "gb300"@,
                Some(RackProductFamily::Other(text)) => trimmed(text@),
                None => ""@,
            };
            &&& entries.len() == 3
            &&& entries[0].0 == "role"@
            &&& role is Compute ==> entries[0].1 == "compute"@
            &&& role is Switch ==> entries[0].1 == "switch"@
            &&& role is PowerShelf ==> entries[0].1 == "power_shelf"@
            &&& entries[1] == ("vendor"@, trimmed(vendor@))
            &&& entries[2] == ("product_family"@, family)
            &&& identity.legacy_node_type == Some(node_type) <==> stands_for(
                node_type,
                role,
                normalized(family),
                normalized(trimmed(vendor@)),
            )
        }),
{
    names_differ();
}

/// Filters by legacy type are for types that occur, one for each, and all are for the components
/// that were asked for.
pub proof fn each_type_has_one_filter(
    filters: Seq<NodeTypeComponentFilter>,
    components: Seq<String>,
    identities: Seq<RmsNodeIdentity>,
    i: int,
    j: int,
)
    requires
        type_filters_are_distinct(filters, components),
        forall|node_type: NodeType| #[trigger]
            some_filter_has_type(filters, node_type) <==> some_identity_has_type(
                identities,
                node_type,
            ),
        0 <= i < filters.len(),
        0 <= j < filters.len(),
    ensures
        filters[i].component_filter.components@ == components,
        filters[i].node_type == filters[j].node_type ==> i == j,
        exists|k: int|
            0 <= k < identities.len() && (#[trigger] identities[k]).legacy_node_type == Some(
                filters[i].node_type,
            ),
{
    assert(some_filter_has_type(filters, filters[i].node_type));
}

/// Every legacy type that occurs has a filter.
pub proof fn no_type_lacks_its_filter(
    filters: Seq<NodeTypeComponentFilter>,
    identities: Seq<RmsNodeIdentity>,
    k: int,
    node_type: NodeType,
)
    requires
        forall|t: NodeType| #[trigger]
            some_filter_has_type(filters, t) <==> some_identity_has_type(identities, t),
        0 <= k < identities.len(),
        identities[k].legacy_node_type == Some(node_type),
    ensures
        exists|i: int| 0 <= i < filters.len() && (#[trigger] filters[i]).node_type == node_type,
{
    assert(some_identity_has_type(identities, node_type));
    assert(some_filter_has_type(filters, node_type));
}

} // verus!
