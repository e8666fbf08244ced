use nico::rms_node_type::{
    compute_node_identity_for_profile, firmware_object_component_filters_for_node_identities,
    legacy_node_type, normalize_descriptor_value, power_shelf_node_identity_for_profile,
    switch_node_identity_for_profile, NodeDescriptor, NodeDescriptorError, NodeInfo, NodeType,
    RackProductFamily, RackProfile, RmsNodeRole,
};

const KEY_ROLE: &str = "role";
const KEY_VENDOR: &str = "vendor";
const KEY_PRODUCT_FAMILY: &str = "product_family";

fn profile_with_product_family(product_family: RackProductFamily) -> RackProfile {
    RackProfile { product_family: Some(product_family), ..Default::default() }
}

fn node() -> NodeInfo {
    NodeInfo {
        node_id: "node".to_string(),
        rack_id: "rack".to_string(),
        node_type: None,
        node_descriptor: None,
        bmc_endpoint: None,
    }
}

#[test]
fn vendor_matching_trims_outer_whitespace() {
    let mut profile = profile_with_product_family(RackProductFamily::Gb200);
    profile.compute_vendor = Some("\tNVIDIA\n".to_string());

    let identity = compute_node_identity_for_profile(&profile).unwrap();

    assert_eq!(identity.legacy_node_type, Some(NodeType::ComputeGb200Nvidia));
    assert_eq!(identity.node_descriptor.get(KEY_VENDOR).as_deref(), Some("NVIDIA"));
}

#[test]
fn arbitrary_product_family_and_vendor_are_descriptor_data() {
    let mut profile = profile_with_product_family(RackProductFamily::Other(
        " test-product-family ".to_string(),
    ));
    profile.compute_vendor = Some("test-compute-vendor".to_string());

    let identity = compute_node_identity_for_profile(&profile).unwrap();

    assert_eq!(identity.legacy_node_type, None);
    assert_eq!(
        identity.node_descriptor.get(KEY_VENDOR).as_deref(),
        Some("test-compute-vendor")
    );
    assert_eq!(
        identity.node_descriptor.get(KEY_PRODUCT_FAMILY).as_deref(),
        Some("test-product-family")
    );
}

#[test]
fn compute_identity_uses_descriptor() {
    let mut profile = profile_with_product_family(RackProductFamily::Gb200);
    profile.compute_vendor = Some("NVIDIA".to_string());

    let identity = compute_node_identity_for_profile(&profile).unwrap();

    assert_eq!(identity.role, RmsNodeRole::Compute);
    assert_eq!(identity.legacy_node_type, Some(NodeType::ComputeGb200Nvidia));
    assert_eq!(identity.node_descriptor.get(KEY_ROLE).as_deref(), Some("compute"));
    assert_eq!(identity.node_descriptor.get(KEY_VENDOR).as_deref(), Some("NVIDIA"));
    assert_eq!(identity.node_descriptor.get(KEY_PRODUCT_FAMILY).as_deref(), Some("gb200"));
    assert_eq!(identity.node_descriptor.attributes.len(), 3);
}

#[test]
fn switch_identity_uses_descriptor() {
    let mut profile = profile_with_product_family(RackProductFamily::Gb300);
    profile.switch_vendor = Some("test-switch-vendor".to_string());

    let identity = switch_node_identity_for_profile(&profile).unwrap();

    assert_eq!(identity.role, RmsNodeRole::Switch);
    assert!(identity.is_switch());
    assert_eq!(identity.node_descriptor.get(KEY_ROLE).as_deref(), Some("switch"));
    assert_eq!(
        identity.node_descriptor.get(KEY_VENDOR).as_deref(),
        Some("test-switch-vendor")
    );
    assert_eq!(identity.node_descriptor.get(KEY_PRODUCT_FAMILY).as_deref(), Some("gb300"));
}

#[test]
fn apply_to_node_info_sets_descriptor_and_legacy_node_type() {
    let mut profile = profile_with_product_family(RackProductFamily::Gb300);
    profile.power_shelf_vendor = Some("Delta".to_string());
    let identity = power_shelf_node_identity_for_profile(&profile).unwrap();

    let mut node = NodeInfo { node_type: Some(NodeType::ComputeGb200Nvidia), ..node() };
    identity.apply_to_node_info(&mut node);

    assert_eq!(node.node_type, Some(NodeType::PowershelfGb300Delta));
    assert_eq!(
        node.node_descriptor.unwrap().attributes,
        identity.node_descriptor.attributes
    );
}

#[test]
fn component_filters_include_descriptor_and_legacy_node_type() {
    let mut profile = profile_with_product_family(RackProductFamily::Gb300);
    profile.switch_vendor = Some("NVIDIA".to_string());
    let identity = switch_node_identity_for_profile(&profile).unwrap();

    let (component_filters, descriptor_filters) =
        firmware_object_component_filters_for_node_identities(
            &vec!["BMC".to_string()],
            &vec![identity],
        );

    assert_eq!(component_filters.len(), 1);
    assert_eq!(descriptor_filters.len(), 1);
    assert_eq!(component_filters[0].node_type, NodeType::SwitchGb300Nvidia);
    assert_eq!(component_filters[0].component_filter.components, vec!["BMC".to_string()]);
    assert_eq!(descriptor_filters[0].component_filter.components, vec!["BMC".to_string()]);
}

#[test]
fn vrnvl72_power_shelf_uses_descriptor_without_legacy_node_type() {
    let mut profile = profile_with_product_family(RackProductFamily::Other("vrnvl72".to_string()));
    profile.power_shelf_vendor = Some("Delta".to_string());

    let identity = power_shelf_node_identity_for_profile(&profile).unwrap();
    assert_eq!(identity.legacy_node_type, None);

    let mut node = node();
    identity.apply_to_node_info(&mut node);
    assert_eq!(node.node_type, None);
    assert_eq!(
        node.node_descriptor.unwrap().attributes,
        identity.node_descriptor.attributes
    );

    let (component_filters, descriptor_filters) =
        firmware_object_component_filters_for_node_identities(
            &vec!["BMC".to_string()],
            &vec![identity],
        );
    assert!(component_filters.is_empty());
    assert_eq!(descriptor_filters.len(), 1);
}

#[test]
fn legacy_node_type_matches_exact_supported_matrix() {
    let cases = [
        (RmsNodeRole::Compute, "gb200", "NVIDIA", Some(NodeType::ComputeGb200Nvidia)),
        (RmsNodeRole::Compute, "gb300", "NVIDIA", Some(NodeType::ComputeGb300Nvidia)),
        (RmsNodeRole::Compute, "gb300", "Lenovo", Some(NodeType::ComputeGb300Lenovo)),
        (RmsNodeRole::Compute, "vr_nvl72", "NVIDIA", Some(NodeType::ComputeVrnvl72Nvidia)),
        (RmsNodeRole::Switch, "gb200", "NVIDIA", Some(NodeType::SwitchGb200Nvidia)),
        (RmsNodeRole::Switch, "gb300", "NVIDIA", Some(NodeType::SwitchGb300Nvidia)),
        (RmsNodeRole::Switch, "vr_nvl72", "NVIDIA", Some(NodeType::SwitchVrnvl72Nvidia)),
        (RmsNodeRole::PowerShelf, "gb200", "LiteOn", Some(NodeType::PowershelfGb200Liteon)),
        (RmsNodeRole::PowerShelf, "gb200", "Delta", Some(NodeType::PowershelfGb200Delta)),
        (RmsNodeRole::PowerShelf, "gb300", "LiteOn", Some(NodeType::PowershelfGb300Liteon)),
        (RmsNodeRole::PowerShelf, "gb300", "Delta", Some(NodeType::PowershelfGb300Delta)),
        (RmsNodeRole::PowerShelf, "vrnvl72", "Delta", None),
        (RmsNodeRole::Compute, "vrnvl144", "NVIDIA", None),
        (RmsNodeRole::Compute, "gb200", "NVIDIA Corp", None),
    ];

    for (role, product_family, vendor, expected) in cases {
        assert_eq!(
            legacy_node_type(role, product_family, vendor),
            expected,
            "role={role:?}, product_family={product_family}, vendor={vendor}"
        );
    }
}

#[test]
fn identity_requires_product_family_even_with_hardware_type() {
    let profile = RackProfile {
        rack_hardware_type: Some("test-hardware-type".to_string()),
        compute_vendor: Some("test-compute-vendor".to_string()),
        ..Default::default()
    };
    assert!(matches!(
        compute_node_identity_for_profile(&profile),
        Err(NodeDescriptorError::MissingProductFamily)
    ));
}

#[test]
fn identity_rejects_blank_programmatic_product_family() {
    let mut profile = profile_with_product_family(RackProductFamily::Other(" \t ".to_string()));
    profile.compute_vendor = Some("NVIDIA".to_string());
    assert!(matches!(
        compute_node_identity_for_profile(&profile),
        Err(NodeDescriptorError::MissingProductFamily)
    ));
}

#[test]
fn identity_requires_role_vendor() {
    let profile = profile_with_product_family(RackProductFamily::Gb200);
    match power_shelf_node_identity_for_profile(&profile) {
        Err(NodeDescriptorError::VendorMissing { role }) => assert_eq!(role, "power shelf"),
        _ => panic!("a vendor is required"),
    }
}

#[test]
fn blank_vendors_are_missing() {
    let mut profile = profile_with_product_family(RackProductFamily::Gb200);
    profile.switch_vendor = Some(" \u{2003}\n".to_string());
    match switch_node_identity_for_profile(&profile) {
        Err(NodeDescriptorError::VendorMissing { role }) => assert_eq!(role, "switch"),
        _ => panic!("a vendor is required"),
    }
}

#[test]
fn descriptor_values_are_normalized() {
    assert_eq!(normalize_descriptor_value("\t VR-NVL_72 x "), "vrnvl72x");
    assert_eq!(normalize_descriptor_value("\u{c4}-B"), "\u{c4}b");
    assert_eq!(normalize_descriptor_value(" - "), "");
}

#[test]
fn no_components_mean_no_filters() {
    let mut profile = profile_with_product_family(RackProductFamily::Gb300);
    profile.switch_vendor = Some("NVIDIA".to_string());
    let identity = switch_node_identity_for_profile(&profile).unwrap();
    let (by_type, by_descriptor) =
        firmware_object_component_filters_for_node_identities(&Vec::new(), &vec![identity]);
    assert!(by_type.is_empty());
    assert!(by_descriptor.is_empty());
}

#[test]
fn equal_identities_share_a_type_filter_only() {
    let mut profile = profile_with_product_family(RackProductFamily::Gb300);
    profile.switch_vendor = Some("NVIDIA".to_string());
    let identities = vec![
        switch_node_identity_for_profile(&profile).unwrap(),
        switch_node_identity_for_profile(&profile).unwrap(),
    ];
    let (by_type, by_descriptor) = firmware_object_component_filters_for_node_identities(
        &vec!["BMC".to_string(), "UEFI".to_string()],
        &identities,
    );
    assert_eq!(by_type.len(), 1);
    assert_eq!(by_descriptor.len(), 2);
}

#[test]
fn descriptor_errors_have_messages() {
    assert_eq!(
        NodeDescriptorError::MissingProductFamily.message(),
        "rack profile does not identify an RMS product family"
    );
    assert_eq!(
        NodeDescriptorError::VendorMissing { role: "compute" }.message(),
        "rack profile does not identify an RMS compute vendor"
    );
}

#[test]
fn first_attribute_with_a_name_counts() {
    let entry = |name: &str, value: &str| (name.to_string(), value.to_string());
    let descriptor = NodeDescriptor {
        attributes: vec![entry("a", "1"), entry("b", "2"), entry("b", "3")],
    };
    assert_eq!(descriptor.get("b").as_deref(), Some("2"));
    assert_eq!(descriptor.get("c"), None);
}
