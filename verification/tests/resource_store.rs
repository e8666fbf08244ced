use nico::resource_store::{
    create_bfb, ns_key, patch_deployment, resource_key, store_document, BfbStatusPhase,
    KubeResource, ResourceMap,
};

const TEST_NS: &str = "sdk-init-ns";

fn resource(ns: &str, name: &str, document: &str) -> KubeResource {
    KubeResource {
        namespace: Some(ns.to_string()),
        name: Some(name.to_string()),
        document: document.to_string(),
        bfb_status: None,
        deployment_bfb: None,
    }
}

#[test]
fn keys_are_namespace_slash_name() {
    assert_eq!(ns_key(TEST_NS, "bfb"), "sdk-init-ns/bfb");
    assert_eq!(resource_key(&resource(TEST_NS, "bfb", "")), "sdk-init-ns/bfb");
    let nameless = KubeResource { namespace: None, name: None, ..resource("", "", "") };
    assert_eq!(resource_key(&nameless), "/");
}

#[test]
fn applied_resources_are_found_and_replaced() {
    let mut templates = ResourceMap::new();
    assert!(templates.get("a", TEST_NS).is_none());
    let first = templates.apply(&resource(TEST_NS, "a", "one"));
    assert_eq!(first.document, "one");
    templates.apply(&resource(TEST_NS, "b", "other"));
    templates.apply(&resource(TEST_NS, "a", "two"));
    assert_eq!(templates.get("a", TEST_NS).unwrap().document, "two");
    assert_eq!(templates.get("b", TEST_NS).unwrap().document, "other");
    assert!(templates.get("a", "elsewhere").is_none());
}

#[test]
fn deleted_resources_are_gone() {
    let mut deployments = ResourceMap::new();
    deployments.apply(&resource(TEST_NS, "a", "one"));
    deployments.apply(&resource(TEST_NS, "b", "two"));
    deployments.delete("a", TEST_NS);
    deployments.delete("never-there", TEST_NS);
    assert!(deployments.get("a", TEST_NS).is_none());
    assert_eq!(deployments.get("b", TEST_NS).unwrap().document, "two");
}

#[test]
fn lists_hold_the_resources_of_one_namespace() {
    let mut nads = ResourceMap::new();
    for name in ["a", "b", "c"] {
        nads.apply(&resource(TEST_NS, name, name));
    }
    nads.apply(&resource("sdk-init-ns-2", "d", "d"));
    nads.apply(&resource("other", "e", "e"));
    let mut listed: Vec<String> = nads.list(TEST_NS).into_iter().map(|r| r.document).collect();
    listed.sort();
    assert_eq!(listed, vec!["a", "b", "c"]);
    assert_eq!(nads.list("other").len(), 1);
    assert!(nads.list("nothing").is_empty());
}

#[test]
fn created_boot_images_are_ready() {
    let mut bfbs = ResourceMap::new();
    let created = create_bfb(&mut bfbs, &resource(TEST_NS, "bfb", "url"));
    let status = created.bfb_status.unwrap();
    assert_eq!(status.phase, BfbStatusPhase::Ready);
    assert!(status.file_name.is_none() && status.versions.is_none());
    assert!(status.conditions.is_none() && status.observed_generation.is_none());
    let stored = bfbs.get("bfb", TEST_NS).unwrap();
    assert_eq!(stored.bfb_status.unwrap().phase, BfbStatusPhase::Ready);
    assert_eq!(stored.document, "url");
    assert_eq!(bfbs.list(TEST_NS).len(), 1);
}

#[test]
fn patches_name_the_boot_image_of_a_deployment() {
    let mut deployments = ResourceMap::new();
    deployments.apply(&resource(TEST_NS, "deployment", "spec"));
    patch_deployment(&mut deployments, "deployment", TEST_NS, None);
    assert!(deployments.get("deployment", TEST_NS).unwrap().deployment_bfb.is_none());
    patch_deployment(&mut deployments, "deployment", TEST_NS, Some("bfb-2".to_string()));
    let patched = deployments.get("deployment", TEST_NS).unwrap();
    assert_eq!(patched.deployment_bfb.as_deref(), Some("bfb-2"));
    assert_eq!(patched.document, "spec");
    patch_deployment(&mut deployments, "absent", TEST_NS, Some("bfb-2".to_string()));
    assert!(deployments.get("absent", TEST_NS).is_none());
}

#[test]
fn documents_are_stored_under_their_names() {
    let mut secrets = ResourceMap::new();
    store_document(&mut secrets, "bmc-shared-password", TEST_NS, "{}".to_string());
    assert_eq!(secrets.get("bmc-shared-password", TEST_NS).unwrap().document, "{}");
}
