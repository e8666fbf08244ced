//! An in-memory store of namespaced resources: what a cluster holds while the operator's
//! resources are set up.
use dashmap::DashMap;
use vstd::prelude::*;

use crate::text::{concat2, concat3};

verus! {

/// The phase of a boot image.
#[derive(Clone, Copy, Debug, PartialEq, Eq, Structural)]
pub enum BfbStatusPhase {
    Initializing,
    Downloading,
    Ready,
    Deleting,
    Error,
}

/// The status of a boot image. Versions and conditions are their documents.
#[derive(Debug)]
pub struct BfbStatus {
    pub file_name: Option<String>,
    pub phase: BfbStatusPhase,
    pub versions: Option<String>,
    pub conditions: Option<String>,
    pub observed_generation: Option<i64>,
}

impl Clone for BfbStatus {
    fn clone(&self) -> (r: Self)
        ensures
            r == *self,
    {
        BfbStatus {
            file_name: self.file_name.clone(),
            phase: self.phase,
            versions: self.versions.clone(),
            conditions: self.conditions.clone(),
            observed_generation: self.observed_generation,
        }
    }
}

/// A resource: where it stands, and what it holds. `document` is what nothing here reads.
#[derive(Debug)]
pub struct KubeResource {
    pub namespace: Option<String>,
    pub name: Option<String>,
    pub document: String,
    /// The status of a boot image.
    pub bfb_status: Option<BfbStatus>,
    /// The boot image that a deployment provisions.
    pub deployment_bfb: Option<String>,
}

impl Clone for KubeResource {
    fn clone(&self) -> (r: Self)
        ensures
            r == *self,
    {
        KubeResource {
            namespace: self.namespace.clone(),
            name: self.name.clone(),
            document: self.document.clone(),
            bfb_status: self.bfb_status.clone(),
            deployment_bfb: self.deployment_bfb.clone(),
        }
    }
}

/// The key of the resource `name` in the namespace `ns`.
pub open spec fn key_text(ns: Seq<char>, name: Seq<char>) -> Seq<char> {
    ns + "/"@ + name
}

/// The key of the resource `name` in the namespace `ns`.
pub fn ns_key(ns: &str, name: &str) -> (r: String)
    ensures
        r@ == key_text(ns@, name@),
{
    concat3(ns, "/", name)
}

/// The text, or none at all.
pub open spec fn text_or_empty(text: Option<String>) -> Seq<char> {
    match text {
        Some(text) => text@,
        None => ""@,
    }
}

/// The key of a resource: that of its namespace and name, each empty where it is not set.
pub open spec fn resource_key_text(resource: KubeResource) -> Seq<char> {
    key_text(text_or_empty(resource.namespace), text_or_empty(resource.name))
}

/// The key of a resource.
pub fn resource_key(resource: &KubeResource) -> (r: String)
    ensures
        r@ == resource_key_text(*resource),
{
    let ns: &str = match &resource.namespace {
        Some(ns) => ns.as_str(),
        None => "",
    };
    let name: &str = match &resource.name {
        Some(name) => name.as_str(),
        None => "",
    };
    ns_key(ns, name)
}

/// The concurrent map of the `dashmap` crate.
#[verifier::external_type_specification]
#[verifier::external_body]
#[verifier::reject_recursive_types(K)]
#[verifier::reject_recursive_types(V)]
#[verifier::reject_recursive_types(S)]
pub struct ExDashMap<K, V, S>(DashMap<K, V, S>);

/// Nothing under any key.
pub open spec fn no_resources() -> Map<Seq<char>, KubeResource> {
    Map::empty()
}

/// What a map holds, by key.
pub uninterp spec fn held(map: DashMap<String, KubeResource>) -> Map<Seq<char>, KubeResource>;

/// `DashMap::new`: a map that holds nothing.
#[verifier::external_body]
fn new_map() -> (r: DashMap<String, KubeResource>)
    ensures
        held(r) == no_resources(),
{
    DashMap::new()
}

/// `DashMap::get`: the value of the key, where there is one. The value is copied out, so that
/// no lock outlives the call.
#[verifier::external_body]
fn get_from(map: &DashMap<String, KubeResource>, key: &str) -> (r: Option<KubeResource>)
    ensures
        r == (if held(*map).contains_key(key@) {
            Some(held(*map)[key@])
        } else {
            None
        }),
{
    map.get(key).map(|entry| entry.value().clone())
}

/// `DashMap::insert`: the key has the value from now on, and the value that it had is handed
/// back. No other key is touched.
#[verifier::external_body]
fn insert_into(
    map: &mut DashMap<String, KubeResource>,
    key: String,
    value: KubeResource,
) -> (r: Option<KubeResource>)
    ensures
        held(*final(map)) == held(*old(map)).insert(key@, value),
        r == (if held(*old(map)).contains_key(key@) {
            Some(held(*old(map))[key@])
        } else {
            None
        }),
{
    map.insert(key, value)
}

/// `DashMap::remove`: the key has no value from now on, and the value that it had is handed
/// back. No other key is touched.
#[verifier::external_body]
fn remove_from(map: &mut DashMap<String, KubeResource>, key: &str) -> (r: Option<KubeResource>)
    ensures
        held(*final(map)) == held(*old(map)).remove(key@),
        r == (if held(*old(map)).contains_key(key@) {
            Some(held(*old(map))[key@])
        } else {
            None
        }),
{
    map.remove(key).map(|entry| entry.1)
}

/// Whether the entries are those of a map, each once.
pub open spec fn walks_through(
    map: Map<Seq<char>, KubeResource>,
    entries: Seq<(String, KubeResource)>,
) -> bool {
    &&& forall|i: int|
        0 <= i < entries.len() ==> map.contains_key((#[trigger] entries[i]).0@)
            && map[entries[i].0@] == entries[i].1
    &&& forall|i: int, j: int|
        0 <= i < j < entries.len() ==> (#[trigger] entries[i]).0@ != (#[trigger] entries[j]).0@
    &&& forall|key: Seq<char>| #[trigger]
        map.contains_key(key) ==> exists|i: int|
            0 <= i < entries.len() && (#[trigger] entries[i]).0@ == key
}

/// `DashMap::iter`: every entry once. The order is that of the shards and their hash tables,
/// and nothing is said of it.
#[verifier::external_body]
fn entries_of(map: &DashMap<String, KubeResource>) -> (r: Vec<(String, KubeResource)>)
    ensures
        walks_through(held(*map), r@),
{
    map.iter().map(|entry| (entry.key().clone(), entry.value().clone())).collect()
}

/// Whether the key is one of the namespace: whether it starts with the namespace and a slash.
pub open spec fn in_namespace(ns: Seq<char>, key: Seq<char>) -> bool {
    (ns + "/"@).is_prefix_of(key)
}

fn has_prefix(text: &str, prefix: &str) -> (r: bool)
    ensures
        r == prefix@.is_prefix_of(text@),
{
    let n: usize = text.unicode_len();
    let m: usize = prefix.unicode_len();
    if m > n {
        return false;
    }
    let mut i: usize = 0;
    while i < m
        invariant
            n == text@.len(),
            m == prefix@.len(),
            i <= m <= n,
            forall|j: int| 0 <= j < i ==> text@[j] == prefix@[j],
        decreases m - i,
    {
        if text.get_char(i) != prefix.get_char(i) {
            assert(text@[i as int] != prefix@[i as int]);
            assert(prefix@.is_prefix_of(text@) ==> prefix@ == text@.subrange(
                0,
                prefix@.len() as int,
            ));
            assert(text@.subrange(0, prefix@.len() as int)[i as int] == text@[i as int]);
            return false;
        }
        i = i + 1;
    }
    assert(prefix@ =~= text@.subrange(0, prefix@.len() as int));
    true
}

/// Whether the keys are those of the namespace in a map, each once.
pub open spec fn keys_of_namespace(
    map: Map<Seq<char>, KubeResource>,
    ns: Seq<char>,
    keys: Seq<Seq<char>>,
) -> bool {
    &&& keys.no_duplicates()
    &&& forall|key: Seq<char>| #[trigger]
        keys.contains(key) <==> map.contains_key(key) && in_namespace(ns, key)
}

/// Whether the resources are those of the namespace in a map, each key's once, in any order.
pub open spec fn lists_namespace(
    map: Map<Seq<char>, KubeResource>,
    ns: Seq<char>,
    resources: Seq<KubeResource>,
) -> bool {
    exists|keys: Seq<Seq<char>>| #[trigger]
        keys_of_namespace(map, ns, keys) && keys.len() == resources.len() && forall|i: int|
            0 <= i < keys.len() ==> #[trigger] resources[i] == map[keys[i]]
}

/// The resources of one type.
pub struct ResourceMap {
    map: DashMap<String, KubeResource>,
}

impl View for ResourceMap {
    type V = Map<Seq<char>, KubeResource>;

    closed spec fn view(&self) -> Map<Seq<char>, KubeResource> {
        held(self.map)
    }
}

impl ResourceMap {
    /// No resources.
    pub fn new() -> (r: Self)
        ensures
            r@ == no_resources(),
    {
        ResourceMap { map: new_map() }
    }

    /// The resource of this name in this namespace, where there is one.
    pub fn get(&self, name: &str, ns: &str) -> (r: Option<KubeResource>)
        ensures
            r == (if self@.contains_key(key_text(ns@, name@)) {
                Some(self@[key_text(ns@, name@)])
            } else {
                None
            }),
    {
        let key = ns_key(ns, name);
        get_from(&self.map, key.as_str())
    }

    /// The resources of this namespace, in no particular order.
    pub fn list(&self, ns: &str) -> (r: Vec<KubeResource>)
        ensures
            lists_namespace(self@, ns@, r@),
    {
        let prefix = concat2(ns, "/");
        let entries = entries_of(&self.map);
        let mut r: Vec<KubeResource> = Vec::new();
        let ghost mut keys: Seq<Seq<char>> = seq![];
        let mut i: usize = 0;
        while i < entries.len()
            invariant
                i <= entries@.len(),
                prefix@ == ns@ + "/"@,
                walks_through(self@, entries@),
                keys.len() == r@.len(),
                forall|j: int| 0 <= j < keys.len() ==> #[trigger] r@[j] == self@[keys[j]],
                forall|j: int|
                    0 <= j < keys.len() ==> self@.contains_key(#[trigger] keys[j])
                        && in_namespace(ns@, keys[j]),
                forall|j: int|
                    0 <= j < keys.len() ==> exists|k: int|
                        0 <= k < i && (#[trigger] entries@[k]).0@ == #[trigger] keys[j],
                forall|j: int, k: int| 0 <= j < k < keys.len() ==> keys[j] != keys[k],
                forall|k: int|
                    0 <= k < i && in_namespace(ns@, (#[trigger] entries@[k]).0@) ==> keys.contains(
                        entries@[k].0@,
                    ),
            decreases entries@.len() - i,
        {
            let entry = &entries[i];
            if has_prefix(entry.0.as_str(), prefix.as_str()) {
                r.push(entry.1.clone());
                proof {
                    let before = keys;
                    keys = keys.push(entry.0@);
                    assert(keys[before.len() as int] == entries@[i as int].0@);
                    assert forall|k: int|
                        0 <= k < i + 1 && in_namespace(
                            ns@,
                            (#[trigger] entries@[k]).0@,
                        ) implies keys.contains(entries@[k].0@) by {
                        if k < i {
                            let j = choose|j: int|
                                0 <= j < before.len() && before[j] == entries@[k].0@;
                            assert(keys[j] == entries@[k].0@);
                        }
                    }
                }
            }
            i = i + 1;
        }
        proof {
            assert forall|key: Seq<char>| #[trigger] keys.contains(key) <==> self@.contains_key(key)
                && in_namespace(ns@, key) by {
                if self@.contains_key(key) && in_namespace(ns@, key) {
                    let k = choose|k: int|
                        0 <= k < entries@.len() && (#[trigger] entries@[k]).0@ == key;
                    assert(keys.contains(entries@[k].0@));
                }
            }
            assert(keys_of_namespace(self@, ns@, keys));
        }
        r
    }

    /// Stores the resource under its own key and hands it back.
    pub fn apply(&mut self, resource: &KubeResource) -> (r: KubeResource)
        ensures
            r == *resource,
            final(self)@ == old(self)@.insert(resource_key_text(*resource), *resource),
    {
        let key = resource_key(resource);
        let _ = insert_into(&mut self.map, key, resource.clone());
        resource.clone()
    }

    /// Removes the resource of this name in this namespace, if there is one.
    pub fn delete(&mut self, name: &str, ns: &str)
        ensures
            final(self)@ == old(self)@.remove(key_text(ns@, name@)),
    {
        let key = ns_key(ns, name);
        let _ = remove_from(&mut self.map, key.as_str());
    }
}

/// The status of a boot image that can be used at once.
pub open spec fn ready_status() -> BfbStatus {
    BfbStatus {
        file_name: None,
        phase: BfbStatusPhase::Ready,
        versions: None,
        conditions: None,
        observed_generation: None,
    }
}

/// The boot image as it is stored: it is ready at once.
pub open spec fn created_bfb(bfb: KubeResource) -> KubeResource {
    KubeResource { bfb_status: Some(ready_status()), ..bfb }
}

/// Stores a boot image, which is ready at once, and hands it back as it is stored.
pub fn create_bfb(bfbs: &mut ResourceMap, bfb: &KubeResource) -> (r: KubeResource)
    ensures
        r == created_bfb(*bfb),
        final(bfbs)@ == old(bfbs)@.insert(resource_key_text(*bfb), created_bfb(*bfb)),
{
    let mut bfb_with_status = bfb.clone();
    bfb_with_status.bfb_status = Some(
        BfbStatus {
            file_name: None,
            phase: BfbStatusPhase::Ready,
            versions: None,
            conditions: None,
            observed_generation: None,
        },
    );
    bfbs.apply(&bfb_with_status)
}

/// Where a patch of a deployment names the boot image, as a JSON pointer.
pub const PATCHED_BFB: &'static str = "/spec/dpus/bfb";

/// Makes a deployment provision the boot image that a patch names. Nothing changes where the
/// patch names none, or where there is no such deployment.
pub fn patch_deployment(
    deployments: &mut ResourceMap,
    name: &str,
    ns: &str,
    patched_bfb: Option<String>,
)
    ensures
        final(deployments)@ == (match patched_bfb {
            Some(bfb) => if old(deployments)@.contains_key(key_text(ns@, name@)) {
                old(deployments)@.insert(
                    key_text(ns@, name@),
                    (KubeResource {
                        deployment_bfb: Some(bfb),
                        ..old(deployments)@[key_text(ns@, name@)]
                    }),
                )
            } else {
                old(deployments)@
            },
            None => old(deployments)@,
        }),
{
    let key = ns_key(ns, name);
    match (get_from(&deployments.map, key.as_str()), patched_bfb) {
        (Some(mut deployment), Some(bfb)) => {
            deployment.deployment_bfb = Some(bfb);
            let _ = insert_into(&mut deployments.map, key, deployment);
        },
        _ => {},
    }
}

/// Stores a document, such as the data of a config map or of a secret, under a name in a
/// namespace.
pub fn store_document(documents: &mut ResourceMap, name: &str, ns: &str, document: String)
    ensures
        ({
            let stored = final(documents)@[key_text(ns@, name@)];
            &&& final(documents)@ == old(documents)@.insert(key_text(ns@, name@), stored)
            &&& stored.document == document
            &&& text_or_empty(stored.namespace) == ns@
            &&& text_or_empty(stored.name) == name@
            &&& stored.bfb_status is None
            &&& stored.deployment_bfb is None
        }),
{
    let resource = KubeResource {
        namespace: Some(ns.to_owned()),
        name: Some(name.to_owned()),
        document,
        bfb_status: None,
        deployment_bfb: None,
    };
    let _ = documents.apply(&resource);
}

/// A stored resource is found under its namespace and name, and the resources under all other
/// keys are found as before.
pub proof fn stored_resource_is_found(
    map: Map<Seq<char>, KubeResource>,
    resource: KubeResource,
    ns: Seq<char>,
    name: Seq<char>,
)
    ensures
        ({
            let after = map.insert(resource_key_text(resource), resource);
            &&& ns == text_or_empty(resource.namespace) && name == text_or_empty(resource.name)
                ==> after.contains_key(key_text(ns, name)) && after[key_text(ns, name)] == resource
            &&& key_text(ns, name) != resource_key_text(resource) ==> (after.contains_key(
                key_text(ns, name),
            ) == map.contains_key(key_text(ns, name)) && after[key_text(ns, name)] == map[key_text(
                ns,
                name,
            )])
        }),
{
}

/// A stored resource is listed for its namespace.
pub proof fn stored_resource_is_listed(
    map: Map<Seq<char>, KubeResource>,
    resource: KubeResource,
    listed: Seq<KubeResource>,
)
    requires
        lists_namespace(
            map.insert(resource_key_text(resource), resource),
            text_or_empty(resource.namespace),
            listed,
        ),
    ensures
        listed.contains(resource),
{
    let after = map.insert(resource_key_text(resource), resource);
    let ns = text_or_empty(resource.namespace);
    let keys = choose|keys: Seq<Seq<char>>| #[trigger]
        keys_of_namespace(after, ns, keys) && keys.len() == listed.len() && forall|i: int|
            0 <= i < keys.len() ==> #[trigger] listed[i] == after[keys[i]];
    let key = resource_key_text(resource);
    assert((ns + "/"@) =~= key.subrange(0, (ns + "/"@).len() as int));
    assert(keys.contains(key));
    let i = choose|i: int| 0 <= i < keys.len() && keys[i] == key;
    assert(listed[i] == resource);
}

/// A removed resource is not found any more.
pub proof fn removed_resource_is_gone(
    map: Map<Seq<char>, KubeResource>,
    ns: Seq<char>,
    name: Seq<char>,
)
    ensures
        !map.remove(key_text(ns, name)).contains_key(key_text(ns, name)),
{
}

/// Resources of namespaces without a slash in their names have keys of their own.
pub proof fn keys_tell_resources_apart(
    ns_a: Seq<char>,
    name_a: Seq<char>,
    ns_b: Seq<char>,
    name_b: Seq<char>,
)
    requires
        !ns_a.contains('/'),
        !ns_b.contains('/'),
        key_text(ns_a, name_a) == key_text(ns_b, name_b),
    ensures
        ns_a == ns_b,
        name_a == name_b,
{
    reveal_strlit("/");
    let a = key_text(ns_a, name_a);
    let b = key_text(ns_b, name_b);
    assert(a[ns_a.len() as int] == '/');
    assert(b[ns_b.len() as int] == '/');
    if ns_a.len() < ns_b.len() {
        assert(b[ns_a.len() as int] == ns_b[ns_a.len() as int]);
        assert(ns_b.contains('/'));
    }
    if ns_b.len() < ns_a.len() {
        assert(a[ns_b.len() as int] == ns_a[ns_b.len() as int]);
        assert(ns_a.contains('/'));
    }
    assert forall|i: int| 0 <= i < ns_a.len() implies ns_a[i] == ns_b[i] by {
        assert(a[i] == ns_a[i]);
        assert(b[i] == ns_b[i]);
    }
    assert(ns_a =~= ns_b);
    assert(a.len() == ns_a.len() + 1 + name_a.len());
    assert(b.len() == ns_b.len() + 1 + name_b.len());
    assert forall|i: int| 0 <= i < name_a.len() implies name_a[i] == name_b[i] by {
        assert(a[ns_a.len() + 1 + i] == name_a[i]);
        assert(b[ns_b.len() + 1 + i] == name_b[i]);
    }
    assert(name_a =~= name_b);
}

} // verus!
