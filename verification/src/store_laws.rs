//! What the store of resources keeps apart and keeps.
use vstd::prelude::*;

use crate::resource_store::{
    created_bfb, in_namespace, key_text, keys_of_namespace, keys_tell_resources_apart,
    lists_namespace, resource_key_text, BfbStatusPhase, KubeResource,
};

verus! {

/// A key is the namespace, a slash and the name, one after another.
pub proof fn keys_are_namespace_slash_name(ns: Seq<char>, name: Seq<char>)
    ensures
        ({
            let key = key_text(ns, name);
            let slash = ns.len() as int;
            &&& key.len() == ns.len() + 1 + name.len()
            &&& key.subrange(0, slash) == ns
            &&& key[slash] == '/'
            &&& key.subrange(slash + 1, key.len() as int) == name
        }),
{
    reveal_strlit("/");
    let key = key_text(ns, name);
    let slash = ns.len() as int;
    assert(key.subrange(0, slash) =~= ns);
    assert(key.subrange(slash + 1, key.len() as int) =~= name);
}

/// A resource goes by its own namespace and name; what is not set is empty.
pub proof fn resources_go_by_namespace_and_name(resource: KubeResource)
    ensures
        resource.namespace matches Some(ns) ==> (resource.name matches Some(name)
            ==> resource_key_text(resource) == ns@ + seq!['/'] + name@),
        resource.namespace is None ==> (resource.name matches Some(name) ==> resource_key_text(
            resource,
        ) == seq!['/'] + name@),
        resource.name is None ==> (resource.namespace matches Some(ns) ==> resource_key_text(
            resource,
        ) == ns@ + seq!['/']),
        resource.namespace is None && resource.name is None ==> resource_key_text(resource)
            == seq!['/'],
{
    reveal_strlit("/");
    reveal_strlit("");
    assert("/"@ =~= seq!['/']);
    assert(""@ =~= Seq::<char>::empty());
    match (resource.namespace, resource.name) {
        (Some(ns), Some(name)) => {
            assert(resource_key_text(resource) =~= ns@ + seq!['/'] + name@);
        },
        (None, Some(name)) => {
            assert(resource_key_text(resource) =~= seq!['/'] + name@);
        },
        (Some(ns), None) => {
            assert(resource_key_text(resource) =~= ns@ + seq!['/']);
        },
        (None, None) => {
            assert(resource_key_text(resource) =~= seq!['/']);
        },
    }
}

/// A key is in the namespace that it was made for, and, where neither name holds a slash, in no
/// other.
pub proof fn keys_are_in_their_namespace(ns: Seq<char>, name: Seq<char>, other: Seq<char>)
    ensures
        in_namespace(ns, key_text(ns, name)),
        !ns.contains('/') && !other.contains('/') && in_namespace(other, key_text(ns, name))
            ==> other == ns,
{
    reveal_strlit("/");
    let key = key_text(ns, name);
    assert((ns + "/"@) =~= key.subrange(0, (ns + "/"@).len() as int));
    if !ns.contains('/') && !other.contains('/') && in_namespace(other, key) {
        let prefix = other + "/"@;
        assert(prefix == key.subrange(0, prefix.len() as int));
        assert(key[other.len() as int] == prefix[other.len() as int]);
        assert(key[other.len() as int] == '/');
        assert(key[ns.len() as int] == '/');
        if other.len() < ns.len() {
            assert(ns[other.len() as int] == key[other.len() as int]);
        } else if ns.len() < other.len() {
            assert(prefix[ns.len() as int] == key[ns.len() as int]);
            assert(other[ns.len() as int] == '/');
        }
        assert forall|i: int| 0 <= i < ns.len() implies ns[i] == other[i] by {
            assert(key[i] == ns[i]);
            assert(prefix[i] == key[i]);
        }
        assert(ns =~= other);
    }
}

/// A list for a namespace holds resources of the store under keys of this namespace, as they are
/// stored, and as many as there are such keys.
pub proof fn lists_hold_what_is_stored(
    map: Map<Seq<char>, KubeResource>,
    ns: Seq<char>,
    listed: Seq<KubeResource>,
    i: int,
)
    requires
        lists_namespace(map, ns, listed),
        0 <= i < listed.len(),
    ensures
        exists|key: Seq<char>|
            {
                &&& #[trigger] map.contains_key(key)
                &&& in_namespace(ns, key)
                &&& map[key] == listed[i]
            },
{
    let keys = choose|keys: Seq<Seq<char>>| #[trigger]
        keys_of_namespace(map, ns, keys) && keys.len() == listed.len() && forall|i: int|
            0 <= i < keys.len() ==> #[trigger] listed[i] == map[keys[i]];
    assert(keys.contains(keys[i]));
    assert(listed[i] == map[keys[i]]);
}

/// Every resource that is stored under a key of the namespace is in the list, and no key gives two
/// entries: the list is as long as a list of the keys without repetition.
pub proof fn lists_miss_nothing(
    map: Map<Seq<char>, KubeResource>,
    ns: Seq<char>,
    listed: Seq<KubeResource>,
    key: Seq<char>,
)
    requires
        lists_namespace(map, ns, listed),
        map.contains_key(key),
        in_namespace(ns, key),
    ensures
        listed.contains(map[key]),
        exists|keys: Seq<Seq<char>>|
            {
                &&& #[trigger] keys.no_duplicates()
                &&& keys.len() == listed.len()
                &&& keys.contains(key)
                &&& forall|i: int|
                    0 <= i < keys.len() ==> map.contains_key(#[trigger] keys[i]) && in_namespace(
                        ns,
                        keys[i],
                    )
            },
{
    let keys = choose|keys: Seq<Seq<char>>| #[trigger]
        keys_of_namespace(map, ns, keys) && keys.len() == listed.len() && forall|i: int|
            0 <= i < keys.len() ==> #[trigger] listed[i] == map[keys[i]];
    assert(keys.contains(key));
    let i = choose|i: int| 0 <= i < keys.len() && keys[i] == key;
    assert(listed[i] == map[key]);
    assert forall|i: int| 0 <= i < keys.len() implies map.contains_key(#[trigger] keys[i])
        && in_namespace(ns, keys[i]) by {
        assert(keys.contains(keys[i]));
    }
}

/// Removing a resource takes it away and leaves all others as they are.
pub proof fn removing_takes_one_resource(
    map: Map<Seq<char>, KubeResource>,
    ns: Seq<char>,
    name: Seq<char>,
    other_ns: Seq<char>,
    other_name: Seq<char>,
)
    requires
        !ns.contains('/'),
        !other_ns.contains('/'),
    ensures
        ({
            let after = map.remove(key_text(ns, name));
            let other = key_text(other_ns, other_name);
            &&& !after.contains_key(key_text(ns, name))
            &&& (other_ns, other_name) != (ns, name) ==> (after.contains_key(other)
                <==> map.contains_key(other)) && after[other] == map[other]
        }),
{
    let other = key_text(other_ns, other_name);
    if other == key_text(ns, name) {
        keys_tell_resources_apart(ns, name, other_ns, other_name);
    }
}

/// A boot image is stored as it came, ready at once, and nothing else is said of its status.
pub proof fn boot_images_are_ready_at_once(bfb: KubeResource)
    ensures
        created_bfb(bfb).namespace == bfb.namespace,
        created_bfb(bfb).name == bfb.name,
        created_bfb(bfb).document == bfb.document,
        created_bfb(bfb).deployment_bfb == bfb.deployment_bfb,
        created_bfb(bfb).bfb_status matches Some(status) && status.phase == BfbStatusPhase::Ready
            && status.file_name is None && status.versions is None && status.conditions is None
            && status.observed_generation is None,
        resource_key_text(created_bfb(bfb)) == resource_key_text(bfb),
{
}

} // verus!
