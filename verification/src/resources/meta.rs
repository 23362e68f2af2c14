//! Object metadata shared by the owned resources: names, owner references and labels.

use vstd::prelude::*;
use vstd::string::StringExecFns;
use crate::crd::{CloudflareTunnel, TunnelMeta, spec_name_any, tunnel_api_version, tunnel_kind};

verus! {

/// A reference from an owned object to its owner.
pub struct OwnerReference {
    pub api_version: String,
    pub kind: String,
    pub name: String,
    pub uid: String,
    pub controller: Option<bool>,
    pub block_owner_deletion: Option<bool>,
}

/// The metadata of an owned object.
pub struct ObjectMeta {
    pub name: Option<String>,
    pub namespace: Option<String>,
    pub owner_references: Option<Vec<OwnerReference>>,
    pub labels: Option<Vec<(String, String)>>,
}

/// The views of a list of labels, in order.
pub open spec fn label_views(l: Seq<(String, String)>) -> Seq<(Seq<char>, Seq<char>)> {
    l.map_values(|p: (String, String)| (p.0@, p.1@))
}

/// `a` sorts strictly before `b`: at the first position where they differ
/// the character of `a` has the smaller code point, or `a` is a proper prefix
/// of `b`. This is the order of `String` keys in a `BTreeMap`.
pub open spec fn text_before(a: Seq<char>, b: Seq<char>) -> bool {
    exists|k: int|
        0 <= k <= a.len() && k <= b.len() && #[trigger] a.take(k) == b.take(k) && ((k == a.len()
            && k < b.len()) || (k < a.len() && k < b.len() && (a[k] as u32) < (b[k] as u32)))
}

/// The keys of a list of entries, in order.
pub open spec fn entry_keys<V>(entries: Seq<(Seq<char>, V)>) -> Seq<Seq<char>> {
    entries.map_values(|e: (Seq<char>, V)| e.0)
}

/// The keys of a list of entries keyed by strings, in order.
pub open spec fn key_views<V>(entries: Seq<(String, V)>) -> Seq<Seq<char>> {
    entries.map_values(|e: (String, V)| e.0@)
}

/// The keys occur once each and in increasing order: the entries are listed
/// as a `BTreeMap` with these keys would list them.
pub open spec fn in_map_order(keys: Seq<Seq<char>>) -> bool {
    forall|i: int, j: int| 0 <= i < j < keys.len() ==> text_before(#[trigger] keys[i], #[trigger] keys[j])
}

/// No text sorts before itself, so keys in map order are distinct.
pub proof fn lemma_map_order_distinct(keys: Seq<Seq<char>>, i: int, j: int)
    requires
        in_map_order(keys),
        0 <= i < keys.len(),
        0 <= j < keys.len(),
        i != j,
    ensures
        keys[i] != keys[j],
{
    if i < j {
        assert(text_before(keys[i], keys[j]));
    } else {
        assert(text_before(keys[j], keys[i]));
    }
}

/// The label that marks the objects this operator manages.
pub open spec fn managed_label() -> (Seq<char>, Seq<char>) {
    ("app.kubernetes.io/managed-by"@, "cloudflare-tunnel-operator"@)
}

/// `o` is the controller reference to the tunnel described by `t`.
pub open spec fn is_controller_ref(o: OwnerReference, t: TunnelMeta) -> bool {
    &&& o.api_version@ == tunnel_api_version()
    &&& o.kind@ == tunnel_kind()
    &&& t.name matches Some(n) && o.name@ == n@
    &&& t.uid matches Some(u) && o.uid@ == u@
    &&& o.controller == Some(true)
    &&& o.block_owner_deletion is None
}

/// A tunnel can own objects when it has a name and a UID.
pub open spec fn can_own(t: TunnelMeta) -> bool {
    t.name is Some && t.uid is Some
}

/// `m` is the metadata of an object named `name_any(t) + suffix`, in the
/// tunnel's namespace, controlled by the tunnel and carrying `labels`.
pub open spec fn is_owned_meta(
    m: ObjectMeta,
    t: TunnelMeta,
    suffix: Seq<char>,
    labels: Seq<(Seq<char>, Seq<char>)>,
) -> bool {
    &&& m.name matches Some(n) && n@ == spec_name_any(t) + suffix
    &&& m.namespace matches Some(ns) && t.namespace matches Some(tn) && ns@ == tn@
    &&& m.owner_references matches Some(os) && os@.len() == 1 && is_controller_ref(os@[0], t)
    &&& m.labels matches Some(l) && label_views(l@) == labels && in_map_order(entry_keys(labels))
}

/// The labels of every object the operator manages:
/// `app.kubernetes.io/managed-by: cloudflare-tunnel-operator`.
pub fn managed_by_labels() -> (r: Vec<(String, String)>)
    ensures
        label_views(r@) == seq![managed_label()],
        in_map_order(entry_keys(label_views(r@))),
{
    let mut labels: Vec<(String, String)> = Vec::new();
    labels.push(
        (
            String::from_str("app.kubernetes.io/managed-by"),
            String::from_str("cloudflare-tunnel-operator"),
        ),
    );
    assert(label_views(labels@) =~= seq![managed_label()]);
    labels
}

impl CloudflareTunnel {
    /// The reference by which owned objects point at this tunnel as their
    /// controller; there is none when the tunnel lacks a name or a UID.
    pub fn controller_owner_ref(&self) -> (r: Option<OwnerReference>)
        ensures
            r is Some <==> can_own(self.metadata),
            r matches Some(o) ==> is_controller_ref(o, self.metadata),
    {
        match (&self.metadata.name, &self.metadata.uid) {
            (Some(n), Some(u)) => Some(
                OwnerReference {
                    api_version: String::from_str("tunnels.abutt.dev/v1alpha1"),
                    kind: String::from_str("CloudflareTunnel"),
                    name: n.clone(),
                    uid: u.clone(),
                    controller: Some(true),
                    block_owner_deletion: None,
                },
            ),
            _ => None,
        }
    }
}

/// The name of an owned object: the tunnel's name followed by `suffix`.
pub fn child_name(tunnel: &CloudflareTunnel, suffix: &str) -> (r: String)
    ensures
        r@ == spec_name_any(tunnel.metadata) + suffix@,
{
    let mut n = tunnel.name_any();
    n.append(suffix);
    n
}

/// The metadata of an object named `name_any + suffix` that the tunnel owns.
pub fn owned_meta(
    tunnel: &CloudflareTunnel,
    namespace: String,
    owner: OwnerReference,
    suffix: &str,
    labels: Vec<(String, String)>,
) -> (r: ObjectMeta)
    requires
        tunnel.metadata.namespace matches Some(tn) && namespace@ == tn@,
        is_controller_ref(owner, tunnel.metadata),
        in_map_order(entry_keys(label_views(labels@))),
    ensures
        is_owned_meta(r, tunnel.metadata, suffix@, label_views(labels@)),
{
    let mut owners: Vec<OwnerReference> = Vec::new();
    owners.push(owner);
    ObjectMeta {
        name: Some(child_name(tunnel, suffix)),
        namespace: Some(namespace),
        owner_references: Some(owners),
        labels: Some(labels),
    }
}

} // verus!
