//! The Secret that holds a tunnel's credentials.

use vstd::prelude::*;
use vstd::string::StringExecFns;
use crate::crd::{CloudflareTunnel, TunnelMeta};
use crate::resources::meta::{
    ObjectMeta, can_own, in_map_order, is_owned_meta, key_views, managed_by_labels, managed_label,
    owned_meta,
};

verus! {

/// A Secret with binary data entries.
pub struct Secret {
    pub metadata: ObjectMeta,
    pub data: Option<Vec<(String, Vec<u8>)>>,
}

/// `s` is the credentials Secret of the tunnel `t`: named
/// `{name}-tunnel-credentials`, owned and labelled, holding `credentials`
/// under the key `credentials.json`.
pub open spec fn is_credentials_secret(s: Secret, t: TunnelMeta, credentials: Seq<u8>) -> bool {
    &&& is_owned_meta(s.metadata, t, "-tunnel-credentials"@, seq![managed_label()])
    &&& s.data matches Some(d) && d@.len() == 1 && d@[0].0@ == "credentials.json"@ && d@[0].1@
        == credentials && in_map_order(key_views(d@))
}

/// Builds a Secret containing tunnel credentials JSON.
///
/// The secret is named `{name}-tunnel-credentials` and stores the credentials
/// under the key `credentials.json`.
pub fn build(tunnel: &CloudflareTunnel, credentials_json: &[u8]) -> (r: Secret)
    requires
        tunnel.metadata.namespace is Some,
        can_own(tunnel.metadata),
    ensures
        is_credentials_secret(r, tunnel.metadata, credentials_json@),
{
    let namespace = tunnel.namespace().unwrap();
    let owner = tunnel.controller_owner_ref().unwrap();
    let mut data: Vec<(String, Vec<u8>)> = Vec::new();
    data.push((String::from_str("credentials.json"), vstd::slice::slice_to_vec(credentials_json)));
    Secret {
        metadata: owned_meta(tunnel, namespace, owner, "-tunnel-credentials", managed_by_labels()),
        data: Some(data),
    }
}

} // verus!
