//! The ConfigMap that carries a tunnel's cloudflared configuration.

use vstd::prelude::*;
use vstd::string::StringExecFns;
use crate::cloudflared_config::{
    CloudflaredConfigFile, OriginRequestConfig, UnvalidatedIngressRule, origin_request_unset,
};
use crate::crd::{CloudflareTunnel, TunnelMeta, spec_name_any};
use crate::resources::meta::{
    ObjectMeta, can_own, in_map_order, is_owned_meta, key_views, managed_by_labels, managed_label,
    owned_meta,
};

verus! {

/// A ConfigMap whose entries hold cloudflared configuration files; each file
/// is written out as YAML under its key.
pub struct ConfigMap {
    pub metadata: ObjectMeta,
    pub data: Option<Vec<(String, CloudflaredConfigFile)>>,
}

/// The in-cluster host name of the tunnel's Gateway service:
/// `{name}-gateway.{namespace}.svc.cluster.local`.
pub open spec fn gateway_service_host(t: TunnelMeta) -> Seq<char> {
    spec_name_any(t) + "-gateway."@ + t.namespace->0@ + ".svc.cluster.local"@
}

/// `c` is the configuration of the tunnel `t` with ID `tunnel_id`: the
/// credentials file path, an ingress rule (no hostname) that sends traffic to
/// the Gateway service, and the closing catch-all rule answering 404.
pub open spec fn is_tunnel_config(c: CloudflaredConfigFile, t: TunnelMeta, tunnel_id: Seq<char>) -> bool {
    &&& c.tunnel@ == tunnel_id
    &&& c.credentials_file@ == "/etc/cloudflared/creds/credentials.json"@
    &&& c.ingress@.len() == 2
    &&& c.ingress@[0].hostname@ == Seq::<char>::empty()
    &&& c.ingress@[0].path@ == Seq::<char>::empty()
    &&& c.ingress@[0].service@ == "http://"@ + gateway_service_host(t)
    &&& origin_request_unset(c.ingress@[0].origin_request)
    &&& c.ingress@[1].hostname@ == Seq::<char>::empty()
    &&& c.ingress@[1].path@ == Seq::<char>::empty()
    &&& c.ingress@[1].service@ == "http_status:404"@
    &&& origin_request_unset(c.ingress@[1].origin_request)
}

/// `cm` is the configuration ConfigMap of the tunnel: named `{name}-config`,
/// owned and labelled, with the configuration under `config.yaml`.
pub open spec fn is_config_map(cm: ConfigMap, t: TunnelMeta, tunnel_id: Seq<char>) -> bool {
    &&& is_owned_meta(cm.metadata, t, "-config"@, seq![managed_label()])
    &&& cm.data matches Some(d) && d@.len() == 1 && d@[0].0@ == "config.yaml"@ && is_tunnel_config(
        d@[0].1,
        t,
        tunnel_id,
    ) && in_map_order(key_views(d@))
}

/// Builds a ConfigMap containing the cloudflared configuration.
///
/// The config includes the tunnel ID, credentials-file path, and a single
/// ingress rule pointing to the gateway service with a catch-all 404.
pub fn build(tunnel: &CloudflareTunnel, tunnel_id: &str) -> (r: Result<ConfigMap, &'static str>)
    ensures
        match r {
            Ok(cm) => tunnel.metadata.namespace is Some && can_own(tunnel.metadata)
                && is_config_map(cm, tunnel.metadata, tunnel_id@),
            Err(e) => if tunnel.metadata.namespace is None {
                e@ == "CloudflareTunnel must be namespaced"@
            } else {
                !can_own(tunnel.metadata) && e@ == "failed to build owner reference"@
            },
        },
{
    let name = tunnel.name_any();
    let namespace = match tunnel.namespace() {
        Some(n) => n,
        None => return Err("CloudflareTunnel must be namespaced"),
    };
    let owner = match tunnel.controller_owner_ref() {
        Some(o) => o,
        None => return Err("failed to build owner reference"),
    };
    let mut service = String::from_str("http://");
    service.append(name.as_str());
    service.append("-gateway.");
    service.append(namespace.as_str());
    service.append(".svc.cluster.local");
    assert(service@ =~= "http://"@ + gateway_service_host(tunnel.metadata));
    let mut ingress: Vec<UnvalidatedIngressRule> = Vec::new();
    ingress.push(
        UnvalidatedIngressRule {
            hostname: String::new(),
            path: String::new(),
            service,
            origin_request: OriginRequestConfig::default(),
        },
    );
    ingress.push(
        UnvalidatedIngressRule {
            hostname: String::new(),
            path: String::new(),
            service: String::from_str("http_status:404"),
            origin_request: OriginRequestConfig::default(),
        },
    );
    let config = CloudflaredConfigFile {
        tunnel: String::from_str(tunnel_id),
        credentials_file: String::from_str("/etc/cloudflared/creds/credentials.json"),
        ingress,
    };
    let mut data: Vec<(String, CloudflaredConfigFile)> = Vec::new();
    data.push((String::from_str("config.yaml"), config));
    Ok(
        ConfigMap {
            metadata: owned_meta(tunnel, namespace, owner, "-config", managed_by_labels()),
            data: Some(data),
        },
    )
}

} // verus!
