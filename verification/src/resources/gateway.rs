//! The Gateway API `Gateway` through which routes reach a tunnel.

use vstd::prelude::*;
use vstd::string::StringExecFns;
use crate::crd::{CloudflareTunnel, TunnelMeta, Listener, listener_hostnames};
use crate::resources::meta::{
    ObjectMeta, can_own, is_owned_meta, managed_by_labels, managed_label, owned_meta,
};
use crate::text::{decimal, push_decimal};

verus! {

/// The identity of an API resource type.
pub struct ApiResource {
    pub group: String,
    pub version: String,
    pub api_version: String,
    pub kind: String,
    pub plural: String,
}

/// One listener of a Gateway.
pub struct GatewayListener {
    pub name: String,
    pub hostname: String,
    pub port: u16,
    pub protocol: String,
    /// The namespaces from which routes may attach (`allowedRoutes.namespaces.from`).
    pub allowed_routes_from: String,
}

/// A `gateway.networking.k8s.io/v1` Gateway object.
pub struct Gateway {
    pub api_version: String,
    pub kind: String,
    pub metadata: ObjectMeta,
    pub gateway_class_name: String,
    pub listeners: Vec<GatewayListener>,
}

/// The name of the `i`-th listener: `listener-{i}`.
pub open spec fn listener_name(i: nat) -> Seq<char> {
    "listener-"@ + decimal(i)
}

/// `l` is the listener made for the `i`-th hostname: port 80, HTTP, routes
/// allowed from all namespaces.
pub open spec fn is_gateway_listener(l: GatewayListener, i: nat, hostname: Seq<char>) -> bool {
    &&& l.name@ == listener_name(i)
    &&& l.hostname@ == hostname
    &&& l.port == 80
    &&& l.protocol@ == "HTTP"@
    &&& l.allowed_routes_from@ == "All"@
}

/// `g` is the tunnel's Gateway: named `{name}-gateway`, owned and labelled,
/// of the tunnel's GatewayClass, with one listener per tunnel hostname in order.
pub open spec fn is_tunnel_gateway(g: Gateway, t: CloudflareTunnel) -> bool {
    &&& g.api_version@ == "gateway.networking.k8s.io/v1"@
    &&& g.kind@ == "Gateway"@
    &&& is_owned_meta(g.metadata, t.metadata, "-gateway"@, seq![managed_label()])
    &&& g.gateway_class_name@ == t.spec.gateway.gateway_class_name@
    &&& g.listeners@.len() == t.spec.gateway.listeners@.len()
    &&& forall|i: int|
        0 <= i < g.listeners@.len() ==> is_gateway_listener(
            #[trigger] g.listeners@[i],
            i as nat,
            t.spec.gateway.listeners@[i].hostname@,
        )
}

/// The `gateway.networking.k8s.io/v1` Gateway resource type.
pub fn gateway_api_resource() -> (r: ApiResource)
    ensures
        r.group@ == "gateway.networking.k8s.io"@,
        r.version@ == "v1"@,
        r.api_version@ == "gateway.networking.k8s.io/v1"@,
        r.kind@ == "Gateway"@,
        r.plural@ == "gateways"@,
{
    ApiResource {
        group: String::from_str("gateway.networking.k8s.io"),
        version: String::from_str("v1"),
        api_version: String::from_str("gateway.networking.k8s.io/v1"),
        kind: String::from_str("Gateway"),
        plural: String::from_str("gateways"),
    }
}

fn gateway_listeners(listeners: &Vec<Listener>) -> (r: Vec<GatewayListener>)
    ensures
        r@.len() == listeners@.len(),
        forall|i: int|
            0 <= i < r@.len() ==> is_gateway_listener(
                #[trigger] r@[i],
                i as nat,
                listeners@[i].hostname@,
            ),
{
    let mut out: Vec<GatewayListener> = Vec::new();
    let mut i: usize = 0;
    while i < listeners.len()
        invariant
            i <= listeners.len(),
            out@.len() == i,
            forall|j: int|
                0 <= j < i ==> is_gateway_listener(#[trigger] out@[j], j as nat, listeners@[j].hostname@),
        decreases listeners.len() - i,
    {
        let mut name = String::from_str("listener-");
        push_decimal(&mut name, i);
        out.push(
            GatewayListener {
                name,
                hostname: listeners[i].hostname.clone(),
                port: 80,
                protocol: String::from_str("HTTP"),
                allowed_routes_from: String::from_str("All"),
            },
        );
        i = i + 1;
    }
    out
}

/// Builds a Gateway for the Gateway API.
///
/// Each listener gets a name like `listener-0`, port 80, protocol HTTP,
/// with allowedRoutes from All namespaces.
pub fn build(tunnel: &CloudflareTunnel) -> (r: Result<Gateway, &'static str>)
    ensures
        match r {
            Ok(g) => tunnel.metadata.namespace is Some && can_own(tunnel.metadata)
                && is_tunnel_gateway(g, *tunnel),
            Err(e) => if tunnel.metadata.namespace is None {
                e@ == "CloudflareTunnel must be namespaced"@
            } else {
                !can_own(tunnel.metadata) && e@ == "failed to build owner reference"@
            },
        },
{
    let namespace = match tunnel.namespace() {
        Some(n) => n,
        None => return Err("CloudflareTunnel must be namespaced"),
    };
    let owner = match tunnel.controller_owner_ref() {
        Some(o) => o,
        None => return Err("failed to build owner reference"),
    };
    let ar = gateway_api_resource();
    Ok(
        Gateway {
            api_version: ar.api_version,
            kind: ar.kind,
            metadata: owned_meta(tunnel, namespace, owner, "-gateway", managed_by_labels()),
            gateway_class_name: tunnel.spec.gateway.gateway_class_name.clone(),
            listeners: gateway_listeners(&tunnel.spec.gateway.listeners),
        },
    )
}

} // verus!
