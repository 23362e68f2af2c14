//! The `CloudflareTunnel` custom resource (`tunnels.abutt.dev/v1alpha1`).

use vstd::prelude::*;

verus! {

/// The desired state of a tunnel.
pub struct CloudflareTunnelSpec {
    /// Cloudflare zone name for DNS record management.
    pub zone: String,
    /// Gateway configuration.
    pub gateway: GatewaySpec,
    /// cloudflared container image override.
    pub image: Option<String>,
    /// Reference to a Secret containing a Cloudflare API token.
    /// Falls back to the controller-wide default if not set.
    pub credentials_ref: Option<SecretRef>,
}

/// Gateway configuration of a tunnel.
pub struct GatewaySpec {
    /// GatewayClass to use (e.g., "cilium").
    pub gateway_class_name: String,
    /// Hostnames the tunnel serves. Each gets a DNS record and Gateway listener.
    pub listeners: Vec<Listener>,
}

/// One hostname served by the tunnel.
pub struct Listener {
    /// Hostname for this listener (e.g., "blog.abutt.dev" or "*.abutt.dev").
    pub hostname: String,
}

/// A reference to a Secret.
pub struct SecretRef {
    /// Name of the Secret.
    pub name: String,
    /// Namespace of the Secret.
    pub namespace: String,
}

/// A standard Kubernetes condition, without its transition time (which the
/// caller stamps when it writes the status).
pub struct Condition {
    pub type_: String,
    pub status: String,
    pub reason: String,
    pub message: String,
    pub observed_generation: Option<i64>,
}

/// The observed state of a tunnel.
pub struct CloudflareTunnelStatus {
    /// The Cloudflare tunnel ID.
    pub tunnel_id: Option<String>,
    /// Standard Kubernetes conditions.
    pub conditions: Vec<Condition>,
    /// Per-route status.
    pub routes: Vec<RouteStatus>,
}

/// The status of one hostname's DNS route.
pub struct RouteStatus {
    pub hostname: String,
    pub dns_record: String,
    pub status: String,
}

/// The mathematical form of a `RouteStatus`.
pub struct RouteStatusView {
    pub hostname: Seq<char>,
    pub dns_record: Seq<char>,
    pub status: Seq<char>,
}

impl View for RouteStatus {
    type V = RouteStatusView;

    open spec fn view(&self) -> RouteStatusView {
        RouteStatusView {
            hostname: self.hostname@,
            dns_record: self.dns_record@,
            status: self.status@,
        }
    }
}

/// The views of a list of route statuses.
pub open spec fn route_views(v: Seq<RouteStatus>) -> Seq<RouteStatusView> {
    v.map_values(|r: RouteStatus| r@)
}

impl RouteStatus {
    /// A copy of the route status.
    pub fn duplicate(&self) -> (r: RouteStatus)
        ensures
            r@ == self@,
    {
        RouteStatus {
            hostname: self.hostname.clone(),
            dns_record: self.dns_record.clone(),
            status: self.status.clone(),
        }
    }
}

/// The metadata of a tunnel object that the operator reads.
pub struct TunnelMeta {
    pub name: Option<String>,
    pub generate_name: Option<String>,
    pub namespace: Option<String>,
    pub uid: Option<String>,
    pub generation: Option<i64>,
}

/// A `CloudflareTunnel` object.
pub struct CloudflareTunnel {
    pub metadata: TunnelMeta,
    pub spec: CloudflareTunnelSpec,
    pub status: Option<CloudflareTunnelStatus>,
}

/// The API version of the custom resource.
pub open spec fn tunnel_api_version() -> Seq<char> {
    "tunnels.abutt.dev/v1alpha1"@
}

/// The kind of the custom resource.
pub open spec fn tunnel_kind() -> Seq<char> {
    "CloudflareTunnel"@
}

/// The most useful name of an object: its name, else its `generateName`, else empty.
pub open spec fn spec_name_any(m: TunnelMeta) -> Seq<char> {
    match m.name {
        Some(n) => n@,
        None => match m.generate_name {
            Some(g) => g@,
            None => Seq::empty(),
        },
    }
}

/// The hostnames of the listeners, in order.
pub open spec fn listener_hostnames(ls: Seq<Listener>) -> Seq<Seq<char>> {
    ls.map_values(|l: Listener| l.hostname@)
}

impl CloudflareTunnel {
    /// The name of the object, else its `generateName`, else the empty string.
    pub fn name_any(&self) -> (r: String)
        ensures
            r@ == spec_name_any(self.metadata),
    {
        match &self.metadata.name {
            Some(n) => n.clone(),
            None => match &self.metadata.generate_name {
                Some(g) => g.clone(),
                None => String::new(),
            },
        }
    }

    /// The namespace of the object.
    pub fn namespace(&self) -> (r: Option<String>)
        ensures
            match r {
                Some(n) => self.metadata.namespace matches Some(m) && n@ == m@,
                None => self.metadata.namespace is None,
            },
    {
        match &self.metadata.namespace {
            Some(n) => Some(n.clone()),
            None => None,
        }
    }

    /// The tunnel ID recorded in the status, if any.
    pub fn recorded_tunnel_id(&self) -> (r: Option<String>)
        ensures
            match r {
                Some(t) => self.status matches Some(s) && s.tunnel_id matches Some(i) && t@ == i@,
                None => self.status is None || self.status->0.tunnel_id is None,
            },
    {
        match &self.status {
            Some(s) => match &s.tunnel_id {
                Some(t) => Some(t.clone()),
                None => None,
            },
            None => None,
        }
    }
}

} // verus!
