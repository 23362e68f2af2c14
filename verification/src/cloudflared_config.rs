//! The cloudflared configuration file, mirroring the Go structs of cloudflared's
//! `config` package (field names in snake_case, types as `go_parser` maps them).

use vstd::prelude::*;

verus! {

/// One ingress rule as written in the configuration file.
pub struct UnvalidatedIngressRule {
    pub hostname: String,
    pub path: String,
    pub service: String,
    pub origin_request: OriginRequestConfig,
}

/// Settings for the connection from cloudflared to the origin.
pub struct OriginRequestConfig {
    pub connect_timeout: Option<String>,
    pub tls_timeout: Option<String>,
    pub tcp_keep_alive: Option<String>,
    pub no_happy_eyeballs: Option<bool>,
    pub keep_alive_connections: Option<i64>,
    pub keep_alive_timeout: Option<String>,
    pub http_host_header: Option<String>,
    pub origin_server_name: Option<String>,
    pub match_sni_to_host: Option<bool>,
    pub ca_pool: Option<String>,
    pub no_tls_verify: Option<bool>,
    pub disable_chunked_encoding: Option<bool>,
    pub bastion_mode: Option<bool>,
    pub proxy_address: Option<String>,
    pub proxy_port: Option<u64>,
    pub proxy_type: Option<String>,
    pub ip_rules: Vec<IngressIPRule>,
    pub http2_origin: Option<bool>,
    pub access: Option<Box<AccessConfig>>,
}

/// Cloudflare Access settings of an origin.
pub struct AccessConfig {
    pub required: bool,
    pub team_name: String,
    pub aud_tag: Vec<String>,
}

/// An IP rule of an origin.
pub struct IngressIPRule {
    pub prefix: Option<String>,
    pub ports: Vec<i64>,
    pub allow: bool,
}

/// Private-network routing settings.
pub struct WarpRoutingConfig {
    pub connect_timeout: Option<String>,
    pub tcp_keep_alive: Option<String>,
}

/// The cloudflared configuration (`Configuration` in cloudflared).
pub struct CloudflaredConfig {
    pub tunnel_id: String,
    pub ingress: Vec<UnvalidatedIngressRule>,
    pub warp_routing: WarpRoutingConfig,
    pub origin_request: OriginRequestConfig,
}

/// The configuration file written for a tunnel pod: the tunnel, the path of
/// its credentials file, and the ingress rules.
pub struct CloudflaredConfigFile {
    pub tunnel: String,
    pub credentials_file: String,
    pub ingress: Vec<UnvalidatedIngressRule>,
}

/// Every setting of an origin request is unset.
pub open spec fn origin_request_unset(o: OriginRequestConfig) -> bool {
    &&& o.connect_timeout is None
    &&& o.tls_timeout is None
    &&& o.tcp_keep_alive is None
    &&& o.no_happy_eyeballs is None
    &&& o.keep_alive_connections is None
    &&& o.keep_alive_timeout is None
    &&& o.http_host_header is None
    &&& o.origin_server_name is None
    &&& o.match_sni_to_host is None
    &&& o.ca_pool is None
    &&& o.no_tls_verify is None
    &&& o.disable_chunked_encoding is None
    &&& o.bastion_mode is None
    &&& o.proxy_address is None
    &&& o.proxy_port is None
    &&& o.proxy_type is None
    &&& o.ip_rules@.len() == 0
    &&& o.http2_origin is None
    &&& o.access is None
}

impl Default for OriginRequestConfig {
    fn default() -> (r: Self)
        ensures
            origin_request_unset(r),
    {
        OriginRequestConfig {
            connect_timeout: None,
            tls_timeout: None,
            tcp_keep_alive: None,
            no_happy_eyeballs: None,
            keep_alive_connections: None,
            keep_alive_timeout: None,
            http_host_header: None,
            origin_server_name: None,
            match_sni_to_host: None,
            ca_pool: None,
            no_tls_verify: None,
            disable_chunked_encoding: None,
            bastion_mode: None,
            proxy_address: None,
            proxy_port: None,
            proxy_type: None,
            ip_rules: Vec::new(),
            http2_origin: None,
            access: None,
        }
    }
}

impl Default for UnvalidatedIngressRule {
    fn default() -> (r: Self)
        ensures
            r.hostname@ == Seq::<char>::empty(),
            r.path@ == Seq::<char>::empty(),
            r.service@ == Seq::<char>::empty(),
            origin_request_unset(r.origin_request),
    {
        UnvalidatedIngressRule {
            hostname: String::new(),
            path: String::new(),
            service: String::new(),
            origin_request: OriginRequestConfig::default(),
        }
    }
}

impl Default for AccessConfig {
    fn default() -> (r: Self)
        ensures
            !r.required,
            r.team_name@ == Seq::<char>::empty(),
            r.aud_tag@.len() == 0,
    {
        AccessConfig { required: false, team_name: String::new(), aud_tag: Vec::new() }
    }
}

impl Default for IngressIPRule {
    fn default() -> (r: Self)
        ensures
            r.prefix is None,
            r.ports@.len() == 0,
            !r.allow,
    {
        IngressIPRule { prefix: None, ports: Vec::new(), allow: false }
    }
}

impl Default for WarpRoutingConfig {
    fn default() -> (r: Self)
        ensures
            r.connect_timeout is None,
            r.tcp_keep_alive is None,
    {
        WarpRoutingConfig { connect_timeout: None, tcp_keep_alive: None }
    }
}

impl Default for CloudflaredConfig {
    fn default() -> (r: Self)
        ensures
            r.tunnel_id@ == Seq::<char>::empty(),
            r.ingress@.len() == 0,
            r.warp_routing.connect_timeout is None,
            r.warp_routing.tcp_keep_alive is None,
            origin_request_unset(r.origin_request),
    {
        CloudflaredConfig {
            tunnel_id: String::new(),
            ingress: Vec::new(),
            warp_routing: WarpRoutingConfig::default(),
            origin_request: OriginRequestConfig::default(),
        }
    }
}

} // verus!
