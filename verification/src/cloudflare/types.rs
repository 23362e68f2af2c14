//! Payloads of the Cloudflare v4 API.

use vstd::prelude::*;

verus! {

/// A response carrying one result.
pub struct CfResponse<T> {
    pub result: T,
    pub success: bool,
}

/// A response carrying a list of results.
pub struct CfListResponse<T> {
    pub result: Vec<T>,
    pub success: bool,
}

/// A DNS zone.
pub struct Zone {
    pub id: String,
    pub name: String,
    pub account: Account,
}

/// The account that owns a zone.
pub struct Account {
    pub id: String,
}

/// The body of a tunnel creation request.
pub struct CreateTunnelRequest {
    pub name: String,
    pub tunnel_secret: String,
    pub config_src: String,
}

/// A Cloudflare tunnel.
pub struct Tunnel {
    pub id: String,
    pub name: String,
}

/// The body of a DNS record creation request.
pub struct CreateDnsRecordRequest {
    pub record_type: String,
    pub name: String,
    pub content: String,
    pub proxied: bool,
    pub comment: String,
    pub ttl: u32,
}

/// A DNS record.
pub struct DnsRecord {
    pub id: String,
    pub name: String,
    pub content: String,
    pub record_type: String,
}

/// The mathematical form of a `DnsRecord`.
pub struct DnsRecordView {
    pub id: Seq<char>,
    pub name: Seq<char>,
    pub content: Seq<char>,
    pub record_type: Seq<char>,
}

impl View for DnsRecord {
    type V = DnsRecordView;

    open spec fn view(&self) -> DnsRecordView {
        DnsRecordView {
            id: self.id@,
            name: self.name@,
            content: self.content@,
            record_type: self.record_type@,
        }
    }
}

/// The views of a list of records.
pub open spec fn record_views(v: Seq<DnsRecord>) -> Seq<DnsRecordView> {
    v.map_values(|r: DnsRecord| r@)
}

impl DnsRecord {
    /// A copy of the record.
    pub fn duplicate(&self) -> (r: DnsRecord)
        ensures
            r@ == self@,
    {
        DnsRecord {
            id: self.id.clone(),
            name: self.name.clone(),
            content: self.content.clone(),
            record_type: self.record_type.clone(),
        }
    }
}

} // verus!
