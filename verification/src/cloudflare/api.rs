//! What the operator sends to the Cloudflare API and how it reads the replies.

use vstd::prelude::*;
use vstd::string::StringExecFns;
use base64::Engine;
use rand::Rng;
use crate::cloudflare::types::{
    CreateDnsRecordRequest, CreateTunnelRequest, DnsRecord, DnsRecordView, Zone, record_views,
};

verus! {

/// The base URL of the Cloudflare v4 API.
pub open spec fn api_base() -> Seq<char> {
    "https://api.cloudflare.com/client/v4"@
}

/// The comment that marks the DNS records this operator manages.
pub open spec fn tunnel_comment() -> Seq<char> {
    "Managed by cloudflare-tunnel-operator"@
}

/// The views of a list of query parameters.
pub open spec fn query_views(q: Seq<(String, String)>) -> Seq<(Seq<char>, Seq<char>)> {
    q.map_values(|p: (String, String)| (p.0@, p.1@))
}

fn api_url(path: &str) -> (r: String)
    ensures
        r@ == api_base() + path@,
{
    let mut u = String::from_str("https://api.cloudflare.com/client/v4");
    u.append(path);
    u
}

/// The `Authorization` header value for an API token.
pub fn auth_header(token: &str) -> (r: String)
    ensures
        r@ == "Bearer "@ + token@,
{
    let mut h = String::from_str("Bearer ");
    h.append(token);
    h
}

/// `GET /zones`.
pub fn zones_url() -> (r: String)
    ensures
        r@ == api_base() + "/zones"@,
{
    api_url("/zones")
}

/// The tunnels of an account: `/accounts/{account_id}/cfd_tunnel`.
pub fn tunnels_url(account_id: &str) -> (r: String)
    ensures
        r@ == api_base() + "/accounts/"@ + account_id@ + "/cfd_tunnel"@,
{
    let mut u = api_url("/accounts/");
    u.append(account_id);
    u.append("/cfd_tunnel");
    u
}

/// One tunnel: `/accounts/{account_id}/cfd_tunnel/{tunnel_id}`.
pub fn tunnel_url(account_id: &str, tunnel_id: &str) -> (r: String)
    ensures
        r@ == api_base() + "/accounts/"@ + account_id@ + "/cfd_tunnel"@ + "/"@ + tunnel_id@,
{
    let mut u = tunnels_url(account_id);
    u.append("/");
    u.append(tunnel_id);
    u
}

/// The connections of a tunnel: `/accounts/{account_id}/cfd_tunnel/{tunnel_id}/connections`.
pub fn tunnel_connections_url(account_id: &str, tunnel_id: &str) -> (r: String)
    ensures
        r@ == api_base() + "/accounts/"@ + account_id@ + "/cfd_tunnel"@ + "/"@ + tunnel_id@
            + "/connections"@,
{
    let mut u = tunnel_url(account_id, tunnel_id);
    u.append("/connections");
    u
}

/// The DNS records of a zone: `/zones/{zone_id}/dns_records`.
pub fn dns_records_url(zone_id: &str) -> (r: String)
    ensures
        r@ == api_base() + "/zones/"@ + zone_id@ + "/dns_records"@,
{
    let mut u = api_url("/zones/");
    u.append(zone_id);
    u.append("/dns_records");
    u
}

/// One DNS record: `/zones/{zone_id}/dns_records/{record_id}`.
pub fn dns_record_url(zone_id: &str, record_id: &str) -> (r: String)
    ensures
        r@ == api_base() + "/zones/"@ + zone_id@ + "/dns_records"@ + "/"@ + record_id@,
{
    let mut u = dns_records_url(zone_id);
    u.append("/");
    u.append(record_id);
    u
}

/// The query that looks a zone up by name: `name={zone_name}`.
pub fn zone_query(zone_name: &str) -> (r: Vec<(String, String)>)
    ensures
        query_views(r@) == seq![("name"@, zone_name@)],
{
    let mut q: Vec<(String, String)> = Vec::new();
    q.push((String::from_str("name"), String::from_str(zone_name)));
    assert(query_views(q@) =~= seq![("name"@, zone_name@)]);
    q
}

/// The query that looks up the CNAME records of a hostname: `type=CNAME&name={hostname}`.
pub fn cname_query(hostname: &str) -> (r: Vec<(String, String)>)
    ensures
        query_views(r@) == seq![("type"@, "CNAME"@), ("name"@, hostname@)],
{
    let mut q: Vec<(String, String)> = Vec::new();
    q.push((String::from_str("type"), String::from_str("CNAME")));
    q.push((String::from_str("name"), String::from_str(hostname)));
    assert(query_views(q@) =~= seq![("type"@, "CNAME"@), ("name"@, hostname@)]);
    q
}

/// The query that lists the CNAME records this operator manages, by their comment.
pub fn managed_records_query() -> (r: Vec<(String, String)>)
    ensures
        query_views(r@) == seq![("type"@, "CNAME"@), ("comment.contains"@, tunnel_comment())],
{
    let mut q: Vec<(String, String)> = Vec::new();
    q.push((String::from_str("type"), String::from_str("CNAME")));
    q.push(
        (String::from_str("comment.contains"), String::from_str("Managed by cloudflare-tunnel-operator")),
    );
    assert(query_views(q@) =~= seq![
        ("type"@, "CNAME"@),
        ("comment.contains"@, tunnel_comment()),
    ]);
    q
}

/// The message reported when no zone has the requested name.
pub open spec fn zone_not_found(zone_name: Seq<char>) -> Seq<char> {
    "zone '"@ + zone_name + "' not found"@
}

/// The zone ID and account ID of the first zone of a lookup by name, or the
/// API error message when the lookup found none.
pub fn select_zone(zones: Vec<Zone>, zone_name: &str) -> (r: Result<(String, String), String>)
    ensures
        match r {
            Ok(ids) => zones@.len() > 0 && ids.0@ == zones@[0].id@ && ids.1@ == zones@[0].account.id@,
            Err(msg) => zones@.len() == 0 && msg@ == zone_not_found(zone_name@),
        },
{
    if zones.len() == 0 {
        let mut msg = String::from_str("zone '");
        msg.append(zone_name);
        msg.append("' not found");
        return Err(msg);
    }
    let zone = &zones[0];
    Ok((zone.id.clone(), zone.account.id.clone()))
}

/// Whether an HTTP status says that a tunnel does not exist (404 Not Found).
pub fn tunnel_missing(status: u16) -> (b: bool)
    ensures
        b == (status == 404),
{
    status == 404
}

/// The character of the standard base64 alphabet for the 6-bit value `n`:
/// `A`-`Z`, `a`-`z`, `0`-`9`, `+`, `/`.
pub open spec fn base64_char(n: int) -> char {
    if n < 26 {
        (65 + n) as char
    } else if n < 52 {
        (97 + n - 26) as char
    } else if n < 62 {
        (48 + n - 52) as char
    } else if n == 62 {
        '+'
    } else {
        '/'
    }
}

/// The standard base64 encoding of `bytes` (RFC 4648, section 4): each group
/// of three bytes becomes four characters, and a final group of one or two
/// bytes is padded with `=`.
pub open spec fn base64_standard(bytes: Seq<u8>) -> Seq<char>
    decreases bytes.len(),
{
    if bytes.len() == 0 {
        Seq::empty()
    } else if bytes.len() == 1 {
        let x = bytes[0] as int;
        seq![base64_char(x / 4), base64_char((x % 4) * 16), '=', '=']
    } else if bytes.len() == 2 {
        let x = bytes[0] as int;
        let y = bytes[1] as int;
        seq![base64_char(x / 4), base64_char((x % 4) * 16 + y / 16), base64_char((y % 16) * 4), '=']
    } else {
        let x = bytes[0] as int;
        let y = bytes[1] as int;
        let z = bytes[2] as int;
        seq![
            base64_char(x / 4),
            base64_char((x % 4) * 16 + y / 16),
            base64_char((y % 16) * 4 + z / 64),
            base64_char(z % 64),
        ] + base64_standard(bytes.skip(3))
    }
}

/// The encoding has four characters for each started group of three bytes.
pub proof fn lemma_base64_len(bytes: Seq<u8>)
    ensures
        base64_standard(bytes).len() == 4 * ((bytes.len() + 2) / 3),
    decreases bytes.len(),
{
    if bytes.len() > 2 {
        lemma_base64_len(bytes.skip(3));
    }
}

/// `STANDARD.encode` from the base64 crate: the standard alphabet with
/// padding. It panics only when the encoded length overflows `usize`.
#[verifier::external_body]
fn base64_encode(bytes: &[u8]) -> (r: String)
    requires
        bytes@.len() <= usize::MAX / 2,
    ensures
        r@ == base64_standard(bytes@),
{
    base64::engine::general_purpose::STANDARD.encode(bytes)
}

/// 32 bytes from the thread-local generator of the rand crate
/// (`rand::rng().random::<[u8; 32]>()`). Only the length is stated: the
/// bytes are random.
#[verifier::external_body]
fn random_secret_bytes() -> (r: Vec<u8>)
    ensures
        r@.len() == 32,
{
    let bytes: [u8; 32] = rand::rng().random();
    bytes.to_vec()
}

/// The tunnel secret sent to Cloudflare for the given secret bytes: their
/// base64 encoding.
pub fn encode_tunnel_secret(bytes: &[u8]) -> (r: String)
    requires
        bytes@.len() == 32,
    ensures
        r@ == base64_standard(bytes@),
        r@.len() == 44,
{
    proof {
        lemma_base64_len(bytes@);
    }
    base64_encode(bytes)
}

/// A fresh tunnel secret: 32 random bytes, base64-encoded.
pub fn new_tunnel_secret() -> (r: String)
    ensures
        exists|b: Seq<u8>| b.len() == 32 && r@ == base64_standard(b),
        r@.len() == 44,
{
    let bytes = random_secret_bytes();
    encode_tunnel_secret(bytes.as_slice())
}

/// The request that creates a locally configured tunnel.
pub fn create_tunnel_request(name: &str, tunnel_secret: &str) -> (r: CreateTunnelRequest)
    ensures
        r.name@ == name@,
        r.tunnel_secret@ == tunnel_secret@,
        r.config_src@ == "local"@,
{
    CreateTunnelRequest {
        name: String::from_str(name),
        tunnel_secret: String::from_str(tunnel_secret),
        config_src: String::from_str("local"),
    }
}

/// The lowercase hexadecimal digit for `n` (0 to 15).
pub open spec fn hex_digit(n: int) -> char {
    if n < 10 {
        (48 + n) as char
    } else {
        (97 + n - 10) as char
    }
}

/// How `serde_json` writes the character `c` inside a string literal: `"`
/// and `\` behind a backslash, backspace, tab, newline, form feed and
/// carriage return as `\b \t \n \f \r`, the other control characters
/// below `0x20` as `\u00XX`, and every other character as itself.
pub open spec fn json_escape(c: char) -> Seq<char> {
    let n = c as int;
    if c == '"' {
        seq!['\\', '"']
    } else if c == '\\' {
        seq!['\\', '\\']
    } else if n == 8 {
        seq!['\\', 'b']
    } else if n == 9 {
        seq!['\\', 't']
    } else if n == 10 {
        seq!['\\', 'n']
    } else if n == 12 {
        seq!['\\', 'f']
    } else if n == 13 {
        seq!['\\', 'r']
    } else if n < 32 {
        seq!['\\', 'u', '0', '0', hex_digit(n / 16), hex_digit(n % 16)]
    } else {
        seq![c]
    }
}

/// The escaped characters of `s`.
pub open spec fn json_escaped(s: Seq<char>) -> Seq<char>
    decreases s.len(),
{
    if s.len() == 0 {
        Seq::empty()
    } else {
        json_escaped(s.drop_last()) + json_escape(s.last())
    }
}

/// The JSON text of `s` as a string literal, as `serde_json::to_string`
/// writes it for a string.
pub open spec fn json_string(s: Seq<char>) -> Seq<char> {
    seq!['"'] + json_escaped(s) + seq!['"']
}

/// `serde_json::to_string` on a string slice: the string between double
/// quotes, escaped as `json_escape` says (the escape table of `serde_json`'s
/// serializer). Serializing a `str` into memory has no failure case, so the
/// `Result` is unwrapped.
#[verifier::external_body]
fn json_quote(s: &str) -> (r: String)
    ensures
        r@ == json_string(s@),
{
    serde_json::to_string(s).unwrap()
}

/// The credentials file of a tunnel: the compact JSON object
/// `{"AccountTag":…,"TunnelID":…,"TunnelSecret":…}`, laid out as
/// `serde_json` writes a map with these three string entries (keys in
/// sorted order, no white space). The object's frame is written by
/// `tunnel_credentials` and proved against this statement; each value is
/// written by `serde_json` itself.
pub open spec fn credentials_json(account_id: Seq<char>, tunnel_id: Seq<char>, secret: Seq<char>) -> Seq<
    char,
> {
    "{\"AccountTag\":"@ + json_string(account_id) + ",\"TunnelID\":"@ + json_string(tunnel_id)
        + ",\"TunnelSecret\":"@ + json_string(secret) + "}"@
}

/// The credentials file that cloudflared needs to run a tunnel.
pub fn tunnel_credentials(account_id: &str, tunnel_id: &str, tunnel_secret: &str) -> (r: String)
    ensures
        r@ == credentials_json(account_id@, tunnel_id@, tunnel_secret@),
{
    let mut out = String::from_str("{\"AccountTag\":");
    out.append(json_quote(account_id).as_str());
    out.append(",\"TunnelID\":");
    out.append(json_quote(tunnel_id).as_str());
    out.append(",\"TunnelSecret\":");
    out.append(json_quote(tunnel_secret).as_str());
    out.append("}");
    out
}

/// The CNAME target of a tunnel: `{tunnel_id}.cfargotunnel.com`.
pub open spec fn cname_target_of(tunnel_id: Seq<char>) -> Seq<char> {
    tunnel_id + ".cfargotunnel.com"@
}

/// The CNAME target of a tunnel.
pub fn cname_target(tunnel_id: &str) -> (r: String)
    ensures
        r@ == cname_target_of(tunnel_id@),
{
    let mut t = String::from_str(tunnel_id);
    t.append(".cfargotunnel.com");
    t
}

/// `r` creates the proxied CNAME `hostname -> {tunnel_id}.cfargotunnel.com`,
/// marked as managed by this operator, with automatic TTL.
pub open spec fn is_cname_request(r: CreateDnsRecordRequest, hostname: Seq<char>, tunnel_id: Seq<char>) -> bool {
    &&& r.record_type@ == "CNAME"@
    &&& r.name@ == hostname
    &&& r.content@ == cname_target_of(tunnel_id)
    &&& r.proxied
    &&& r.comment@ == tunnel_comment()
    &&& r.ttl == 1
}

/// The request that creates the tunnel's CNAME for `hostname`.
pub fn create_dns_record_request(hostname: &str, tunnel_id: &str) -> (r: CreateDnsRecordRequest)
    ensures
        is_cname_request(r, hostname@, tunnel_id@),
{
    CreateDnsRecordRequest {
        record_type: String::from_str("CNAME"),
        name: String::from_str(hostname),
        content: cname_target(tunnel_id),
        proxied: true,
        comment: String::from_str("Managed by cloudflare-tunnel-operator"),
        ttl: 1,
    }
}

/// What to do so that `hostname` has a CNAME to the tunnel.
pub enum CnamePlan {
    /// The existing record already points at the tunnel.
    Keep(DnsRecord),
    /// There is no record: create one.
    Create(CreateDnsRecordRequest),
    /// The existing record points elsewhere: delete it, then create one.
    Replace { stale_record_id: String, request: CreateDnsRecordRequest },
}

/// `r` is the plan for making `hostname` a CNAME to the tunnel when the
/// CNAME records found for it are `existing`: keep the first one when it
/// already targets the tunnel, else replace it, and create one when there is
/// none.
pub open spec fn plans_cname(
    existing: Seq<DnsRecordView>,
    hostname: Seq<char>,
    tunnel_id: Seq<char>,
    r: CnamePlan,
) -> bool {
    match r {
        CnamePlan::Keep(rec) => existing.len() > 0 && existing[0].content == cname_target_of(
            tunnel_id,
        ) && rec@ == existing[0],
        CnamePlan::Create(req) => existing.len() == 0 && is_cname_request(req, hostname, tunnel_id),
        CnamePlan::Replace { stale_record_id, request } => existing.len() > 0 && existing[0].content
            != cname_target_of(tunnel_id) && stale_record_id@ == existing[0].id && is_cname_request(
            request,
            hostname,
            tunnel_id,
        ),
    }
}

/// Making a CNAME twice changes nothing the second time: when the record
/// that the first plan asked for (or kept) is the first one found again, the
/// second plan keeps it, so it deletes and creates nothing.
pub proof fn lemma_cname_plan_idempotent(
    first: Seq<DnsRecordView>,
    again: Seq<DnsRecordView>,
    hostname: Seq<char>,
    tunnel_id: Seq<char>,
    r1: CnamePlan,
    r2: CnamePlan,
)
    requires
        plans_cname(first, hostname, tunnel_id, r1),
        plans_cname(again, hostname, tunnel_id, r2),
        again.len() > 0,
        again[0].content == match r1 {
            CnamePlan::Keep(rec) => rec@.content,
            CnamePlan::Create(req) => req.content@,
            CnamePlan::Replace { request, .. } => request.content@,
        },
    ensures
        r2 matches CnamePlan::Keep(rec) && rec@ == again[0] && rec@.content == cname_target_of(
            tunnel_id,
        ),
{
}

/// Decides how to make `hostname` point at the tunnel, given the CNAME
/// records found for it: the first one is kept when it already targets the
/// tunnel, and replaced otherwise.
pub fn plan_cname(existing: &Vec<DnsRecord>, hostname: &str, tunnel_id: &str) -> (r: CnamePlan)
    ensures
        plans_cname(record_views(existing@), hostname@, tunnel_id@, r),
{
    let target = cname_target(tunnel_id);
    if existing.len() > 0 {
        let first = &existing[0];
        if first.content == target {
            return CnamePlan::Keep(first.duplicate());
        }
        return CnamePlan::Replace {
            stale_record_id: first.id.clone(),
            request: create_dns_record_request(hostname, tunnel_id),
        };
    }
    CnamePlan::Create(create_dns_record_request(hostname, tunnel_id))
}

} // verus!
