//! The reconciliation of a `CloudflareTunnel`, as state machines that the
//! caller drives: each step takes the answer to the previous request and
//! yields the next request, until the machine finishes with an outcome.

use vstd::prelude::*;
use vstd::string::StringExecFns;
use crate::cloudflare::types::{DnsRecord, DnsRecordView, Tunnel, record_views};
use crate::crd::{
    CloudflareTunnel, CloudflareTunnelStatus, Condition, Listener, RouteStatus, RouteStatusView,
    listener_hostnames, route_views, spec_name_any,
};
use crate::resources::configmap::{self, ConfigMap, is_config_map};
use crate::resources::deployment::{self, Deployment, is_cloudflared_deployment};
use crate::resources::gateway::{self, Gateway, is_tunnel_gateway};
use crate::resources::meta::can_own;
use crate::resources::secret::{self, Secret, is_credentials_secret};
use crate::text::{contains_text, string_views};

verus! {

/// Seconds until a tunnel is reconciled again after a success.
pub const REQUEUE_INTERVAL_SECS: u64 = 300;

/// Seconds until a failed reconciliation is retried.
pub const ERROR_REQUEUE_SECS: u64 = 15;

/// What the controller does once a reconciliation has finished.
#[derive(Clone, Copy, Debug, PartialEq, Eq, Structural)]
pub enum ReconcileAction {
    /// Reconcile again after this many seconds.
    Requeue { secs: u64 },
    /// Reconcile again only when the object changes.
    AwaitChange,
}

/// Why a reconciliation failed; `E` is the error of a failed request.
pub enum ReconcileError<E> {
    /// A field the reconciliation needs is not set.
    MissingField(String),
    /// An owned object could not be built.
    InvalidResource(String),
    /// A request to Kubernetes or Cloudflare failed.
    Request(E),
    /// The answer does not belong to the request that was made.
    UnexpectedEvent,
}

/// The requeue policy after a failed reconciliation: retry after 15 seconds.
pub fn error_policy<E>(_error: &ReconcileError<E>) -> (r: ReconcileAction)
    ensures
        r == (ReconcileAction::Requeue { secs: ERROR_REQUEUE_SECS }),
{
    ReconcileAction::Requeue { secs: ERROR_REQUEUE_SECS }
}

// ---------------------------------------------------------------------------
// DNS bookkeeping

/// The managed records that no listener of the tunnel asks for any more,
/// in the order they were listed.
pub open spec fn stale_views(records: Seq<DnsRecordView>, desired: Seq<Seq<char>>) -> Seq<
    DnsRecordView,
>
    decreases records.len(),
{
    if records.len() == 0 {
        Seq::empty()
    } else {
        let before = stale_views(records.drop_last(), desired);
        if desired.contains(records.last().name) {
            before
        } else {
            before.push(records.last())
        }
    }
}

/// The hostnames of the listeners, as strings.
pub fn listener_hostname_list(listeners: &Vec<Listener>) -> (r: Vec<String>)
    ensures
        string_views(r@) == listener_hostnames(listeners@),
{
    let mut r: Vec<String> = Vec::new();
    let mut i: usize = 0;
    while i < listeners.len()
        invariant
            i <= listeners.len(),
            string_views(r@) == listener_hostnames(listeners@).take(i as int),
        decreases listeners.len() - i,
    {
        let h = listeners[i].hostname.clone();
        assert(string_views(r@.push(h)) =~= string_views(r@).push(h@));
        assert(listener_hostnames(listeners@).take(i + 1) =~= listener_hostnames(listeners@).take(
            i as int,
        ).push(listeners@[i as int].hostname@));
        r.push(h);
        i = i + 1;
    }
    assert(listener_hostnames(listeners@).take(listeners.len() as int) == listener_hostnames(
        listeners@,
    ));
    r
}

/// The records among `records` whose name is not one of `desired`.
pub fn stale_records(records: &Vec<DnsRecord>, desired: &Vec<String>) -> (r: Vec<DnsRecord>)
    ensures
        record_views(r@) == stale_views(record_views(records@), string_views(desired@)),
{
    let ghost all = record_views(records@);
    let mut r: Vec<DnsRecord> = Vec::new();
    let mut i: usize = 0;
    while i < records.len()
        invariant
            i <= records.len(),
            all == record_views(records@),
            record_views(r@) == stale_views(all.take(i as int), string_views(desired@)),
        decreases records.len() - i,
    {
        let rec = &records[i];
        let ghost pre = all.take(i + 1);
        assert(pre.drop_last() == all.take(i as int));
        assert(pre.last() == rec@);
        if !contains_text(desired, rec.name.as_str()) {
            let d = rec.duplicate();
            assert(record_views(r@.push(d)) =~= record_views(r@).push(d@));
            r.push(d);
        }
        i = i + 1;
    }
    assert(all.take(records.len() as int) == all);
    r
}

/// A stale record is one no listener asks for.
pub proof fn lemma_stale_not_desired(records: Seq<DnsRecordView>, desired: Seq<Seq<char>>, k: int)
    requires
        0 <= k < stale_views(records, desired).len(),
    ensures
        !desired.contains(stale_views(records, desired)[k].name),
        records.contains(stale_views(records, desired)[k]),
    decreases records.len(),
{
    let before = stale_views(records.drop_last(), desired);
    if k < before.len() {
        lemma_stale_not_desired(records.drop_last(), desired, k);
        let r = stale_views(records, desired)[k];
        let j = choose|j: int| 0 <= j < records.drop_last().len() && records.drop_last()[j] == r;
        assert(records[j] == r);
    } else {
        assert(records[records.len() - 1] == records.last());
    }
}

/// Every listed record that no listener asks for is stale.
pub proof fn lemma_undesired_is_stale(records: Seq<DnsRecordView>, desired: Seq<Seq<char>>, j: int)
    requires
        0 <= j < records.len(),
        !desired.contains(records[j].name),
    ensures
        stale_views(records, desired).contains(records[j]),
    decreases records.len(),
{
    let before = stale_views(records.drop_last(), desired);
    if j < records.len() - 1 {
        assert(records.drop_last()[j] == records[j]);
        lemma_undesired_is_stale(records.drop_last(), desired, j);
        let k = choose|k: int| 0 <= k < before.len() && before[k] == records[j];
        if !desired.contains(records.last().name) {
            assert(before.push(records.last())[k] == records[j]);
        }
    } else {
        assert(records.last() == records[j]);
        assert(before.push(records.last())[before.len() as int] == records[j]);
    }
}

// ---------------------------------------------------------------------------
// Applying a tunnel

/// The steps of applying a tunnel, in the order they run.
#[derive(Clone, Copy, Debug, PartialEq, Eq, Structural)]
pub enum ApplyPhase {
    ReadToken,
    ResolveZone,
    VerifyTunnel,
    CreateTunnel,
    EnsureCname,
    ListRecords,
    DeleteStale,
    ApplySecret,
    ApplyConfigMap,
    ApplyDeployment,
    ApplyGateway,
    PatchStatus,
    Finished,
}

/// The position of a phase in the order of the steps.
pub open spec fn rank(p: ApplyPhase) -> nat {
    match p {
        ApplyPhase::ReadToken => 0,
        ApplyPhase::ResolveZone => 1,
        ApplyPhase::VerifyTunnel => 2,
        ApplyPhase::CreateTunnel => 3,
        ApplyPhase::EnsureCname => 4,
        ApplyPhase::ListRecords => 5,
        ApplyPhase::DeleteStale => 6,
        ApplyPhase::ApplySecret => 7,
        ApplyPhase::ApplyConfigMap => 8,
        ApplyPhase::ApplyDeployment => 9,
        ApplyPhase::ApplyGateway => 10,
        ApplyPhase::PatchStatus => 11,
        ApplyPhase::Finished => 12,
    }
}

/// Where the application of a tunnel stands.
pub struct ApplyState {
    /// The tunnel being applied.
    pub tunnel: CloudflareTunnel,
    /// Its name (`name_any`).
    pub name: String,
    /// Its namespace.
    pub namespace: String,
    /// The Cloudflare API token read from the tunnel's `credentialsRef`
    /// Secret; `None` while, or when, the controller-wide token applies.
    pub api_token: Option<String>,
    pub phase: ApplyPhase,
    pub zone_id: String,
    pub account_id: String,
    pub tunnel_id: String,
    /// The credentials of a tunnel created during this application.
    pub credentials: Option<String>,
    /// The route status of each listener handled so far.
    pub routes: Vec<RouteStatus>,
    /// The managed DNS records no listener asks for.
    pub stale: Vec<DnsRecord>,
    /// The listener, or the stale record, being handled.
    pub cursor: usize,
}

/// A request for the caller to perform, or the end of the application.
///
/// Every request to the Cloudflare API carries `token`: the API token to send
/// (`Authorization: Bearer {token}`), or `None` for the controller-wide one.
pub enum ApplyAction<E> {
    /// Read key `token` of the Secret `namespace/name`.
    ReadApiToken { namespace: String, name: String },
    /// Look up the Cloudflare zone by name.
    ResolveZone { zone: String, token: Option<String> },
    /// Check that the recorded tunnel still exists.
    GetTunnel { account_id: String, tunnel_id: String, token: Option<String> },
    /// Create a tunnel with this name.
    CreateTunnel { account_id: String, name: String, token: Option<String> },
    /// Make `hostname` a CNAME to the tunnel.
    EnsureCname { zone_id: String, hostname: String, tunnel_id: String, token: Option<String> },
    /// List the DNS records this operator manages in the zone.
    ListManagedRecords { zone_id: String, token: Option<String> },
    /// Delete a DNS record.
    DeleteRecord { zone_id: String, record_id: String, token: Option<String> },
    /// Server-side apply the credentials Secret under `name`.
    ApplySecret { name: String, secret: Secret },
    /// Server-side apply the configuration ConfigMap under `name`.
    ApplyConfigMap { name: String, config_map: ConfigMap },
    /// Server-side apply the cloudflared Deployment under `name`.
    ApplyDeployment { name: String, deployment: Deployment },
    /// Server-side apply the Gateway under `name`.
    ApplyGateway { name: String, gateway: Gateway },
    /// Patch the status of the tunnel `name`.
    PatchStatus { name: String, status: CloudflareTunnelStatus },
    /// Patch the status of the tunnel `name` to record the failure, then end
    /// the application with `error`.
    ReportFailure { name: String, status: CloudflareTunnelStatus, error: ReconcileError<E> },
    /// The application is over.
    Finish(Result<ReconcileAction, ReconcileError<E>>),
}

/// The answer to a request.
pub enum ApplyEvent<E> {
    /// The value of key `token` of the Secret, if it has one.
    ApiToken { token: Option<String> },
    /// The zone and its account.
    ZoneResolved { zone_id: String, account_id: String },
    /// Whether the recorded tunnel exists.
    TunnelLookup { found: bool },
    /// The created tunnel and its credentials file.
    TunnelCreated { tunnel: Tunnel, credentials: String },
    /// The CNAME record that now points at the tunnel.
    CnameEnsured { record: DnsRecord },
    /// The DNS records the operator manages.
    ManagedRecords { records: Vec<DnsRecord> },
    /// A deletion, an apply or the status patch went through.
    Applied,
    /// The request failed, with the text of its error.
    Failed(E, String),
}

/// The view of an optional string.
pub open spec fn opt_text(o: Option<String>) -> Option<Seq<char>> {
    match o {
        Some(s) => Some(s@),
        None => None,
    }
}

/// The number of listeners of the tunnel.
pub open spec fn listener_count(t: CloudflareTunnel) -> int {
    t.spec.gateway.listeners@.len() as int
}

/// The hostname of the `i`-th listener.
pub open spec fn hostname_at(t: CloudflareTunnel, i: int) -> Seq<char> {
    t.spec.gateway.listeners@[i].hostname@
}

/// The tunnel ID recorded in the status of the tunnel object.
pub open spec fn recorded_id(t: CloudflareTunnel) -> Option<Seq<char>> {
    match t.status {
        Some(st) => opt_text(st.tunnel_id),
        None => None,
    }
}

/// The status of a hostname whose CNAME is the record `record_id`.
pub open spec fn active_route(hostname: Seq<char>, record_id: Seq<char>) -> RouteStatusView {
    RouteStatusView { hostname, dns_record: record_id, status: "Active"@ }
}

/// `c` is the condition recorded after a successful application.
pub open spec fn is_ready_condition(c: Condition, generation: Option<i64>) -> bool {
    &&& c.type_@ == "Ready"@
    &&& c.status@ == "True"@
    &&& c.reason@ == "Reconciled"@
    &&& c.message@ == "Tunnel reconciled successfully"@
    &&& c.observed_generation == generation
}

/// `st` is the status written at the end of the application `s`: the tunnel
/// ID, a `Ready` condition, and the route of each listener.
pub open spec fn is_ready_status(st: CloudflareTunnelStatus, s: ApplyState) -> bool {
    &&& st.tunnel_id matches Some(t) && t@ == s.tunnel_id@
    &&& st.conditions@.len() == 1
    &&& is_ready_condition(st.conditions@[0], s.tunnel.metadata.generation)
    &&& route_views(st.routes@) == route_views(s.routes@)
}

/// The routes recorded in the status of the tunnel object.
pub open spec fn recorded_routes(t: CloudflareTunnel) -> Seq<RouteStatusView> {
    match t.status {
        Some(st) => route_views(st.routes@),
        None => Seq::empty(),
    }
}

/// `c` is the condition recorded after a failed application, with `reason`
/// the text of the error.
pub open spec fn is_failed_condition(c: Condition, generation: Option<i64>, reason: Seq<char>) -> bool {
    &&& c.type_@ == "Ready"@
    &&& c.status@ == "False"@
    &&& c.reason@ == reason
    &&& c.message@ == "Tunnel reconcile failed"@
    &&& c.observed_generation == generation
}

/// `st` is the status written when applying `t` fails with `reason`: the
/// recorded tunnel ID and routes are kept, and the one condition is
/// `Ready=False`.
pub open spec fn is_failed_status(st: CloudflareTunnelStatus, t: CloudflareTunnel, reason: Seq<char>) -> bool {
    &&& opt_text(st.tunnel_id) == recorded_id(t)
    &&& st.conditions@.len() == 1
    &&& is_failed_condition(st.conditions@[0], t.metadata.generation, reason)
    &&& route_views(st.routes@) == recorded_routes(t)
}

/// The token that the Cloudflare requests of `s` carry.
pub open spec fn token_view(s: ApplyState) -> Option<Seq<char>> {
    opt_text(s.api_token)
}

/// `a` is the request that the phase of `s` waits on.
pub open spec fn awaits<E>(s: ApplyState, a: ApplyAction<E>) -> bool {
    match s.phase {
        ApplyPhase::ReadToken => a matches ApplyAction::ReadApiToken { namespace, name }
            && s.tunnel.spec.credentials_ref matches Some(r) && namespace@ == r.namespace@ && name@
            == r.name@,
        ApplyPhase::ResolveZone => a matches ApplyAction::ResolveZone { zone, token } && zone@
            == s.tunnel.spec.zone@ && opt_text(token) == token_view(s),
        ApplyPhase::VerifyTunnel => a matches ApplyAction::GetTunnel {
            account_id,
            tunnel_id,
            token,
        } && account_id@ == s.account_id@ && Some(tunnel_id@) == recorded_id(s.tunnel) && opt_text(
            token,
        ) == token_view(s),
        ApplyPhase::CreateTunnel => a matches ApplyAction::CreateTunnel { account_id, name, token }
            && account_id@ == s.account_id@ && name@ == s.name@ && opt_text(token) == token_view(s),
        ApplyPhase::EnsureCname => a matches ApplyAction::EnsureCname {
            zone_id,
            hostname,
            tunnel_id,
            token,
        } && zone_id@ == s.zone_id@ && hostname@ == hostname_at(s.tunnel, s.cursor as int)
            && tunnel_id@ == s.tunnel_id@ && opt_text(token) == token_view(s),
        ApplyPhase::ListRecords => a matches ApplyAction::ListManagedRecords { zone_id, token }
            && zone_id@ == s.zone_id@ && opt_text(token) == token_view(s),
        ApplyPhase::DeleteStale => a matches ApplyAction::DeleteRecord { zone_id, record_id, token }
            && zone_id@ == s.zone_id@ && record_id@ == s.stale@[s.cursor as int].id@ && opt_text(
            token,
        ) == token_view(s),
        ApplyPhase::ApplySecret => a matches ApplyAction::ApplySecret { name, secret } && name@
            == s.name@ + "-tunnel-credentials"@ && (s.credentials matches Some(c)
            && is_credentials_secret(secret, s.tunnel.metadata, vstd::utf8::encode_utf8(c@))),
        ApplyPhase::ApplyConfigMap => a matches ApplyAction::ApplyConfigMap { name, config_map }
            && name@ == s.name@ + "-config"@ && is_config_map(
            config_map,
            s.tunnel.metadata,
            s.tunnel_id@,
        ),
        ApplyPhase::ApplyDeployment => a matches ApplyAction::ApplyDeployment { name, deployment }
            && name@ == s.name@ + "-cloudflared"@ && is_cloudflared_deployment(deployment, s.tunnel),
        ApplyPhase::ApplyGateway => a matches ApplyAction::ApplyGateway { name, gateway } && name@
            == s.name@ + "-gateway"@ && is_tunnel_gateway(gateway, s.tunnel),
        ApplyPhase::PatchStatus => a matches ApplyAction::PatchStatus { name, status } && name@
            == s.name@ && is_ready_status(status, s),
        ApplyPhase::Finished => a is Finish || a is ReportFailure,
    }
}

/// `s` applies a tunnel under its own name, in its namespace.
pub open spec fn context_ok(s: ApplyState) -> bool {
    &&& s.name@ == spec_name_any(s.tunnel.metadata)
    &&& s.tunnel.metadata.namespace matches Some(ns) && s.namespace@ == ns@
}

/// The routes of `s` belong, in order, to the first listeners, all active.
pub open spec fn routes_ok(s: ApplyState) -> bool {
    &&& s.routes@.len() <= listener_count(s.tunnel)
    &&& forall|i: int|
        0 <= i < s.routes@.len() ==> (#[trigger] s.routes@[i])@.hostname == hostname_at(
            s.tunnel,
            i,
        ) && s.routes@[i]@.status == "Active"@
}

/// What holds of every state of an application.
pub open spec fn apply_inv(s: ApplyState) -> bool {
    &&& s.name@ == spec_name_any(s.tunnel.metadata)
    &&& s.phase != ApplyPhase::Finished ==> context_ok(s)
    &&& routes_ok(s)
    &&& s.phase == ApplyPhase::VerifyTunnel ==> recorded_id(s.tunnel) is Some
    &&& s.phase == ApplyPhase::ReadToken ==> s.tunnel.spec.credentials_ref is Some
    &&& (s.phase != ApplyPhase::ReadToken && s.phase != ApplyPhase::Finished) ==> (
    s.tunnel.spec.credentials_ref is None <==> s.api_token is None)
    &&& s.phase == ApplyPhase::EnsureCname ==> s.cursor < listener_count(s.tunnel)
        && s.routes@.len() == s.cursor
    &&& (rank(ApplyPhase::ListRecords) <= rank(s.phase) < rank(ApplyPhase::Finished))
        ==> s.routes@.len() == listener_count(s.tunnel)
    &&& s.phase == ApplyPhase::DeleteStale ==> s.cursor < s.stale@.len()
    &&& s.phase == ApplyPhase::ApplySecret ==> s.credentials is Some
    &&& (rank(ApplyPhase::ApplySecret) <= rank(s.phase) < rank(ApplyPhase::Finished)) ==> can_own(
        s.tunnel.metadata,
    )
}

/// How much of the current phase is left: listeners or stale records.
pub open spec fn remaining(s: ApplyState) -> nat {
    match s.phase {
        ApplyPhase::EnsureCname => (listener_count(s.tunnel) - s.cursor) as nat,
        ApplyPhase::DeleteStale => (s.stale@.len() - s.cursor) as nat,
        _ => 0,
    }
}

/// `s2` is further along than `s`: a later phase, or less left of the same one.
pub open spec fn advances(s: ApplyState, s2: ApplyState) -> bool {
    rank(s2.phase) > rank(s.phase) || (rank(s2.phase) == rank(s.phase) && remaining(s2) < remaining(
        s,
    ))
}

/// The tunnel and the Cloudflare zone of `s2` are those of `s`.
pub open spec fn same_target(s: ApplyState, s2: ApplyState) -> bool {
    &&& s2.tunnel == s.tunnel
    &&& s2.name@ == s.name@
    &&& s2.namespace@ == s.namespace@
    &&& s2.zone_id@ == s.zone_id@
    &&& s2.account_id@ == s.account_id@
    &&& token_view(s2) == token_view(s)
}

/// The tunnel ID and credentials of `s2` are those of `s`.
pub open spec fn same_tunnel(s: ApplyState, s2: ApplyState) -> bool {
    s2.tunnel_id@ == s.tunnel_id@ && opt_text(s2.credentials) == opt_text(s.credentials)
}

/// The routes and stale records of `s2` are those of `s`.
pub open spec fn same_dns(s: ApplyState, s2: ApplyState) -> bool {
    s2.routes@ == s.routes@ && s2.stale@ == s.stale@
}

/// `a` ends the application with `outcome`.
pub open spec fn finishes<E>(s2: ApplyState, a: ApplyAction<E>, outcome: Result<ReconcileAction, ReconcileError<E>>) -> bool {
    s2.phase == ApplyPhase::Finished && a == ApplyAction::Finish(outcome)
}

/// `a` records in the status of the tunnel of `s` that the application
/// failed with `reason`, and ends the application (`s2`).
pub open spec fn reports<E>(s: ApplyState, s2: ApplyState, a: ApplyAction<E>, reason: Seq<char>) -> bool {
    &&& s2.phase == ApplyPhase::Finished
    &&& s2.tunnel == s.tunnel
    &&& a matches ApplyAction::ReportFailure { name, status, .. } && name@ == s.name@
        && is_failed_status(status, s.tunnel, reason)
}

/// The text recorded for an answer that does not belong to the request.
pub open spec fn unexpected_reason() -> Seq<char> {
    "unexpected answer during reconciliation"@
}

/// `a` ends the unfinished application `s` because the answer did not
/// belong to the request.
pub open spec fn fails_unexpectedly<E>(s: ApplyState, s2: ApplyState, a: ApplyAction<E>) -> bool {
    &&& reports(s, s2, a, unexpected_reason())
    &&& a matches ApplyAction::ReportFailure { error: ReconcileError::UnexpectedEvent, .. }
}

/// `a` ends the application because an owned object cannot be built.
pub open spec fn fails_to_build<E>(s2: ApplyState, a: ApplyAction<E>) -> bool {
    &&& reports(s2, s2, a, "failed to build owner reference"@)
    &&& a matches ApplyAction::ReportFailure {
        error: ReconcileError::InvalidResource(msg),
        ..
    } && msg@ == "failed to build owner reference"@
}

/// The DNS step begins in `s2`: with the first listener, or, with none, with
/// listing the managed records.
pub open spec fn dns_begins(s2: ApplyState) -> bool {
    &&& s2.cursor == 0
    &&& s2.routes@.len() == 0
    &&& s2.phase == if listener_count(s2.tunnel) > 0 {
        ApplyPhase::EnsureCname
    } else {
        ApplyPhase::ListRecords
    }
}

/// The owned objects begin to be applied in `s2`: the credentials Secret
/// first when a tunnel was created, else the ConfigMap; or the application
/// fails when the tunnel cannot own objects.
pub open spec fn resources_begin<E>(s2: ApplyState, a: ApplyAction<E>) -> bool {
    if can_own(s2.tunnel.metadata) {
        s2.phase == if s2.credentials is Some {
            ApplyPhase::ApplySecret
        } else {
            ApplyPhase::ApplyConfigMap
        }
    } else {
        fails_to_build(s2, a)
    }
}

/// One step of the application: how `s` and the answer `e` lead to `s2` and
/// the next request `a`. A failed request, or an answer that does not belong
/// to the request, ends an unfinished application with `Ready=False` recorded.
pub open spec fn apply_transition<E>(s: ApplyState, e: ApplyEvent<E>, s2: ApplyState, a: ApplyAction<E>) -> bool {
    if s.phase == ApplyPhase::Finished {
        finishes(s2, a, Err(ReconcileError::UnexpectedEvent))
    } else {
        match e {
            ApplyEvent::Failed(err, text) => {
                &&& reports(s, s2, a, text@)
                &&& a matches ApplyAction::ReportFailure { error: ReconcileError::Request(x), .. }
                    && x == err
            },
            ApplyEvent::ApiToken { token } => if s.phase == ApplyPhase::ReadToken {
                match token {
                    Some(t) => {
                        &&& s2.tunnel == s.tunnel
                        &&& s2.name@ == s.name@
                        &&& s2.namespace@ == s.namespace@
                        &&& token_view(s2) == Some(t@)
                        &&& s2.phase == ApplyPhase::ResolveZone
                    },
                    None => {
                        &&& reports(s, s2, a, "missing field: token"@)
                        &&& a matches ApplyAction::ReportFailure {
                            error: ReconcileError::MissingField(f),
                            ..
                        } && f@ == "token"@
                    },
                }
            } else {
                fails_unexpectedly(s, s2, a)
            },
            ApplyEvent::ZoneResolved { zone_id, account_id } => if s.phase
                == ApplyPhase::ResolveZone {
                &&& s2.tunnel == s.tunnel
                &&& token_view(s2) == token_view(s)
                &&& s2.zone_id@ == zone_id@
                &&& s2.account_id@ == account_id@
                &&& s2.phase == if recorded_id(s.tunnel) is Some {
                    ApplyPhase::VerifyTunnel
                } else {
                    ApplyPhase::CreateTunnel
                }
            } else {
                fails_unexpectedly(s, s2, a)
            },
            ApplyEvent::TunnelLookup { found } => if s.phase == ApplyPhase::VerifyTunnel {
                &&& same_target(s, s2)
                &&& if found {
                    Some(s2.tunnel_id@) == recorded_id(s.tunnel) && s2.credentials is None
                        && dns_begins(s2)
                } else {
                    s2.phase == ApplyPhase::CreateTunnel
                }
            } else {
                fails_unexpectedly(s, s2, a)
            },
            ApplyEvent::TunnelCreated { tunnel, credentials } => if s.phase
                == ApplyPhase::CreateTunnel {
                &&& same_target(s, s2)
                &&& s2.tunnel_id@ == tunnel.id@
                &&& opt_text(s2.credentials) == Some(credentials@)
                &&& dns_begins(s2)
            } else {
                fails_unexpectedly(s, s2, a)
            },
            ApplyEvent::CnameEnsured { record } => if s.phase == ApplyPhase::EnsureCname {
                &&& same_target(s, s2)
                &&& same_tunnel(s, s2)
                &&& route_views(s2.routes@) == route_views(s.routes@).push(
                    active_route(hostname_at(s.tunnel, s.cursor as int), record.id@),
                )
                &&& if s.cursor + 1 < listener_count(s.tunnel) {
                    s2.phase == ApplyPhase::EnsureCname && s2.cursor == s.cursor + 1
                } else {
                    s2.phase == ApplyPhase::ListRecords
                }
            } else {
                fails_unexpectedly(s, s2, a)
            },
            ApplyEvent::ManagedRecords { records } => if s.phase == ApplyPhase::ListRecords {
                &&& same_target(s, s2)
                &&& same_tunnel(s, s2)
                &&& route_views(s2.routes@) == route_views(s.routes@)
                &&& record_views(s2.stale@) == stale_views(
                    record_views(records@),
                    listener_hostnames(s.tunnel.spec.gateway.listeners@),
                )
                &&& if s2.stale@.len() > 0 {
                    s2.phase == ApplyPhase::DeleteStale && s2.cursor == 0
                } else {
                    resources_begin(s2, a)
                }
            } else {
                fails_unexpectedly(s, s2, a)
            },
            ApplyEvent::Applied => match s.phase {
                ApplyPhase::DeleteStale => {
                    &&& same_target(s, s2)
                    &&& same_tunnel(s, s2)
                    &&& same_dns(s, s2)
                    &&& if s.cursor + 1 < s.stale@.len() {
                        s2.phase == ApplyPhase::DeleteStale && s2.cursor == s.cursor + 1
                    } else {
                        resources_begin(s2, a)
                    }
                },
                ApplyPhase::ApplySecret => same_target(s, s2) && same_tunnel(s, s2) && same_dns(
                    s,
                    s2,
                ) && s2.phase == ApplyPhase::ApplyConfigMap,
                ApplyPhase::ApplyConfigMap => same_target(s, s2) && same_tunnel(s, s2) && same_dns(
                    s,
                    s2,
                ) && s2.phase == ApplyPhase::ApplyDeployment,
                ApplyPhase::ApplyDeployment => same_target(s, s2) && same_tunnel(s, s2) && same_dns(
                    s,
                    s2,
                ) && s2.phase == ApplyPhase::ApplyGateway,
                ApplyPhase::ApplyGateway => same_target(s, s2) && same_tunnel(s, s2) && same_dns(
                    s,
                    s2,
                ) && s2.phase == ApplyPhase::PatchStatus,
                ApplyPhase::PatchStatus => finishes(
                    s2,
                    a,
                    Ok(ReconcileAction::Requeue { secs: REQUEUE_INTERVAL_SECS }),
                ),
                _ => fails_unexpectedly(s, s2, a),
            },
        }
    }
}

fn finish_with<E>(s: ApplyState, outcome: Result<ReconcileAction, ReconcileError<E>>) -> (r: (
    ApplyState,
    ApplyAction<E>,
))
    ensures
        finishes(r.0, r.1, outcome),
        same_target(s, r.0),
        same_tunnel(s, r.0),
        same_dns(s, r.0),
        s.name@ == spec_name_any(s.tunnel.metadata) ==> apply_inv(r.0) || !routes_ok(s),
        routes_ok(s) ==> routes_ok(r.0),
{
    (ApplyState { phase: ApplyPhase::Finished, ..s }, ApplyAction::Finish(outcome))
}

/// A copy of a list of route statuses.
fn copy_routes(v: &Vec<RouteStatus>) -> (r: Vec<RouteStatus>)
    ensures
        route_views(r@) == route_views(v@),
{
    let mut routes: Vec<RouteStatus> = Vec::new();
    let mut i: usize = 0;
    while i < v.len()
        invariant
            i <= v@.len(),
            route_views(routes@) == route_views(v@).take(i as int),
        decreases v@.len() - i,
    {
        let r = v[i].duplicate();
        assert(route_views(routes@.push(r)) =~= route_views(routes@).push(r@));
        assert(route_views(v@).take(i + 1) =~= route_views(v@).take(i as int).push(v@[i as int]@));
        routes.push(r);
        i = i + 1;
    }
    assert(route_views(v@).take(v@.len() as int) == route_views(v@));
    routes
}

/// The status written when applying `t` fails with `reason`.
fn failure_status(t: &CloudflareTunnel, reason: String) -> (r: CloudflareTunnelStatus)
    ensures
        is_failed_status(r, *t, reason@),
{
    let mut conditions: Vec<Condition> = Vec::new();
    conditions.push(
        Condition {
            type_: String::from_str("Ready"),
            status: String::from_str("False"),
            reason,
            message: String::from_str("Tunnel reconcile failed"),
            observed_generation: t.metadata.generation,
        },
    );
    let routes = match &t.status {
        Some(st) => copy_routes(&st.routes),
        None => Vec::new(),
    };
    assert(route_views(routes@) == recorded_routes(*t));
    let tunnel_id = t.recorded_tunnel_id();
    assert(opt_text(tunnel_id) == recorded_id(*t));
    let r = CloudflareTunnelStatus { tunnel_id, conditions, routes };
    assert(is_failed_condition(r.conditions@[0], t.metadata.generation, reason@));
    r
}

/// Ends the application with `error`, recording `reason` in the status.
fn fail<E>(s: ApplyState, error: ReconcileError<E>, reason: String) -> (r: (ApplyState, ApplyAction<E>))
    ensures
        reports(s, r.0, r.1, reason@),
        r.1 matches ApplyAction::ReportFailure { error: x, .. } && x == error,
        same_target(s, r.0),
        same_tunnel(s, r.0),
        same_dns(s, r.0),
        s.name@ == spec_name_any(s.tunnel.metadata) && routes_ok(s) ==> apply_inv(r.0),
{
    let status = failure_status(&s.tunnel, reason);
    let name = s.name.clone();
    (
        ApplyState { phase: ApplyPhase::Finished, ..s },
        ApplyAction::ReportFailure { name, status, error },
    )
}

fn unexpected<E>(s: ApplyState) -> (r: (ApplyState, ApplyAction<E>))
    ensures
        s.phase == ApplyPhase::Finished ==> finishes(r.0, r.1, Err(ReconcileError::UnexpectedEvent)),
        s.phase != ApplyPhase::Finished ==> fails_unexpectedly(s, r.0, r.1),
        r.0.phase == ApplyPhase::Finished,
        same_target(s, r.0),
        same_tunnel(s, r.0),
        same_dns(s, r.0),
        s.name@ == spec_name_any(s.tunnel.metadata) && routes_ok(s) ==> apply_inv(r.0),
{
    if s.phase == ApplyPhase::Finished {
        finish_with(s, Err(ReconcileError::UnexpectedEvent))
    } else {
        fail(s, ReconcileError::UnexpectedEvent, String::from_str("unexpected answer during reconciliation"))
    }
}

/// The token that the Cloudflare requests of `s` carry.
fn token_of(s: &ApplyState) -> (r: Option<String>)
    ensures
        opt_text(r) == token_view(*s),
{
    match &s.api_token {
        Some(t) => Some(t.clone()),
        None => None,
    }
}

fn begin_dns<E>(s: ApplyState) -> (r: (ApplyState, ApplyAction<E>))
    ensures
        dns_begins(r.0),
        awaits(r.0, r.1),
        same_target(s, r.0),
        same_tunnel(s, r.0),
        context_ok(s) && (s.tunnel.spec.credentials_ref is None <==> s.api_token is None) ==> apply_inv(r.0),
{
    let s2 = ApplyState { phase: ApplyPhase::EnsureCname, cursor: 0, routes: Vec::new(), ..s };
    if s2.tunnel.spec.gateway.listeners.len() > 0 {
        let action = ApplyAction::EnsureCname {
            zone_id: s2.zone_id.clone(),
            hostname: s2.tunnel.spec.gateway.listeners[0].hostname.clone(),
            tunnel_id: s2.tunnel_id.clone(),
            token: token_of(&s2),
        };
        (s2, action)
    } else {
        let action = ApplyAction::ListManagedRecords {
            zone_id: s2.zone_id.clone(),
            token: token_of(&s2),
        };
        (ApplyState { phase: ApplyPhase::ListRecords, ..s2 }, action)
    }
}

/// The status written after a successful application.
fn ready_status(s: &ApplyState) -> (r: CloudflareTunnelStatus)
    ensures
        is_ready_status(r, *s),
{
    let mut conditions: Vec<Condition> = Vec::new();
    conditions.push(
        Condition {
            type_: String::from_str("Ready"),
            status: String::from_str("True"),
            reason: String::from_str("Reconciled"),
            message: String::from_str("Tunnel reconciled successfully"),
            observed_generation: s.tunnel.metadata.generation,
        },
    );
    let routes = copy_routes(&s.routes);
    CloudflareTunnelStatus { tunnel_id: Some(s.tunnel_id.clone()), conditions, routes }
}

fn begin_status<E>(s: ApplyState) -> (r: (ApplyState, ApplyAction<E>))
    ensures
        r.0.phase == ApplyPhase::PatchStatus,
        awaits(r.0, r.1),
        same_target(s, r.0),
        same_tunnel(s, r.0),
        same_dns(s, r.0),
{
    let s2 = ApplyState { phase: ApplyPhase::PatchStatus, ..s };
    let status = ready_status(&s2);
    let name = s2.name.clone();
    (s2, ApplyAction::PatchStatus { name, status })
}

fn child_object_name(s: &ApplyState, suffix: &str) -> (r: String)
    ensures
        r@ == s.name@ + suffix@,
{
    let mut n = s.name.clone();
    n.append(suffix);
    n
}

fn begin_gateway<E>(s: ApplyState) -> (r: (ApplyState, ApplyAction<E>))
    requires
        s.tunnel.metadata.namespace is Some,
        can_own(s.tunnel.metadata),
    ensures
        r.0.phase == ApplyPhase::ApplyGateway,
        awaits(r.0, r.1),
        same_target(s, r.0),
        same_tunnel(s, r.0),
        same_dns(s, r.0),
{
    match gateway::build(&s.tunnel) {
        Ok(g) => {
            let name = child_object_name(&s, "-gateway");
            (ApplyState { phase: ApplyPhase::ApplyGateway, ..s }, ApplyAction::ApplyGateway { name, gateway: g })
        },
        Err(_) => {
            assert(false);
            unexpected(s)
        },
    }
}

fn begin_deployment<E>(s: ApplyState) -> (r: (ApplyState, ApplyAction<E>))
    requires
        s.tunnel.metadata.namespace is Some,
        can_own(s.tunnel.metadata),
    ensures
        r.0.phase == ApplyPhase::ApplyDeployment,
        awaits(r.0, r.1),
        same_target(s, r.0),
        same_tunnel(s, r.0),
        same_dns(s, r.0),
{
    match deployment::build(&s.tunnel) {
        Ok(d) => {
            let name = child_object_name(&s, "-cloudflared");
            (
                ApplyState { phase: ApplyPhase::ApplyDeployment, ..s },
                ApplyAction::ApplyDeployment { name, deployment: d },
            )
        },
        Err(_) => {
            assert(false);
            unexpected(s)
        },
    }
}

fn begin_config_map<E>(s: ApplyState) -> (r: (ApplyState, ApplyAction<E>))
    requires
        s.tunnel.metadata.namespace is Some,
        can_own(s.tunnel.metadata),
    ensures
        r.0.phase == ApplyPhase::ApplyConfigMap,
        awaits(r.0, r.1),
        same_target(s, r.0),
        same_tunnel(s, r.0),
        same_dns(s, r.0),
{
    match configmap::build(&s.tunnel, s.tunnel_id.as_str()) {
        Ok(cm) => {
            let name = child_object_name(&s, "-config");
            (
                ApplyState { phase: ApplyPhase::ApplyConfigMap, ..s },
                ApplyAction::ApplyConfigMap { name, config_map: cm },
            )
        },
        Err(_) => {
            assert(false);
            unexpected(s)
        },
    }
}

fn begin_resources<E>(s: ApplyState) -> (r: (ApplyState, ApplyAction<E>))
    ensures
        s.tunnel.metadata.namespace is Some ==> resources_begin(r.0, r.1),
        awaits(r.0, r.1),
        same_target(s, r.0),
        same_tunnel(s, r.0),
        same_dns(s, r.0),
        r.0.phase == ApplyPhase::Finished || (s.tunnel.metadata.namespace is Some && can_own(
            s.tunnel.metadata,
        )),
{
    if s.tunnel.metadata.name.is_none() || s.tunnel.metadata.uid.is_none() {
        return fail(
            s,
            ReconcileError::InvalidResource(String::from_str("failed to build owner reference")),
            String::from_str("failed to build owner reference"),
        );
    }
    if s.tunnel.metadata.namespace.is_none() {
        return finish_with(s, Err(ReconcileError::MissingField(String::from_str("namespace"))));
    }
    match &s.credentials {
        Some(c) => {
            let secret = secret::build(&s.tunnel, c.as_str().as_bytes());
            let name = child_object_name(&s, "-tunnel-credentials");
            (ApplyState { phase: ApplyPhase::ApplySecret, ..s }, ApplyAction::ApplySecret { name, secret })
        },
        None => begin_config_map(s),
    }
}

/// Starts applying a tunnel: the API token of its `credentialsRef` Secret is
/// read first when it names one, else the zone is looked up with the
/// controller-wide token. A tunnel without a namespace cannot be applied.
pub fn start_apply<E>(tunnel: CloudflareTunnel) -> (r: (ApplyState, ApplyAction<E>))
    ensures
        r.0.tunnel == tunnel,
        r.0.api_token is None,
        awaits(r.0, r.1),
        apply_inv(r.0),
        tunnel.metadata.namespace is Some ==> r.0.phase == if tunnel.spec.credentials_ref is Some {
            ApplyPhase::ReadToken
        } else {
            ApplyPhase::ResolveZone
        },
        tunnel.metadata.namespace is None ==> r.0.phase == ApplyPhase::Finished,
        tunnel.metadata.namespace is None ==> (r.1 matches ApplyAction::Finish(
            Err(ReconcileError::MissingField(f)),
        ) && f@ == "namespace"@),
{
    let name = tunnel.name_any();
    let namespace = tunnel.namespace();
    let (phase, namespace) = match namespace {
        Some(n) => (ApplyPhase::ResolveZone, n),
        None => (ApplyPhase::Finished, String::new()),
    };
    let s = ApplyState {
        tunnel,
        name,
        namespace,
        api_token: None,
        phase,
        zone_id: String::new(),
        account_id: String::new(),
        tunnel_id: String::new(),
        credentials: None,
        routes: Vec::new(),
        stale: Vec::new(),
        cursor: 0,
    };
    if s.phase == ApplyPhase::Finished {
        let outcome = Err(ReconcileError::MissingField(String::from_str("namespace")));
        return (s, ApplyAction::Finish(outcome));
    }
    match &s.tunnel.spec.credentials_ref {
        Some(r) => {
            let action = ApplyAction::ReadApiToken {
                namespace: r.namespace.clone(),
                name: r.name.clone(),
            };
            (ApplyState { phase: ApplyPhase::ReadToken, ..s }, action)
        },
        None => {
            let zone = s.tunnel.spec.zone.clone();
            (s, ApplyAction::ResolveZone { zone, token: None })
        },
    }
}

/// Advances the application of a tunnel with the answer to its last request.
/// On any failure it records `Ready=False` and finishes with that failure;
/// after the status patch it finishes asking to be requeued after
/// `REQUEUE_INTERVAL_SECS`.
pub fn apply_step<E>(s: ApplyState, e: ApplyEvent<E>) -> (r: (ApplyState, ApplyAction<E>))
    ensures
        awaits(r.0, r.1),
        apply_inv(s) ==> apply_inv(r.0) && apply_transition(s, e, r.0, r.1),
        apply_inv(s) && s.phase != ApplyPhase::Finished ==> advances(s, r.0),
{
    if s.phase == ApplyPhase::Finished {
        return unexpected(s);
    }
    let ghost s0 = s;
    match e {
        ApplyEvent::Failed(err, text) => fail(s, ReconcileError::Request(err), text),
        ApplyEvent::ApiToken { token } => {
            if s.phase != ApplyPhase::ReadToken {
                return unexpected(s);
            }
            match token {
                Some(t) => {
                    let s2 = ApplyState { phase: ApplyPhase::ResolveZone, api_token: Some(t), ..s };
                    let action = ApplyAction::ResolveZone {
                        zone: s2.tunnel.spec.zone.clone(),
                        token: token_of(&s2),
                    };
                    (s2, action)
                },
                None => fail(
                    s,
                    ReconcileError::MissingField(String::from_str("token")),
                    String::from_str("missing field: token"),
                ),
            }
        },
        ApplyEvent::ZoneResolved { zone_id, account_id } => {
            if s.phase != ApplyPhase::ResolveZone {
                return unexpected(s);
            }
            let recorded = s.tunnel.recorded_tunnel_id();
            match recorded {
                Some(tid) => {
                    let s2 = ApplyState { phase: ApplyPhase::VerifyTunnel, zone_id, account_id, ..s };
                    let action = ApplyAction::GetTunnel {
                        account_id: s2.account_id.clone(),
                        tunnel_id: tid,
                        token: token_of(&s2),
                    };
                    (s2, action)
                },
                None => {
                    let s2 = ApplyState { phase: ApplyPhase::CreateTunnel, zone_id, account_id, ..s };
                    let action = ApplyAction::CreateTunnel {
                        account_id: s2.account_id.clone(),
                        name: s2.name.clone(),
                        token: token_of(&s2),
                    };
                    (s2, action)
                },
            }
        },
        ApplyEvent::TunnelLookup { found } => {
            if s.phase != ApplyPhase::VerifyTunnel {
                return unexpected(s);
            }
            if found {
                match s.tunnel.recorded_tunnel_id() {
                    Some(tid) => {
                        begin_dns(ApplyState { tunnel_id: tid, credentials: None, ..s })
                    },
                    None => unexpected(s),
                }
            } else {
                let s2 = ApplyState { phase: ApplyPhase::CreateTunnel, ..s };
                let action = ApplyAction::CreateTunnel {
                    account_id: s2.account_id.clone(),
                    name: s2.name.clone(),
                    token: token_of(&s2),
                };
                (s2, action)
            }
        },
        ApplyEvent::TunnelCreated { tunnel, credentials } => {
            if s.phase != ApplyPhase::CreateTunnel {
                return unexpected(s);
            }
            begin_dns(ApplyState { tunnel_id: tunnel.id, credentials: Some(credentials), ..s })
        },
        ApplyEvent::CnameEnsured { record } => {
            if s.phase != ApplyPhase::EnsureCname || s.cursor >= s.tunnel.spec.gateway.listeners.len() {
                return unexpected(s);
            }
            let ghost old_routes = route_views(s.routes@);
            let mut s2 = s;
            let route = RouteStatus {
                hostname: s2.tunnel.spec.gateway.listeners[s2.cursor].hostname.clone(),
                dns_record: record.id,
                status: String::from_str("Active"),
            };
            s2.routes.push(route);
            assert(route_views(s2.routes@) =~= old_routes.push(route@));
            proof {
                if apply_inv(s0) {
                    assert forall|i: int| 0 <= i < s2.routes@.len() implies (
                    #[trigger] s2.routes@[i])@.hostname == hostname_at(s2.tunnel, i)
                        && s2.routes@[i]@.status == "Active"@ by {
                        if i < s0.routes@.len() {
                            assert(s2.routes@[i] == s0.routes@[i]);
                        }
                    }
                }
            }
            if s2.cursor + 1 < s2.tunnel.spec.gateway.listeners.len() {
                s2.cursor = s2.cursor + 1;
                let action = ApplyAction::EnsureCname {
                    zone_id: s2.zone_id.clone(),
                    hostname: s2.tunnel.spec.gateway.listeners[s2.cursor].hostname.clone(),
                    tunnel_id: s2.tunnel_id.clone(),
                    token: token_of(&s2),
                };
                (s2, action)
            } else {
                s2.phase = ApplyPhase::ListRecords;
                let action = ApplyAction::ListManagedRecords {
                    zone_id: s2.zone_id.clone(),
                    token: token_of(&s2),
                };
                (s2, action)
            }
        },
        ApplyEvent::ManagedRecords { records } => {
            if s.phase != ApplyPhase::ListRecords {
                return unexpected(s);
            }
            let desired = listener_hostname_list(&s.tunnel.spec.gateway.listeners);
            let stale = stale_records(&records, &desired);
            if stale.len() > 0 {
                let s2 = ApplyState { phase: ApplyPhase::DeleteStale, stale, cursor: 0, ..s };
                let action = ApplyAction::DeleteRecord {
                    zone_id: s2.zone_id.clone(),
                    record_id: s2.stale[0].id.clone(),
                    token: token_of(&s2),
                };
                (s2, action)
            } else {
                begin_resources(ApplyState { stale, ..s })
            }
        },
        ApplyEvent::Applied => {
            if s.phase == ApplyPhase::DeleteStale {
                if s.cursor >= s.stale.len() {
                    return unexpected(s);
                }
                if s.cursor + 1 < s.stale.len() {
                    let s2 = ApplyState { cursor: s.cursor + 1, ..s };
                    let action = ApplyAction::DeleteRecord {
                        zone_id: s2.zone_id.clone(),
                        record_id: s2.stale[s2.cursor].id.clone(),
                        token: token_of(&s2),
                    };
                    (s2, action)
                } else {
                    begin_resources(s)
                }
            } else if s.phase == ApplyPhase::ApplySecret || s.phase == ApplyPhase::ApplyConfigMap
                || s.phase == ApplyPhase::ApplyDeployment {
                if s.tunnel.metadata.namespace.is_none() || s.tunnel.metadata.name.is_none()
                    || s.tunnel.metadata.uid.is_none() {
                    return unexpected(s);
                }
                if s.phase == ApplyPhase::ApplySecret {
                    begin_config_map(s)
                } else if s.phase == ApplyPhase::ApplyConfigMap {
                    begin_deployment(s)
                } else {
                    begin_gateway(s)
                }
            } else if s.phase == ApplyPhase::ApplyGateway {
                begin_status(s)
            } else if s.phase == ApplyPhase::PatchStatus {
                finish_with(s, Ok(ReconcileAction::Requeue { secs: REQUEUE_INTERVAL_SECS }))
            } else {
                unexpected(s)
            }
        },
    }
}

// ---------------------------------------------------------------------------
// Cleaning up a deleted tunnel

/// The steps of cleaning up after a tunnel, in the order they run.
#[derive(Clone, Copy, Debug, PartialEq, Eq, Structural)]
pub enum CleanupPhase {
    ReadToken,
    ResolveZone,
    ListRecords,
    DeleteRecords,
    DeleteTunnel,
    Finished,
}

/// Where the cleanup of a tunnel stands.
pub struct CleanupState {
    pub tunnel: CloudflareTunnel,
    /// The Cloudflare API token read from the tunnel's `credentialsRef`
    /// Secret; `None` while, or when, the controller-wide token applies.
    pub api_token: Option<String>,
    pub phase: CleanupPhase,
    pub zone_id: String,
    pub account_id: String,
    /// The DNS records this operator manages in the zone.
    pub records: Vec<DnsRecord>,
    /// The record being deleted.
    pub cursor: usize,
}

/// A request for the caller to perform, or the end of the cleanup. Requests
/// to the Cloudflare API carry `token`, as in `ApplyAction`.
pub enum CleanupAction<E> {
    /// Read key `token` of the Secret `namespace/name`.
    ReadApiToken { namespace: String, name: String },
    /// Look up the Cloudflare zone by name.
    ResolveZone { zone: String, token: Option<String> },
    /// List the DNS records this operator manages in the zone.
    ListManagedRecords { zone_id: String, token: Option<String> },
    /// Delete a DNS record.
    DeleteRecord { zone_id: String, record_id: String, token: Option<String> },
    /// Delete the tunnel (its connections first).
    DeleteTunnel { account_id: String, tunnel_id: String, token: Option<String> },
    /// The cleanup is over.
    Finish(Result<ReconcileAction, ReconcileError<E>>),
}

/// The answer to a cleanup request.
pub enum CleanupEvent<E> {
    /// The value of key `token` of the Secret, if it has one.
    ApiToken { token: Option<String> },
    /// The zone and its account.
    ZoneResolved { zone_id: String, account_id: String },
    /// The DNS records the operator manages.
    ManagedRecords { records: Vec<DnsRecord> },
    /// A deletion went through.
    Deleted,
    /// The request failed.
    Failed(E),
}

/// `a` is the request that the phase of `s` waits on.
pub open spec fn cleanup_awaits<E>(s: CleanupState, a: CleanupAction<E>) -> bool {
    match s.phase {
        CleanupPhase::ReadToken => a matches CleanupAction::ReadApiToken { namespace, name }
            && s.tunnel.spec.credentials_ref matches Some(r) && namespace@ == r.namespace@ && name@
            == r.name@,
        CleanupPhase::ResolveZone => a matches CleanupAction::ResolveZone { zone, token } && zone@
            == s.tunnel.spec.zone@ && opt_text(token) == opt_text(s.api_token),
        CleanupPhase::ListRecords => a matches CleanupAction::ListManagedRecords { zone_id, token }
            && zone_id@ == s.zone_id@ && opt_text(token) == opt_text(s.api_token),
        CleanupPhase::DeleteRecords => a matches CleanupAction::DeleteRecord {
            zone_id,
            record_id,
            token,
        } && zone_id@ == s.zone_id@ && record_id@ == s.records@[s.cursor as int].id@ && opt_text(
            token,
        ) == opt_text(s.api_token),
        CleanupPhase::DeleteTunnel => a matches CleanupAction::DeleteTunnel {
            account_id,
            tunnel_id,
            token,
        } && account_id@ == s.account_id@ && Some(tunnel_id@) == recorded_id(s.tunnel) && opt_text(
            token,
        ) == opt_text(s.api_token),
        CleanupPhase::Finished => a is Finish,
    }
}

/// What holds of every state of a cleanup.
pub open spec fn cleanup_inv(s: CleanupState) -> bool {
    &&& s.phase == CleanupPhase::ReadToken ==> s.tunnel.spec.credentials_ref is Some
    &&& (s.phase != CleanupPhase::ReadToken && s.phase != CleanupPhase::Finished) ==> (
    s.tunnel.spec.credentials_ref is None <==> s.api_token is None)
    &&& s.phase == CleanupPhase::DeleteRecords ==> s.cursor < s.records@.len()
    &&& s.phase == CleanupPhase::DeleteTunnel ==> recorded_id(s.tunnel) is Some
}

/// The tunnel and zone of `s2` are those of `s`.
pub open spec fn same_cleanup_target(s: CleanupState, s2: CleanupState) -> bool {
    &&& s2.tunnel == s.tunnel
    &&& s2.zone_id@ == s.zone_id@
    &&& s2.account_id@ == s.account_id@
    &&& s2.records@ == s.records@
    &&& opt_text(s2.api_token) == opt_text(s.api_token)
}

/// `a` ends the cleanup with `outcome`.
pub open spec fn cleanup_finishes<E>(
    s2: CleanupState,
    a: CleanupAction<E>,
    outcome: Result<ReconcileAction, ReconcileError<E>>,
) -> bool {
    s2.phase == CleanupPhase::Finished && a == CleanupAction::Finish(outcome)
}

/// After the DNS records: the tunnel is deleted if its ID is known, else the
/// cleanup is over.
pub open spec fn tunnel_deletion_begins<E>(s2: CleanupState, a: CleanupAction<E>) -> bool {
    if recorded_id(s2.tunnel) is Some {
        s2.phase == CleanupPhase::DeleteTunnel
    } else {
        cleanup_finishes(s2, a, Ok(ReconcileAction::AwaitChange))
    }
}

/// One step of the cleanup.
pub open spec fn cleanup_transition<E>(
    s: CleanupState,
    e: CleanupEvent<E>,
    s2: CleanupState,
    a: CleanupAction<E>,
) -> bool {
    match s.phase {
        CleanupPhase::ReadToken => match e {
            CleanupEvent::ApiToken { token } => match token {
                Some(t) => {
                    &&& s2.tunnel == s.tunnel
                    &&& opt_text(s2.api_token) == Some(t@)
                    &&& s2.phase == CleanupPhase::ResolveZone
                },
                None => cleanup_finishes(s2, a, Ok(ReconcileAction::AwaitChange)),
            },
            CleanupEvent::Failed(_) => cleanup_finishes(s2, a, Ok(ReconcileAction::AwaitChange)),
            _ => cleanup_finishes(s2, a, Err(ReconcileError::UnexpectedEvent)),
        },
        CleanupPhase::ResolveZone => match e {
            CleanupEvent::ZoneResolved { zone_id, account_id } => {
                &&& s2.tunnel == s.tunnel
                &&& opt_text(s2.api_token) == opt_text(s.api_token)
                &&& s2.zone_id@ == zone_id@
                &&& s2.account_id@ == account_id@
                &&& s2.phase == CleanupPhase::ListRecords
            },
            CleanupEvent::Failed(_) => cleanup_finishes(s2, a, Ok(ReconcileAction::AwaitChange)),
            _ => cleanup_finishes(s2, a, Err(ReconcileError::UnexpectedEvent)),
        },
        CleanupPhase::ListRecords => match e {
            CleanupEvent::ManagedRecords { records } => {
                &&& s2.tunnel == s.tunnel
                &&& opt_text(s2.api_token) == opt_text(s.api_token)
                &&& s2.zone_id@ == s.zone_id@
                &&& s2.account_id@ == s.account_id@
                &&& record_views(s2.records@) == record_views(records@)
                &&& if records@.len() > 0 {
                    s2.phase == CleanupPhase::DeleteRecords && s2.cursor == 0
                } else {
                    tunnel_deletion_begins(s2, a)
                }
            },
            CleanupEvent::Failed(err) => cleanup_finishes(s2, a, Err(ReconcileError::Request(err))),
            _ => cleanup_finishes(s2, a, Err(ReconcileError::UnexpectedEvent)),
        },
        CleanupPhase::DeleteRecords => match e {
            CleanupEvent::Deleted => {
                &&& same_cleanup_target(s, s2)
                &&& if s.cursor + 1 < s.records@.len() {
                    s2.phase == CleanupPhase::DeleteRecords && s2.cursor == s.cursor + 1
                } else {
                    tunnel_deletion_begins(s2, a)
                }
            },
            CleanupEvent::Failed(err) => cleanup_finishes(s2, a, Err(ReconcileError::Request(err))),
            _ => cleanup_finishes(s2, a, Err(ReconcileError::UnexpectedEvent)),
        },
        CleanupPhase::DeleteTunnel => match e {
            CleanupEvent::Deleted => cleanup_finishes(s2, a, Ok(ReconcileAction::AwaitChange)),
            CleanupEvent::Failed(_) => cleanup_finishes(s2, a, Ok(ReconcileAction::AwaitChange)),
            _ => cleanup_finishes(s2, a, Err(ReconcileError::UnexpectedEvent)),
        },
        CleanupPhase::Finished => cleanup_finishes(s2, a, Err(ReconcileError::UnexpectedEvent)),
    }
}

/// The position of a cleanup phase in the order of the steps.
pub open spec fn cleanup_rank(p: CleanupPhase) -> nat {
    match p {
        CleanupPhase::ReadToken => 0,
        CleanupPhase::ResolveZone => 1,
        CleanupPhase::ListRecords => 2,
        CleanupPhase::DeleteRecords => 3,
        CleanupPhase::DeleteTunnel => 4,
        CleanupPhase::Finished => 5,
    }
}

/// `s2` is further along than `s`.
pub open spec fn cleanup_advances(s: CleanupState, s2: CleanupState) -> bool {
    cleanup_rank(s2.phase) > cleanup_rank(s.phase) || (s2.phase == s.phase && s.phase
        == CleanupPhase::DeleteRecords && s2.records@.len() == s.records@.len() && s2.cursor
        > s.cursor)
}

fn cleanup_finish<E>(s: CleanupState, outcome: Result<ReconcileAction, ReconcileError<E>>) -> (r: (
    CleanupState,
    CleanupAction<E>,
))
    ensures
        cleanup_finishes(r.0, r.1, outcome),
        same_cleanup_target(s, r.0),
        cleanup_inv(r.0),
{
    (CleanupState { phase: CleanupPhase::Finished, ..s }, CleanupAction::Finish(outcome))
}

fn begin_tunnel_deletion<E>(s: CleanupState) -> (r: (CleanupState, CleanupAction<E>))
    ensures
        tunnel_deletion_begins(r.0, r.1),
        cleanup_awaits(r.0, r.1),
        same_cleanup_target(s, r.0),
        (s.tunnel.spec.credentials_ref is None <==> s.api_token is None) ==> cleanup_inv(r.0),
{
    match s.tunnel.recorded_tunnel_id() {
        Some(tid) => {
            let s2 = CleanupState { phase: CleanupPhase::DeleteTunnel, ..s };
            let action = CleanupAction::DeleteTunnel {
                account_id: s2.account_id.clone(),
                tunnel_id: tid,
                token: cleanup_token(&s2),
            };
            (s2, action)
        },
        None => cleanup_finish(s, Ok(ReconcileAction::AwaitChange)),
    }
}

fn cleanup_token(s: &CleanupState) -> (r: Option<String>)
    ensures
        opt_text(r) == opt_text(s.api_token),
{
    match &s.api_token {
        Some(t) => Some(t.clone()),
        None => None,
    }
}

/// Starts cleaning up after a deleted tunnel: the API token of its
/// `credentialsRef` Secret is read first when it names one, else the zone is
/// looked up with the controller-wide token.
pub fn start_cleanup<E>(tunnel: CloudflareTunnel) -> (r: (CleanupState, CleanupAction<E>))
    ensures
        r.0.tunnel == tunnel,
        r.0.api_token is None,
        r.0.phase == if tunnel.spec.credentials_ref is Some {
            CleanupPhase::ReadToken
        } else {
            CleanupPhase::ResolveZone
        },
        cleanup_awaits(r.0, r.1),
        cleanup_inv(r.0),
{
    let s = CleanupState {
        tunnel,
        api_token: None,
        phase: CleanupPhase::ResolveZone,
        zone_id: String::new(),
        account_id: String::new(),
        records: Vec::new(),
        cursor: 0,
    };
    match &s.tunnel.spec.credentials_ref {
        Some(r) => {
            let action = CleanupAction::ReadApiToken {
                namespace: r.namespace.clone(),
                name: r.name.clone(),
            };
            (CleanupState { phase: CleanupPhase::ReadToken, ..s }, action)
        },
        None => {
            let zone = s.tunnel.spec.zone.clone();
            (s, CleanupAction::ResolveZone { zone, token: None })
        },
    }
}

/// Advances the cleanup of a tunnel with the answer to its last request.
/// When the token or the zone cannot be had the Cloudflare objects are left
/// alone, and a failed tunnel deletion does not fail the cleanup.
pub fn cleanup_step<E>(s: CleanupState, e: CleanupEvent<E>) -> (r: (CleanupState, CleanupAction<E>))
    ensures
        cleanup_awaits(r.0, r.1),
        cleanup_inv(s) ==> cleanup_inv(r.0) && cleanup_transition(s, e, r.0, r.1),
        s.phase != CleanupPhase::Finished ==> cleanup_advances(s, r.0),
{
    match s.phase {
        CleanupPhase::ReadToken => match e {
            CleanupEvent::ApiToken { token } => match token {
                Some(t) => {
                    let s2 = CleanupState {
                        phase: CleanupPhase::ResolveZone,
                        api_token: Some(t),
                        ..s
                    };
                    let action = CleanupAction::ResolveZone {
                        zone: s2.tunnel.spec.zone.clone(),
                        token: cleanup_token(&s2),
                    };
                    (s2, action)
                },
                None => cleanup_finish(s, Ok(ReconcileAction::AwaitChange)),
            },
            CleanupEvent::Failed(_) => cleanup_finish(s, Ok(ReconcileAction::AwaitChange)),
            _ => cleanup_finish(s, Err(ReconcileError::UnexpectedEvent)),
        },
        CleanupPhase::ResolveZone => match e {
            CleanupEvent::ZoneResolved { zone_id, account_id } => {
                let s2 = CleanupState {
                    phase: CleanupPhase::ListRecords,
                    zone_id,
                    account_id,
                    ..s
                };
                let action = CleanupAction::ListManagedRecords {
                    zone_id: s2.zone_id.clone(),
                    token: cleanup_token(&s2),
                };
                (s2, action)
            },
            CleanupEvent::Failed(_) => cleanup_finish(s, Ok(ReconcileAction::AwaitChange)),
            _ => cleanup_finish(s, Err(ReconcileError::UnexpectedEvent)),
        },
        CleanupPhase::ListRecords => match e {
            CleanupEvent::ManagedRecords { records } => {
                let s2 = CleanupState { records, cursor: 0, ..s };
                if s2.records.len() > 0 {
                    let s3 = CleanupState { phase: CleanupPhase::DeleteRecords, ..s2 };
                    let action = CleanupAction::DeleteRecord {
                        zone_id: s3.zone_id.clone(),
                        record_id: s3.records[0].id.clone(),
                        token: cleanup_token(&s3),
                    };
                    (s3, action)
                } else {
                    begin_tunnel_deletion(s2)
                }
            },
            CleanupEvent::Failed(err) => cleanup_finish(s, Err(ReconcileError::Request(err))),
            _ => cleanup_finish(s, Err(ReconcileError::UnexpectedEvent)),
        },
        CleanupPhase::DeleteRecords => match e {
            CleanupEvent::Deleted => {
                if s.cursor >= s.records.len() {
                    return cleanup_finish(s, Err(ReconcileError::UnexpectedEvent));
                }
                if s.cursor + 1 < s.records.len() {
                    let s2 = CleanupState { cursor: s.cursor + 1, ..s };
                    let action = CleanupAction::DeleteRecord {
                        zone_id: s2.zone_id.clone(),
                        record_id: s2.records[s2.cursor].id.clone(),
                        token: cleanup_token(&s2),
                    };
                    (s2, action)
                } else {
                    begin_tunnel_deletion(s)
                }
            },
            CleanupEvent::Failed(err) => cleanup_finish(s, Err(ReconcileError::Request(err))),
            _ => cleanup_finish(s, Err(ReconcileError::UnexpectedEvent)),
        },
        CleanupPhase::DeleteTunnel => match e {
            CleanupEvent::Deleted => cleanup_finish(s, Ok(ReconcileAction::AwaitChange)),
            CleanupEvent::Failed(_) => cleanup_finish(s, Ok(ReconcileAction::AwaitChange)),
            _ => cleanup_finish(s, Err(ReconcileError::UnexpectedEvent)),
        },
        CleanupPhase::Finished => cleanup_finish(s, Err(ReconcileError::UnexpectedEvent)),
    }
}

} // verus!
