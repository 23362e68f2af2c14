use cloudflare_tunnel_operator::cloudflare::types::{DnsRecord, Tunnel};
use cloudflare_tunnel_operator::controller::{
    apply_step, cleanup_step, error_policy, listener_hostname_list, stale_records, start_apply,
    start_cleanup, ApplyAction, ApplyEvent, ApplyPhase, ApplyState, CleanupAction, CleanupEvent,
    ReconcileAction, ReconcileError,
};
use cloudflare_tunnel_operator::crd::{
    CloudflareTunnel, CloudflareTunnelSpec, CloudflareTunnelStatus, GatewaySpec, Listener,
    RouteStatus, SecretRef, TunnelMeta,
};

fn tunnel(hosts: &[&str], recorded: Option<&str>) -> CloudflareTunnel {
    CloudflareTunnel {
        metadata: TunnelMeta {
            name: Some("web".to_string()),
            generate_name: None,
            namespace: Some("default".to_string()),
            uid: Some("uid-1".to_string()),
            generation: Some(3),
        },
        spec: CloudflareTunnelSpec {
            zone: "example.com".to_string(),
            gateway: GatewaySpec {
                gateway_class_name: "cilium".to_string(),
                listeners: hosts.iter().map(|h| Listener { hostname: h.to_string() }).collect(),
            },
            image: None,
            credentials_ref: None,
        },
        status: recorded.map(|t| CloudflareTunnelStatus {
            tunnel_id: Some(t.to_string()),
            conditions: Vec::new(),
            routes: Vec::new(),
        }),
    }
}

fn record(id: &str, name: &str) -> DnsRecord {
    DnsRecord {
        id: id.to_string(),
        name: name.to_string(),
        content: "x.cfargotunnel.com".to_string(),
        record_type: "CNAME".to_string(),
    }
}

fn step(s: ApplyState, e: ApplyEvent<String>) -> (ApplyState, ApplyAction<String>) {
    apply_step(s, e)
}

#[test]
fn apply_creates_tunnel_and_syncs_everything() {
    let (s, a) = start_apply::<String>(tunnel(&["a.example.com", "b.example.com"], None));
    assert!(matches!(a, ApplyAction::ResolveZone { ref zone, token: None } if zone == "example.com"));
    let (s, a) = step(s, ApplyEvent::ZoneResolved { zone_id: "z".into(), account_id: "acc".into() });
    assert!(matches!(a, ApplyAction::CreateTunnel { ref account_id, ref name, .. } if account_id == "acc" && name == "web"));
    let created = Tunnel { id: "t1".into(), name: "web".into() };
    let (s, a) = step(s, ApplyEvent::TunnelCreated { tunnel: created, credentials: "{}".into() });
    assert!(matches!(a, ApplyAction::EnsureCname { ref zone_id, ref hostname, ref tunnel_id, .. }
        if zone_id == "z" && hostname == "a.example.com" && tunnel_id == "t1"));
    let (s, a) = step(s, ApplyEvent::CnameEnsured { record: record("r-a", "a.example.com") });
    assert!(matches!(a, ApplyAction::EnsureCname { ref hostname, .. } if hostname == "b.example.com"));
    let (s, a) = step(s, ApplyEvent::CnameEnsured { record: record("r-b", "b.example.com") });
    assert!(matches!(a, ApplyAction::ListManagedRecords { ref zone_id, .. } if zone_id == "z"));
    let listed = vec![
        record("r-a", "a.example.com"),
        record("old-1", "old.example.com"),
        record("r-b", "b.example.com"),
        record("old-2", "gone.example.com"),
    ];
    let (s, a) = step(s, ApplyEvent::ManagedRecords { records: listed });
    assert!(matches!(a, ApplyAction::DeleteRecord { ref record_id, .. } if record_id == "old-1"));
    let (s, a) = step(s, ApplyEvent::Applied);
    assert!(matches!(a, ApplyAction::DeleteRecord { ref record_id, .. } if record_id == "old-2"));
    let (s, a) = step(s, ApplyEvent::Applied);
    match &a {
        ApplyAction::ApplySecret { name, secret } => {
            assert_eq!(name, "web-tunnel-credentials");
            assert_eq!(secret.data.as_ref().unwrap()[0].1, b"{}".to_vec());
        }
        _ => panic!("expected the Secret to be applied"),
    }
    let (s, a) = step(s, ApplyEvent::Applied);
    match &a {
        ApplyAction::ApplyConfigMap { name, config_map } => {
            assert_eq!(name, "web-config");
            assert_eq!(config_map.data.as_ref().unwrap()[0].1.tunnel, "t1");
        }
        _ => panic!("expected the ConfigMap to be applied"),
    }
    let (s, a) = step(s, ApplyEvent::Applied);
    assert!(matches!(a, ApplyAction::ApplyDeployment { ref name, .. } if name == "web-cloudflared"));
    let (s, a) = step(s, ApplyEvent::Applied);
    match &a {
        ApplyAction::ApplyGateway { name, gateway } => {
            assert_eq!(name, "web-gateway");
            assert_eq!(gateway.listeners.len(), 2);
        }
        _ => panic!("expected the Gateway to be applied"),
    }
    let (s, a) = step(s, ApplyEvent::Applied);
    match &a {
        ApplyAction::PatchStatus { name, status } => {
            assert_eq!(name, "web");
            assert_eq!(status.tunnel_id.as_deref(), Some("t1"));
            assert_eq!(status.conditions.len(), 1);
            assert_eq!(status.conditions[0].type_, "Ready");
            assert_eq!(status.conditions[0].status, "True");
            assert_eq!(status.conditions[0].reason, "Reconciled");
            assert_eq!(status.conditions[0].observed_generation, Some(3));
            assert_eq!(status.routes.len(), 2);
            assert_eq!(status.routes[0].hostname, "a.example.com");
            assert_eq!(status.routes[0].dns_record, "r-a");
            assert_eq!(status.routes[1].dns_record, "r-b");
            assert_eq!(status.routes[1].status, "Active");
        }
        _ => panic!("expected the status patch"),
    }
    let (s, a) = step(s, ApplyEvent::Applied);
    assert_eq!(s.phase, ApplyPhase::Finished);
    assert!(matches!(a, ApplyAction::Finish(Ok(ReconcileAction::Requeue { secs: 300 }))));
}

#[test]
fn apply_reuses_an_existing_tunnel_without_rewriting_the_secret() {
    let (s, _) = start_apply::<String>(tunnel(&[], Some("t-old")));
    let (s, a) = step(s, ApplyEvent::ZoneResolved { zone_id: "z".into(), account_id: "acc".into() });
    assert!(matches!(a, ApplyAction::GetTunnel { ref tunnel_id, .. } if tunnel_id == "t-old"));
    let (s, a) = step(s, ApplyEvent::TunnelLookup { found: true });
    assert!(matches!(a, ApplyAction::ListManagedRecords { .. }));
    let (s, a) = step(s, ApplyEvent::ManagedRecords { records: Vec::new() });
    assert!(matches!(a, ApplyAction::ApplyConfigMap { .. }));
    assert_eq!(s.tunnel_id, "t-old");
}

#[test]
fn apply_recreates_a_tunnel_deleted_externally() {
    let (s, _) = start_apply::<String>(tunnel(&["a.example.com"], Some("t-old")));
    let (s, _) = step(s, ApplyEvent::ZoneResolved { zone_id: "z".into(), account_id: "acc".into() });
    let (_, a) = step(s, ApplyEvent::TunnelLookup { found: false });
    assert!(matches!(a, ApplyAction::CreateTunnel { .. }));
}

#[test]
fn apply_errors() {
    let mut t = tunnel(&[], None);
    t.metadata.namespace = None;
    let (s, a) = start_apply::<String>(t);
    assert_eq!(s.phase, ApplyPhase::Finished);
    assert!(matches!(a, ApplyAction::Finish(Err(ReconcileError::MissingField(ref f))) if f == "namespace"));

    let (s, _) = start_apply::<String>(tunnel(&[], None));
    let (s, a) = step(s, ApplyEvent::Failed("e1".into(), "zone lookup failed".into()));
    assert_eq!(s.phase, ApplyPhase::Finished);
    match &a {
        ApplyAction::ReportFailure { name, status, error } => {
            assert_eq!(name, "web");
            assert!(matches!(error, ReconcileError::Request(ref e) if e == "e1"));
            assert_eq!(status.conditions.len(), 1);
            assert_eq!(status.conditions[0].type_, "Ready");
            assert_eq!(status.conditions[0].status, "False");
            assert_eq!(status.conditions[0].reason, "zone lookup failed");
            assert_eq!(status.conditions[0].observed_generation, Some(3));
            assert!(status.tunnel_id.is_none());
        }
        _ => panic!("expected the failure to be reported"),
    }

    let (s, _) = start_apply::<String>(tunnel(&[], None));
    let (s, a) = step(s, ApplyEvent::Applied);
    match &a {
        ApplyAction::ReportFailure { status, error, .. } => {
            assert!(matches!(error, ReconcileError::UnexpectedEvent));
            assert_eq!(status.conditions[0].reason, "unexpected answer during reconciliation");
        }
        _ => panic!("expected the failure to be reported"),
    }
    let (_, a) = step(s, ApplyEvent::Applied);
    assert!(matches!(a, ApplyAction::Finish(Err(ReconcileError::UnexpectedEvent))));

    let mut t = tunnel(&[], None);
    t.metadata.uid = None;
    let (s, _) = start_apply::<String>(t);
    let (s, _) = step(s, ApplyEvent::ZoneResolved { zone_id: "z".into(), account_id: "acc".into() });
    let (s, _) = step(s, ApplyEvent::TunnelCreated {
        tunnel: Tunnel { id: "t1".into(), name: "web".into() },
        credentials: "{}".into(),
    });
    let (_, a) = step(s, ApplyEvent::ManagedRecords { records: Vec::new() });
    assert!(matches!(a, ApplyAction::ReportFailure { error: ReconcileError::InvalidResource(ref m), .. } if m == "failed to build owner reference"));
}

#[test]
fn failure_status_keeps_the_recorded_tunnel() {
    let mut t = tunnel(&["a.example.com"], Some("t-old"));
    t.status.as_mut().unwrap().routes.push(RouteStatus {
        hostname: "a.example.com".into(),
        dns_record: "r-a".into(),
        status: "Active".into(),
    });
    let (s, _) = start_apply::<String>(t);
    let (s, _) = step(s, ApplyEvent::ZoneResolved { zone_id: "z".into(), account_id: "acc".into() });
    let (_, a) = step(s, ApplyEvent::Failed("e".into(), "HTTP error: 403".into()));
    match &a {
        ApplyAction::ReportFailure { status, .. } => {
            assert_eq!(status.tunnel_id.as_deref(), Some("t-old"));
            assert_eq!(status.routes.len(), 1);
            assert_eq!(status.routes[0].dns_record, "r-a");
            assert_eq!(status.conditions[0].status, "False");
            assert_eq!(status.conditions[0].reason, "HTTP error: 403");
        }
        _ => panic!("expected the failure to be reported"),
    }
}

fn with_credentials_ref(mut t: CloudflareTunnel) -> CloudflareTunnel {
    t.spec.credentials_ref = Some(SecretRef { name: "my-cf-token".into(), namespace: "my-app".into() });
    t
}

#[test]
fn apply_uses_the_token_of_the_referenced_secret() {
    let (s, a) = start_apply::<String>(with_credentials_ref(tunnel(&["a.example.com"], None)));
    assert!(matches!(a, ApplyAction::ReadApiToken { ref namespace, ref name }
        if namespace == "my-app" && name == "my-cf-token"));
    let (s, a) = step(s, ApplyEvent::ApiToken { token: Some("T".into()) });
    assert!(matches!(a, ApplyAction::ResolveZone { ref zone, token: Some(ref t) } if zone == "example.com" && t == "T"));
    let (s, a) = step(s, ApplyEvent::ZoneResolved { zone_id: "z".into(), account_id: "acc".into() });
    assert!(matches!(a, ApplyAction::CreateTunnel { token: Some(ref t), .. } if t == "T"));
    let created = Tunnel { id: "t1".into(), name: "web".into() };
    let (s, a) = step(s, ApplyEvent::TunnelCreated { tunnel: created, credentials: "{}".into() });
    assert!(matches!(a, ApplyAction::EnsureCname { token: Some(ref t), .. } if t == "T"));
    let (s, a) = step(s, ApplyEvent::CnameEnsured { record: record("r-a", "a.example.com") });
    assert!(matches!(a, ApplyAction::ListManagedRecords { token: Some(ref t), .. } if t == "T"));
    let (_, a) = step(s, ApplyEvent::ManagedRecords { records: vec![record("old", "old.example.com")] });
    assert!(matches!(a, ApplyAction::DeleteRecord { token: Some(ref t), .. } if t == "T"));
}

#[test]
fn apply_fails_when_the_referenced_secret_has_no_token() {
    let (s, _) = start_apply::<String>(with_credentials_ref(tunnel(&[], None)));
    let (_, a) = step(s, ApplyEvent::ApiToken { token: None });
    match &a {
        ApplyAction::ReportFailure { status, error, .. } => {
            assert!(matches!(error, ReconcileError::MissingField(ref f) if f == "token"));
            assert_eq!(status.conditions[0].reason, "missing field: token");
        }
        _ => panic!("expected the failure to be reported"),
    }
}

#[test]
fn cleanup_uses_the_token_of_the_referenced_secret() {
    let (s, a) = start_cleanup::<String>(with_credentials_ref(tunnel(&[], Some("t1"))));
    assert!(matches!(a, CleanupAction::ReadApiToken { ref name, .. } if name == "my-cf-token"));
    let (s, a) = cleanup_step::<String>(s, CleanupEvent::ApiToken { token: Some("T".into()) });
    assert!(matches!(a, CleanupAction::ResolveZone { token: Some(ref t), .. } if t == "T"));
    let (s, _) = cleanup_step::<String>(s, CleanupEvent::ZoneResolved { zone_id: "z".into(), account_id: "acc".into() });
    let (_, a) = cleanup_step::<String>(s, CleanupEvent::ManagedRecords { records: Vec::new() });
    assert!(matches!(a, CleanupAction::DeleteTunnel { token: Some(ref t), .. } if t == "T"));

    let (s, _) = start_cleanup::<String>(with_credentials_ref(tunnel(&[], Some("t1"))));
    let (_, a) = cleanup_step::<String>(s, CleanupEvent::ApiToken { token: None });
    assert!(matches!(a, CleanupAction::Finish(Ok(ReconcileAction::AwaitChange))));
}

#[test]
fn failures_requeue_after_fifteen_seconds() {
    let e: ReconcileError<String> = ReconcileError::UnexpectedEvent;
    assert_eq!(error_policy(&e), ReconcileAction::Requeue { secs: 15 });
}

#[test]
fn stale_records_are_those_no_listener_wants() {
    let desired = listener_hostname_list(&vec![
        Listener { hostname: "a.example.com".into() },
        Listener { hostname: "b.example.com".into() },
    ]);
    let records = vec![record("1", "a.example.com"), record("2", "c.example.com"), record("3", "b.example.com")];
    let stale = stale_records(&records, &desired);
    assert_eq!(stale.len(), 1);
    assert_eq!(stale[0].id, "2");
}

#[test]
fn cleanup_deletes_records_then_tunnel() {
    let (s, a) = start_cleanup::<String>(tunnel(&["a.example.com"], Some("t1")));
    assert!(matches!(a, CleanupAction::ResolveZone { ref zone, .. } if zone == "example.com"));
    let (s, a) = cleanup_step::<String>(s, CleanupEvent::ZoneResolved { zone_id: "z".into(), account_id: "acc".into() });
    assert!(matches!(a, CleanupAction::ListManagedRecords { ref zone_id, .. } if zone_id == "z"));
    let (s, a) = cleanup_step::<String>(s, CleanupEvent::ManagedRecords { records: vec![record("1", "a"), record("2", "b")] });
    assert!(matches!(a, CleanupAction::DeleteRecord { ref record_id, .. } if record_id == "1"));
    let (s, a) = cleanup_step::<String>(s, CleanupEvent::Deleted);
    assert!(matches!(a, CleanupAction::DeleteRecord { ref record_id, .. } if record_id == "2"));
    let (s, a) = cleanup_step::<String>(s, CleanupEvent::Deleted);
    assert!(matches!(a, CleanupAction::DeleteTunnel { ref account_id, ref tunnel_id, .. } if account_id == "acc" && tunnel_id == "t1"));
    let (_, a) = cleanup_step::<String>(s, CleanupEvent::Failed("already gone".to_string()));
    assert!(matches!(a, CleanupAction::Finish(Ok(ReconcileAction::AwaitChange))));
}

#[test]
fn cleanup_without_zone_or_tunnel_id() {
    let (s, _) = start_cleanup::<String>(tunnel(&[], Some("t1")));
    let (_, a) = cleanup_step::<String>(s, CleanupEvent::Failed("token revoked".to_string()));
    assert!(matches!(a, CleanupAction::Finish(Ok(ReconcileAction::AwaitChange))));

    let (s, _) = start_cleanup::<String>(tunnel(&[], None));
    let (s, _) = cleanup_step::<String>(s, CleanupEvent::ZoneResolved { zone_id: "z".into(), account_id: "acc".into() });
    let (_, a) = cleanup_step::<String>(s, CleanupEvent::ManagedRecords { records: Vec::new() });
    assert!(matches!(a, CleanupAction::Finish(Ok(ReconcileAction::AwaitChange))));

    let (s, _) = start_cleanup::<String>(tunnel(&[], None));
    let (s, _) = cleanup_step::<String>(s, CleanupEvent::ZoneResolved { zone_id: "z".into(), account_id: "acc".into() });
    let (_, a) = cleanup_step::<String>(s, CleanupEvent::Failed("list failed".to_string()));
    assert!(matches!(a, CleanupAction::Finish(Err(ReconcileError::Request(ref e))) if e == "list failed"));
}
