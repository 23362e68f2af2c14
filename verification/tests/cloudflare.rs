use cloudflare_tunnel_operator::cloudflare::api::{
    auth_header, cname_query, cname_target, create_dns_record_request, create_tunnel_request,
    dns_record_url, dns_records_url, encode_tunnel_secret, managed_records_query, new_tunnel_secret,
    plan_cname, select_zone, tunnel_connections_url, tunnel_credentials, tunnel_missing, tunnel_url,
    tunnels_url, zone_query, zones_url, CnamePlan,
};
use cloudflare_tunnel_operator::cloudflare::types::{Account, DnsRecord, Zone};

fn record(id: &str, name: &str, content: &str) -> DnsRecord {
    DnsRecord {
        id: id.to_string(),
        name: name.to_string(),
        content: content.to_string(),
        record_type: "CNAME".to_string(),
    }
}

#[test]
fn endpoints() {
    let base = "https://api.cloudflare.com/client/v4";
    assert_eq!(zones_url(), format!("{base}/zones"));
    assert_eq!(tunnels_url("acc"), format!("{base}/accounts/acc/cfd_tunnel"));
    assert_eq!(tunnel_url("acc", "t1"), format!("{base}/accounts/acc/cfd_tunnel/t1"));
    assert_eq!(
        tunnel_connections_url("acc", "t1"),
        format!("{base}/accounts/acc/cfd_tunnel/t1/connections")
    );
    assert_eq!(dns_records_url("z"), format!("{base}/zones/z/dns_records"));
    assert_eq!(dns_record_url("z", "r"), format!("{base}/zones/z/dns_records/r"));
    assert_eq!(auth_header("tok"), "Bearer tok");
}

#[test]
fn queries() {
    assert_eq!(zone_query("example.com"), vec![("name".to_string(), "example.com".to_string())]);
    assert_eq!(
        cname_query("app.example.com"),
        vec![
            ("type".to_string(), "CNAME".to_string()),
            ("name".to_string(), "app.example.com".to_string())
        ]
    );
    assert_eq!(
        managed_records_query(),
        vec![
            ("type".to_string(), "CNAME".to_string()),
            ("comment.contains".to_string(), "Managed by cloudflare-tunnel-operator".to_string())
        ]
    );
}

#[test]
fn first_zone_is_selected() {
    let zones = vec![
        Zone { id: "z1".into(), name: "example.com".into(), account: Account { id: "a1".into() } },
        Zone { id: "z2".into(), name: "example.com".into(), account: Account { id: "a2".into() } },
    ];
    assert_eq!(select_zone(zones, "example.com"), Ok(("z1".to_string(), "a1".to_string())));
    assert_eq!(select_zone(Vec::new(), "nope.org"), Err("zone 'nope.org' not found".to_string()));
}

#[test]
fn not_found_means_missing_tunnel() {
    assert!(tunnel_missing(404));
    assert!(!tunnel_missing(200));
    assert!(!tunnel_missing(500));
}

#[test]
fn tunnel_secret_is_base64_of_32_bytes() {
    let bytes: Vec<u8> = (0u8..32).collect();
    assert_eq!(
        encode_tunnel_secret(&bytes),
        "AAECAwQFBgcICQoLDA0ODxAREhMUFRYXGBkaGxwdHh8="
    );
    let zeros = [0u8; 32];
    assert_eq!(encode_tunnel_secret(&zeros), "AAAAAAAAAAAAAAAAAAAAAAAAAAAAAAAAAAAAAAAAAAA=");
    let a = new_tunnel_secret();
    let b = new_tunnel_secret();
    assert_eq!(a.len(), 44);
    assert_eq!(b.len(), 44);
    assert_ne!(a, b);
}

#[test]
fn create_tunnel_request_is_local() {
    let r = create_tunnel_request("web", "c2VjcmV0");
    assert_eq!(r.name, "web");
    assert_eq!(r.tunnel_secret, "c2VjcmV0");
    assert_eq!(r.config_src, "local");
}

#[test]
fn credentials_file_is_json() {
    let creds = tunnel_credentials("acc-1", "tid-1", "sec\"ret\\");
    assert_eq!(
        creds,
        r#"{"AccountTag":"acc-1","TunnelID":"tid-1","TunnelSecret":"sec\"ret\\"}"#
    );
    let v: serde_json::Value = serde_json::from_str(&creds).unwrap();
    assert_eq!(v["AccountTag"], "acc-1");
    assert_eq!(v["TunnelID"], "tid-1");
    assert_eq!(v["TunnelSecret"], "sec\"ret\\");
}

#[test]
fn cname_request_fields() {
    assert_eq!(cname_target("tid"), "tid.cfargotunnel.com");
    let r = create_dns_record_request("app.example.com", "tid");
    assert_eq!(r.record_type, "CNAME");
    assert_eq!(r.name, "app.example.com");
    assert_eq!(r.content, "tid.cfargotunnel.com");
    assert!(r.proxied);
    assert_eq!(r.comment, "Managed by cloudflare-tunnel-operator");
    assert_eq!(r.ttl, 1);
}

#[test]
fn cname_plan_keeps_replaces_or_creates() {
    let kept = vec![record("r1", "app.example.com", "tid.cfargotunnel.com")];
    match plan_cname(&kept, "app.example.com", "tid") {
        CnamePlan::Keep(r) => assert_eq!(r.id, "r1"),
        _ => panic!("expected the record to be kept"),
    }
    let wrong = vec![record("r2", "app.example.com", "other.cfargotunnel.com")];
    match plan_cname(&wrong, "app.example.com", "tid") {
        CnamePlan::Replace { stale_record_id, request } => {
            assert_eq!(stale_record_id, "r2");
            assert_eq!(request.content, "tid.cfargotunnel.com");
        }
        _ => panic!("expected the record to be replaced"),
    }
    match plan_cname(&Vec::new(), "app.example.com", "tid") {
        CnamePlan::Create(request) => assert_eq!(request.name, "app.example.com"),
        _ => panic!("expected a record to be created"),
    }
}

#[test]
fn credentials_escape_control_characters() {
    let c = tunnel_credentials("a\nb", "t\u{1}", "s\\\"");
    assert_eq!(
        c,
        "{\"AccountTag\":\"a\\nb\",\"TunnelID\":\"t\\u0001\",\"TunnelSecret\":\"s\\\\\\\"\"}"
    );
}
