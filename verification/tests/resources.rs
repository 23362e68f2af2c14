use cloudflare_tunnel_operator::crd::{
    CloudflareTunnel, CloudflareTunnelSpec, GatewaySpec, Listener, TunnelMeta,
};
use cloudflare_tunnel_operator::resources::deployment::{build, DEFAULT_IMAGE};
use cloudflare_tunnel_operator::resources::meta::managed_by_labels;
use cloudflare_tunnel_operator::resources::{configmap, gateway, secret};

fn test_tunnel(name: &str, ns: &str) -> CloudflareTunnel {
    CloudflareTunnel {
        metadata: TunnelMeta {
            name: Some(name.to_string()),
            generate_name: None,
            namespace: Some(ns.to_string()),
            uid: Some("uid-1".to_string()),
            generation: None,
        },
        spec: CloudflareTunnelSpec {
            zone: "example.com".to_string(),
            gateway: GatewaySpec {
                gateway_class_name: "cilium".to_string(),
                listeners: vec![Listener { hostname: "app.example.com".to_string() }],
            },
            image: None,
            credentials_ref: None,
        },
        status: None,
    }
}

#[test]
fn deployment_has_correct_name() {
    let tunnel = test_tunnel("web", "default");
    let deploy = build(&tunnel).unwrap();
    assert_eq!(deploy.metadata.name.unwrap(), "web-cloudflared");
}

#[test]
fn deployment_uses_default_image() {
    let tunnel = test_tunnel("web", "default");
    let deploy = build(&tunnel).unwrap();
    let container = &deploy.spec.unwrap().template.spec.unwrap().containers[0];
    assert_eq!(container.image.as_deref().unwrap(), DEFAULT_IMAGE);
}

#[test]
fn deployment_uses_custom_image() {
    let mut tunnel = test_tunnel("web", "default");
    tunnel.spec.image = Some("cloudflare/cloudflared:2025.1.0".to_string());
    let deploy = build(&tunnel).unwrap();
    let container = &deploy.spec.unwrap().template.spec.unwrap().containers[0];
    assert_eq!(
        container.image.as_deref().unwrap(),
        "cloudflare/cloudflared:2025.1.0"
    );
}

#[test]
fn deployment_mounts_config_volume() {
    let tunnel = test_tunnel("web", "default");
    let deploy = build(&tunnel).unwrap();
    let spec = deploy.spec.unwrap().template.spec.unwrap();
    let mounts = spec.containers[0].volume_mounts.as_ref().unwrap();
    assert_eq!(mounts.len(), 1);
    assert!(mounts.iter().any(|m| m.name == "config"));
}

#[test]
fn deployment_injects_tunnel_token_env() {
    let tunnel = test_tunnel("web", "default");
    let deploy = build(&tunnel).unwrap();
    let container = &deploy.spec.unwrap().template.spec.unwrap().containers[0];
    let env = container.env.as_ref().expect("env vars should be set");
    let token_env = env
        .iter()
        .find(|e| e.name == "TUNNEL_TOKEN")
        .expect("TUNNEL_TOKEN env var");
    let source = token_env.value_from.as_ref().expect("should use valueFrom");
    let secret_ref = source.secret_key_ref.as_ref().expect("should ref a secret");
    assert_eq!(secret_ref.key, "token");
    assert!(secret_ref.name.contains("tunnel-credentials"));
}

#[test]
fn deployment_details() {
    let tunnel = test_tunnel("web", "default");
    let deploy = build(&tunnel).unwrap();
    assert_eq!(deploy.metadata.namespace.as_deref(), Some("default"));
    let owners = deploy.metadata.owner_references.as_ref().unwrap();
    assert_eq!(owners.len(), 1);
    assert_eq!(owners[0].api_version, "tunnels.abutt.dev/v1alpha1");
    assert_eq!(owners[0].kind, "CloudflareTunnel");
    assert_eq!(owners[0].name, "web");
    assert_eq!(owners[0].uid, "uid-1");
    assert_eq!(owners[0].controller, Some(true));
    let labels = deploy.metadata.labels.as_ref().unwrap();
    assert_eq!(
        labels,
        &vec![(
            "app.kubernetes.io/managed-by".to_string(),
            "cloudflare-tunnel-operator".to_string()
        )]
    );
    let spec = deploy.spec.unwrap();
    let pod_labels = vec![
        ("app.kubernetes.io/managed-by".to_string(), "cloudflare-tunnel-operator".to_string()),
        ("app.kubernetes.io/name".to_string(), "web-cloudflared".to_string()),
    ];
    assert_eq!(spec.selector.match_labels.as_ref().unwrap(), &pod_labels);
    assert_eq!(spec.template.metadata.as_ref().unwrap().labels.as_ref().unwrap(), &pod_labels);
    let pod = spec.template.spec.unwrap();
    assert_eq!(
        pod.containers[0].args.as_ref().unwrap(),
        &vec!["tunnel", "--config", "/etc/cloudflared/config/config.yaml", "run"]
    );
    let volumes = pod.volumes.unwrap();
    assert_eq!(volumes.len(), 1);
    assert_eq!(volumes[0].config_map.as_ref().unwrap().name, "web-config");
}

#[test]
fn builders_refuse_tunnels_without_namespace_or_uid() {
    let mut tunnel = test_tunnel("web", "default");
    tunnel.metadata.namespace = None;
    assert_eq!(build(&tunnel).err(), Some("CloudflareTunnel must be namespaced"));
    assert_eq!(configmap::build(&tunnel, "id").err(), Some("CloudflareTunnel must be namespaced"));
    assert_eq!(gateway::build(&tunnel).err(), Some("CloudflareTunnel must be namespaced"));
    let mut tunnel = test_tunnel("web", "default");
    tunnel.metadata.uid = None;
    assert_eq!(build(&tunnel).err(), Some("failed to build owner reference"));
    assert_eq!(configmap::build(&tunnel, "id").err(), Some("failed to build owner reference"));
    assert_eq!(gateway::build(&tunnel).err(), Some("failed to build owner reference"));
}

#[test]
fn secret_holds_credentials() {
    let tunnel = test_tunnel("web", "default");
    let s = secret::build(&tunnel, b"creds-json");
    assert_eq!(s.metadata.name.as_deref(), Some("web-tunnel-credentials"));
    assert_eq!(s.metadata.namespace.as_deref(), Some("default"));
    let data = s.data.unwrap();
    assert_eq!(data.len(), 1);
    assert_eq!(data[0].0, "credentials.json");
    assert_eq!(data[0].1, b"creds-json".to_vec());
}

#[test]
fn configmap_points_at_gateway_service() {
    let tunnel = test_tunnel("web", "apps");
    let cm = configmap::build(&tunnel, "tid-1").unwrap();
    assert_eq!(cm.metadata.name.as_deref(), Some("web-config"));
    let data = cm.data.unwrap();
    assert_eq!(data[0].0, "config.yaml");
    let cfg = &data[0].1;
    assert_eq!(cfg.tunnel, "tid-1");
    assert_eq!(cfg.credentials_file, "/etc/cloudflared/creds/credentials.json");
    assert_eq!(cfg.ingress.len(), 2);
    assert!(cfg.ingress[0].hostname.is_empty());
    assert_eq!(cfg.ingress[0].service, "http://web-gateway.apps.svc.cluster.local");
    assert!(cfg.ingress[1].hostname.is_empty());
    assert_eq!(cfg.ingress[1].service, "http_status:404");
}

#[test]
fn gateway_has_one_listener_per_hostname() {
    let mut tunnel = test_tunnel("web", "default");
    let mut listeners = Vec::new();
    for i in 0..12 {
        listeners.push(Listener { hostname: format!("h{i}.example.com") });
    }
    tunnel.spec.gateway.listeners = listeners;
    let g = gateway::build(&tunnel).unwrap();
    assert_eq!(g.api_version, "gateway.networking.k8s.io/v1");
    assert_eq!(g.kind, "Gateway");
    assert_eq!(g.metadata.name.as_deref(), Some("web-gateway"));
    assert_eq!(g.gateway_class_name, "cilium");
    assert_eq!(g.listeners.len(), 12);
    for (i, l) in g.listeners.iter().enumerate() {
        assert_eq!(l.name, format!("listener-{i}"));
        assert_eq!(l.hostname, format!("h{i}.example.com"));
        assert_eq!(l.port, 80);
        assert_eq!(l.protocol, "HTTP");
        assert_eq!(l.allowed_routes_from, "All");
    }
    let names: std::collections::BTreeSet<_> = g.listeners.iter().map(|l| l.name.clone()).collect();
    assert_eq!(names.len(), 12);
}

#[test]
fn gateway_api_resource_is_gateway_v1() {
    let ar = gateway::gateway_api_resource();
    assert_eq!(ar.group, "gateway.networking.k8s.io");
    assert_eq!(ar.version, "v1");
    assert_eq!(ar.api_version, "gateway.networking.k8s.io/v1");
    assert_eq!(ar.kind, "Gateway");
    assert_eq!(ar.plural, "gateways");
}

#[test]
fn owned_objects_share_labels_and_owner() {
    let tunnel = test_tunnel("web", "default");
    let expected = managed_by_labels();
    let d = build(&tunnel).unwrap();
    let c = configmap::build(&tunnel, "id").unwrap();
    let g = gateway::build(&tunnel).unwrap();
    let s = secret::build(&tunnel, b"x");
    for meta in [&d.metadata, &c.metadata, &g.metadata, &s.metadata] {
        assert_eq!(meta.labels.as_ref().unwrap(), &expected);
        assert_eq!(meta.owner_references.as_ref().unwrap()[0].uid, "uid-1");
    }
    // The Deployment reads the Secret and mounts the ConfigMap built for the same tunnel.
    let pod = d.spec.unwrap().template.spec.unwrap();
    let env = pod.containers[0].env.as_ref().unwrap();
    let secret_name = &env[0].value_from.as_ref().unwrap().secret_key_ref.as_ref().unwrap().name;
    assert_eq!(Some(secret_name.as_str()), s.metadata.name.as_deref());
    assert_eq!(
        Some(pod.volumes.unwrap()[0].config_map.as_ref().unwrap().name.as_str()),
        c.metadata.name.as_deref()
    );
}

#[test]
fn name_any_falls_back_to_generate_name() {
    let mut tunnel = test_tunnel("web", "default");
    tunnel.metadata.name = None;
    tunnel.metadata.generate_name = Some("gen-".to_string());
    assert_eq!(tunnel.name_any(), "gen-");
    assert!(tunnel.controller_owner_ref().is_none());
    tunnel.metadata.generate_name = None;
    assert_eq!(tunnel.name_any(), "");
}
