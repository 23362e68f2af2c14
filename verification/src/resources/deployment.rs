//! The Deployment that runs cloudflared for a tunnel.

use vstd::prelude::*;
use vstd::string::StringExecFns;
use crate::crd::{CloudflareTunnel, TunnelMeta, spec_name_any};
use crate::resources::meta::{
    ObjectMeta, can_own, entry_keys, in_map_order, is_owned_meta, label_views, managed_by_labels,
    managed_label, owned_meta, text_before,
};
use crate::text::string_views;

verus! {

/// Selects pods by their labels.
pub struct LabelSelector {
    pub match_labels: Option<Vec<(String, String)>>,
}

/// A key of a Secret.
pub struct SecretKeySelector {
    pub name: String,
    pub key: String,
}

/// Where an environment variable takes its value from.
pub struct EnvVarSource {
    pub secret_key_ref: Option<SecretKeySelector>,
}

/// An environment variable of a container.
pub struct EnvVar {
    pub name: String,
    pub value: Option<String>,
    pub value_from: Option<EnvVarSource>,
}

/// A volume mounted into a container.
pub struct VolumeMount {
    pub name: String,
    pub mount_path: String,
    pub read_only: Option<bool>,
}

/// A volume filled from a ConfigMap.
pub struct ConfigMapVolumeSource {
    pub name: String,
}

/// A volume of a pod.
pub struct Volume {
    pub name: String,
    pub config_map: Option<ConfigMapVolumeSource>,
}

/// A container of a pod.
pub struct Container {
    pub name: String,
    pub image: Option<String>,
    pub args: Option<Vec<String>>,
    pub env: Option<Vec<EnvVar>>,
    pub volume_mounts: Option<Vec<VolumeMount>>,
}

/// The specification of a pod.
pub struct PodSpec {
    pub containers: Vec<Container>,
    pub volumes: Option<Vec<Volume>>,
}

/// The template of the pods a Deployment runs.
pub struct PodTemplateSpec {
    pub metadata: Option<ObjectMeta>,
    pub spec: Option<PodSpec>,
}

/// The specification of a Deployment.
pub struct DeploymentSpec {
    pub selector: LabelSelector,
    pub template: PodTemplateSpec,
}

/// A Deployment.
pub struct Deployment {
    pub metadata: ObjectMeta,
    pub spec: Option<DeploymentSpec>,
}

/// The cloudflared image used when the tunnel names none.
pub const DEFAULT_IMAGE: &'static str = "cloudflare/cloudflared:2026.3.0";

/// The cloudflared image used when the tunnel names none.
pub open spec fn default_image() -> Seq<char> {
    DEFAULT_IMAGE@
}

/// The image that runs the tunnel: the one in its spec, else the default.
pub open spec fn tunnel_image(t: CloudflareTunnel) -> Seq<char> {
    match t.spec.image {
        Some(i) => i@,
        None => default_image(),
    }
}

/// The labels of the cloudflared pods: the managed-by label and
/// `app.kubernetes.io/name: {name}-cloudflared`.
pub open spec fn pod_labels(t: TunnelMeta) -> Seq<(Seq<char>, Seq<char>)> {
    seq![managed_label(), ("app.kubernetes.io/name"@, spec_name_any(t) + "-cloudflared"@)]
}

/// The arguments of cloudflared: run the tunnel from the mounted configuration.
pub open spec fn cloudflared_args() -> Seq<Seq<char>> {
    seq!["tunnel"@, "--config"@, "/etc/cloudflared/config/config.yaml"@, "run"@]
}

/// `e` is the `TUNNEL_TOKEN` variable, read from key `token` of the tunnel's
/// credentials Secret.
pub open spec fn is_token_env(e: EnvVar, t: TunnelMeta) -> bool {
    &&& e.name@ == "TUNNEL_TOKEN"@
    &&& e.value is None
    &&& e.value_from matches Some(src) && src.secret_key_ref matches Some(k) && k.name@
        == spec_name_any(t) + "-tunnel-credentials"@ && k.key@ == "token"@
}

/// `c` is the cloudflared container of the tunnel.
pub open spec fn is_cloudflared_container(c: Container, t: CloudflareTunnel) -> bool {
    &&& c.name@ == "cloudflared"@
    &&& c.image matches Some(i) && i@ == tunnel_image(t)
    &&& c.args matches Some(a) && string_views(a@) == cloudflared_args()
    &&& c.env matches Some(env) && env@.len() == 1 && is_token_env(env@[0], t.metadata)
    &&& c.volume_mounts matches Some(ms) && ms@.len() == 1 && ms@[0].name@ == "config"@
        && ms@[0].mount_path@ == "/etc/cloudflared/config"@ && ms@[0].read_only == Some(true)
}

/// `v` is the volume that holds the tunnel's configuration ConfigMap.
pub open spec fn is_config_volume(v: Volume, t: TunnelMeta) -> bool {
    &&& v.name@ == "config"@
    &&& v.config_map matches Some(src) && src.name@ == spec_name_any(t) + "-config"@
}

/// `d` is the cloudflared Deployment of the tunnel: named `{name}-cloudflared`,
/// owned and labelled, selecting and labelling its pods with `pod_labels`,
/// and running one cloudflared container with the config volume.
pub open spec fn is_cloudflared_deployment(d: Deployment, t: CloudflareTunnel) -> bool {
    &&& is_owned_meta(d.metadata, t.metadata, "-cloudflared"@, seq![managed_label()])
    &&& d.spec matches Some(spec) && {
        &&& spec.selector.match_labels matches Some(sel) && label_views(sel@) == pod_labels(
            t.metadata,
        ) && in_map_order(entry_keys(label_views(sel@)))
        &&& spec.template.metadata matches Some(pm) && pm.name is None && pm.namespace is None
            && pm.owner_references is None && (pm.labels matches Some(pl) && label_views(pl@)
            == pod_labels(t.metadata) && in_map_order(entry_keys(label_views(pl@))))
        &&& spec.template.spec matches Some(pod) && {
            &&& pod.containers@.len() == 1
            &&& is_cloudflared_container(pod.containers@[0], t)
            &&& pod.volumes matches Some(vs) && vs@.len() == 1 && is_config_volume(
                vs@[0],
                t.metadata,
            )
        }
    }
}

fn pod_label_list(tunnel: &CloudflareTunnel) -> (r: Vec<(String, String)>)
    ensures
        label_views(r@) == pod_labels(tunnel.metadata),
        in_map_order(entry_keys(label_views(r@))),
{
    let mut l = managed_by_labels();
    let ghost before = l@;
    let mut deploy_name = tunnel.name_any();
    deploy_name.append("-cloudflared");
    let entry = (String::from_str("app.kubernetes.io/name"), deploy_name);
    l.push(entry);
    assert(label_views(l@) =~= label_views(before).push((entry.0@, entry.1@)));
    assert(label_views(l@) =~= pod_labels(tunnel.metadata));
    proof {
        let keys = entry_keys(label_views(l@));
        let a = "app.kubernetes.io/managed-by"@;
        let b = "app.kubernetes.io/name"@;
        reveal_strlit("app.kubernetes.io/managed-by");
        reveal_strlit("app.kubernetes.io/name");
        assert(keys =~= seq![a, b]);
        assert(a.take(18) =~= b.take(18));
        assert(text_before(a, b));
    }
    l
}

/// Builds the cloudflared Deployment: one container that takes the tunnel
/// token from the credentials Secret and mounts the configuration ConfigMap.
pub fn build(tunnel: &CloudflareTunnel) -> (r: Result<Deployment, &'static str>)
    ensures
        match r {
            Ok(d) => tunnel.metadata.namespace is Some && can_own(tunnel.metadata)
                && is_cloudflared_deployment(d, *tunnel),
            Err(e) => if tunnel.metadata.namespace is None {
                e@ == "CloudflareTunnel must be namespaced"@
            } else {
                !can_own(tunnel.metadata) && e@ == "failed to build owner reference"@
            },
        },
{
    let name = tunnel.name_any();
    let namespace = match tunnel.namespace() {
        Some(n) => n,
        None => return Err("CloudflareTunnel must be namespaced"),
    };
    let owner = match tunnel.controller_owner_ref() {
        Some(o) => o,
        None => return Err("failed to build owner reference"),
    };
    let image = match &tunnel.spec.image {
        Some(i) => i.clone(),
        None => String::from_str(DEFAULT_IMAGE),
    };
    let mut args: Vec<String> = Vec::new();
    args.push(String::from_str("tunnel"));
    args.push(String::from_str("--config"));
    args.push(String::from_str("/etc/cloudflared/config/config.yaml"));
    args.push(String::from_str("run"));
    assert(string_views(args@) =~= cloudflared_args());
    let mut secret_name = name.clone();
    secret_name.append("-tunnel-credentials");
    let mut env: Vec<EnvVar> = Vec::new();
    env.push(
        EnvVar {
            name: String::from_str("TUNNEL_TOKEN"),
            value: None,
            value_from: Some(
                EnvVarSource {
                    secret_key_ref: Some(
                        SecretKeySelector { name: secret_name, key: String::from_str("token") },
                    ),
                },
            ),
        },
    );
    let mut mounts: Vec<VolumeMount> = Vec::new();
    mounts.push(
        VolumeMount {
            name: String::from_str("config"),
            mount_path: String::from_str("/etc/cloudflared/config"),
            read_only: Some(true),
        },
    );
    let mut containers: Vec<Container> = Vec::new();
    containers.push(
        Container {
            name: String::from_str("cloudflared"),
            image: Some(image),
            args: Some(args),
            env: Some(env),
            volume_mounts: Some(mounts),
        },
    );
    let mut config_name = name.clone();
    config_name.append("-config");
    let mut volumes: Vec<Volume> = Vec::new();
    volumes.push(
        Volume {
            name: String::from_str("config"),
            config_map: Some(ConfigMapVolumeSource { name: config_name }),
        },
    );
    Ok(
        Deployment {
            metadata: owned_meta(tunnel, namespace, owner, "-cloudflared", managed_by_labels()),
            spec: Some(
                DeploymentSpec {
                    selector: LabelSelector { match_labels: Some(pod_label_list(tunnel)) },
                    template: PodTemplateSpec {
                        metadata: Some(
                            ObjectMeta {
                                name: None,
                                namespace: None,
                                owner_references: None,
                                labels: Some(pod_label_list(tunnel)),
                            },
                        ),
                        spec: Some(PodSpec { containers, volumes: Some(volumes) }),
                    },
                },
            ),
        },
    )
}

} // verus!
