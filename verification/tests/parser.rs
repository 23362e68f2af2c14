use cloudflare_tunnel_operator::cloudflared_config::{
    AccessConfig, CloudflaredConfig, CloudflaredConfigFile, IngressIPRule, OriginRequestConfig,
    UnvalidatedIngressRule, WarpRoutingConfig,
};
use cloudflare_tunnel_operator::go_parser::{
    extract_structs, go_name_to_snake_case, map_go_type, parse_field_line, parse_struct_header,
    parse_tag_value, BaseType, RustType,
};
use cloudflare_tunnel_operator::text::{chars_of, lines_window, split_window, trim_window, words_window};

#[test]
fn test_snake_case() {
    assert_eq!(go_name_to_snake_case("ConnectTimeout"), "connect_timeout");
    assert_eq!(go_name_to_snake_case("HTTPHostHeader"), "http_host_header");
    assert_eq!(go_name_to_snake_case("NoTLSVerify"), "no_tls_verify");
    assert_eq!(go_name_to_snake_case("TCPKeepAlive"), "tcp_keep_alive");
    assert_eq!(go_name_to_snake_case("Http2Origin"), "http2_origin");
    assert_eq!(go_name_to_snake_case("IPRules"), "ip_rules");
    assert_eq!(go_name_to_snake_case("CAPool"), "ca_pool");
    assert_eq!(go_name_to_snake_case("TunnelID"), "tunnel_id");
    assert_eq!(go_name_to_snake_case("MatchSNIToHost"), "match_sni_to_host");
}

#[test]
fn test_parse_struct_header() {
    assert_eq!(
        parse_struct_header("type Configuration struct {"),
        Some("Configuration".to_string())
    );
    assert_eq!(
        parse_struct_header("type foo struct {"),
        Some("foo".to_string())
    );
    assert_eq!(parse_struct_header("// comment"), None);
}

#[test]
fn test_parse_tag_value() {
    let tag = r#"yaml:"connectTimeout" json:"connectTimeout,omitempty""#;
    let (name, opts) = parse_tag_value(tag, "yaml").unwrap();
    assert_eq!(name, "connectTimeout");
    assert!(opts.is_empty());

    let (name, opts) = parse_tag_value(tag, "json").unwrap();
    assert_eq!(name, "connectTimeout");
    assert_eq!(opts, vec!["omitempty"]);
}

#[test]
fn test_extracts_all_structs() {
    let source = r#"
type UnvalidatedIngressRule struct {
    Hostname      string              `json:"hostname,omitempty"`
    Service       string              `json:"service,omitempty"`
}

type Configuration struct {
    TunnelID      string `yaml:"tunnel"`
    Ingress       []UnvalidatedIngressRule
    sourceFile    string
}
"#;
    let structs = extract_structs(source);
    assert_eq!(structs.len(), 2);
    assert_eq!(structs[0].name, "UnvalidatedIngressRule");
    assert_eq!(structs[0].fields.len(), 2);
    assert_eq!(structs[1].name, "CloudflaredConfig");
    // sourceFile is unexported, should be skipped
    assert_eq!(structs[1].fields.len(), 2);
}

#[test]
fn generated_structs_exist_and_default() {
    // Verify that all expected types exist
    let _config = CloudflaredConfig::default();
    let _origin = OriginRequestConfig::default();
    let _warp = WarpRoutingConfig::default();
    let _access = AccessConfig::default();
    let _ip_rule = IngressIPRule::default();
    let _ingress = UnvalidatedIngressRule::default();
}

#[test]
fn default_ingress_rule_is_empty() {
    let rule = UnvalidatedIngressRule::default();
    assert!(rule.hostname.is_empty());
    assert!(rule.service.is_empty());
    assert!(rule.origin_request.ip_rules.is_empty());
    assert!(rule.origin_request.access.is_none());
    let file = CloudflaredConfigFile {
        tunnel: "test-id".to_string(),
        credentials_file: "/creds.json".to_string(),
        ingress: vec![UnvalidatedIngressRule {
            hostname: "app.example.com".to_string(),
            service: "http://app:80".to_string(),
            ..Default::default()
        }],
    };
    assert_eq!(file.ingress[0].hostname, "app.example.com");
    assert!(file.ingress[0].path.is_empty());
}

#[test]
fn snake_case_keeps_lowercase_names() {
    // A name without uppercase letters is unchanged.
    assert_eq!(go_name_to_snake_case("tunnel_id"), "tunnel_id");
    assert_eq!(go_name_to_snake_case(""), "");
    assert_eq!(go_name_to_snake_case("X"), "x");
    assert_eq!(go_name_to_snake_case("ID"), "id");
}

#[test]
fn struct_header_edge_cases() {
    assert_eq!(parse_struct_header("   type Foo struct{"), None);
    assert_eq!(parse_struct_header("type Foo struct"), Some("Foo".to_string()));
    assert_eq!(parse_struct_header("type Foo interface {"), None);
    assert_eq!(parse_struct_header("\ttype  Bar   struct {  "), Some("Bar".to_string()));
    assert_eq!(parse_struct_header("typeFoo struct {"), None);
}

#[test]
fn tag_value_edge_cases() {
    assert_eq!(parse_tag_value(r#"json:"name""#, "yaml"), None);
    assert_eq!(parse_tag_value(r#"json:"name"#, "json"), None);
    let (name, opts) = parse_tag_value(r#"json:",omitempty,inline""#, "json").unwrap();
    assert_eq!(name, "");
    assert_eq!(opts, vec!["omitempty", "inline"]);
}

#[test]
fn tag_value_roundtrip_example() {
    let (name, opts) = parse_tag_value(r#"yaml:"warp-routing,flow,omitempty""#, "yaml").unwrap();
    assert_eq!(name, "warp-routing");
    assert_eq!(opts, vec!["flow", "omitempty"]);
}

#[test]
fn go_types_map_to_rust_types() {
    assert_eq!(map_go_type("string"), (RustType::Scalar(BaseType::Str), false, false, false, true));
    assert_eq!(map_go_type("bool"), (RustType::Scalar(BaseType::Bool), false, false, true, false));
    assert_eq!(map_go_type(" int "), (RustType::Scalar(BaseType::Int), false, false, false, false));
    assert_eq!(map_go_type("uint"), (RustType::Scalar(BaseType::Uint), false, false, false, false));
    assert_eq!(map_go_type("*string"), (RustType::Optional(BaseType::Str), true, false, false, false));
    assert_eq!(map_go_type("*CustomDuration"), (RustType::Optional(BaseType::Str), true, false, false, false));
    assert_eq!(
        map_go_type("*AccessConfig"),
        (RustType::OptionalBoxed("AccessConfig".to_string()), true, false, false, false)
    );
    assert_eq!(map_go_type("[]string"), (RustType::List(BaseType::Str), false, true, false, false));
    assert_eq!(map_go_type("[]int"), (RustType::List(BaseType::Int), false, true, false, false));
    assert_eq!(
        map_go_type("[]bool"),
        (RustType::ListOf("bool".to_string()), false, true, false, false)
    );
    assert_eq!(
        map_go_type("[]IngressIPRule"),
        (RustType::ListOf("IngressIPRule".to_string()), false, true, false, false)
    );
    assert_eq!(
        map_go_type("OriginRequestConfig"),
        (RustType::Struct("OriginRequestConfig".to_string()), false, false, false, false)
    );
}

#[test]
fn field_lines_become_fields() {
    let f = parse_field_line(
        r#"	ConnectTimeout *CustomDuration `yaml:"connectTimeout" json:"connectTimeout,omitempty"`"#,
    )
    .unwrap();
    assert_eq!(f.name, "connect_timeout");
    assert_eq!(f.rust_type, RustType::Optional(BaseType::Str));
    assert_eq!(f.serde_rename.as_deref(), Some("connectTimeout"));
    assert_eq!(f.skip_serializing_if.as_deref(), Some("Option::is_none"));
    assert!(!f.serde_default);

    let f = parse_field_line(r#"Hostname string `json:"hostname,omitempty"`"#).unwrap();
    assert_eq!(f.name, "hostname");
    assert_eq!(f.serde_rename, None);
    assert_eq!(f.skip_serializing_if.as_deref(), Some("String::is_empty"));
    assert!(f.serde_default);

    let f = parse_field_line("Ingress       []UnvalidatedIngressRule").unwrap();
    assert_eq!(f.name, "ingress");
    assert_eq!(f.rust_type, RustType::ListOf("UnvalidatedIngressRule".to_string()));
    assert_eq!(f.skip_serializing_if, None);
    assert!(f.serde_default);

    let f = parse_field_line(r#"Required bool `yaml:"required" json:"required,omitempty"`"#).unwrap();
    assert_eq!(f.name, "required");
    assert_eq!(f.serde_rename, None);
    assert_eq!(f.skip_serializing_if, None);
    assert!(f.serde_default);

    let f = parse_field_line(r#"IPRules []IngressIPRule `yaml:"ipRules" json:"ipRules,omitempty"`"#).unwrap();
    assert_eq!(f.skip_serializing_if.as_deref(), Some("Vec::is_empty"));
    assert_eq!(f.serde_rename.as_deref(), Some("ipRules"));

    let f = parse_field_line(r#"WarpRouting WarpRoutingConfig `yaml:"warp-routing" json:"warp-routing"`"#).unwrap();
    assert_eq!(f.name, "warp_routing");
    assert_eq!(f.serde_rename.as_deref(), Some("warp-routing"));
    assert!(!f.serde_default);

    assert!(parse_field_line("sourceFile    string").is_none());
    assert!(parse_field_line("// a comment").is_none());
    assert!(parse_field_line("   ").is_none());
    assert!(parse_field_line("Lonely").is_none());
}

#[test]
fn structs_skip_unexported_and_comments() {
    let source = "type hidden struct {\n    A string\n}\n\ntype Shown struct {\r\n    // comment\r\n\r\n    A string `json:\"a\"`\r\n    b string\r\n}\n";
    let structs = extract_structs(source);
    assert_eq!(structs.len(), 1);
    assert_eq!(structs[0].name, "Shown");
    assert_eq!(structs[0].fields.len(), 1);
    assert_eq!(structs[0].fields[0].name, "a");
    assert_eq!(structs[0].fields[0].serde_rename, None);
}

#[test]
fn unterminated_struct_takes_the_rest() {
    let source = "type Open struct {\n  A int\n  B uint";
    let structs = extract_structs(source);
    assert_eq!(structs.len(), 1);
    assert_eq!(structs[0].fields.len(), 2);
    assert_eq!(structs[0].fields[1].rust_type, RustType::Scalar(BaseType::Uint));
}

#[test]
fn text_windows_follow_std() {
    let s = "  alpha beta\tgamma  \n\nline3\r\nlast\r";
    let cs = chars_of(s);
    let std_lines: Vec<&str> = s.lines().collect();
    let ours: Vec<String> = lines_window(&cs, 0, cs.len())
        .iter()
        .map(|w| cs[w.0..w.1].iter().collect())
        .collect();
    assert_eq!(ours, std_lines);
    let std_words: Vec<&str> = s.split_whitespace().collect();
    let ours: Vec<String> = words_window(&cs, 0, cs.len())
        .iter()
        .map(|w| cs[w.0..w.1].iter().collect())
        .collect();
    assert_eq!(ours, std_words);
    let (a, b) = trim_window(&cs, 0, cs.len());
    assert_eq!(cs[a..b].iter().collect::<String>(), s.trim());
    let csv = chars_of("a,,b,");
    let ours: Vec<String> = split_window(&csv, 0, csv.len(), ',')
        .iter()
        .map(|w| csv[w.0..w.1].iter().collect())
        .collect();
    assert_eq!(ours, "a,,b,".split(',').collect::<Vec<_>>());
}

#[test]
fn tag_entry_is_found_between_other_entries() {
    let tag = r#"json:"a,omitempty" yaml:"connectTimeout,omitempty,flow" toml:"x""#;
    let (name, opts) = parse_tag_value(tag, "yaml").unwrap();
    assert_eq!(name, "connectTimeout");
    assert_eq!(opts, vec!["omitempty".to_string(), "flow".to_string()]);
}

#[test]
fn snake_case_twice_is_snake_case_once() {
    for name in ["HTTPHostHeader", "NoTLSVerify", "ip_rules", "TunnelID", "Http2Origin"] {
        let once = go_name_to_snake_case(name);
        assert_eq!(go_name_to_snake_case(&once), once);
    }
}

#[test]
fn structs_of_joined_sources_are_concatenated() {
    let a = "type A struct {\n    X string\n}";
    let b = "type B struct {\n    Y bool\n}\ntype Configuration struct {\n}";
    let joined = format!("{a}\n{b}");
    let all = extract_structs(&joined);
    let mut parts = extract_structs(a);
    parts.extend(extract_structs(b));
    assert_eq!(all.len(), 3);
    assert_eq!(all.len(), parts.len());
    for (x, y) in all.iter().zip(parts.iter()) {
        assert_eq!(x.name, y.name);
        assert_eq!(x.fields.len(), y.fields.len());
    }
}
