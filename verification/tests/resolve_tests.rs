use raccoon_otel::{
    parse_headers_env, parse_protocol_env, parse_timeout_env, resolve_config, EnvVars,
    OtelOptions, Protocol, StrMap,
};

fn pairs(list: &[(&str, &str)]) -> StrMap {
    StrMap::from_pairs(
        list.iter()
            .map(|(k, v)| (k.to_string(), v.to_string()))
            .collect(),
    )
}

#[test]
fn resolve_defaults_with_no_options_or_env() {
    let opts = OtelOptions::default();
    let env = EnvVars::empty();

    let resolved = resolve_config("test-service", &opts, &env);

    assert_eq!(resolved.service_name, "test-service");
    assert_eq!(resolved.endpoint, "http://localhost:4318");
    assert_eq!(resolved.protocol, Protocol::HttpProtobuf);
    assert!(resolved.headers.is_empty());
    assert!(resolved.resource_attributes.is_empty());
    assert_eq!(resolved.export_timeout, 30000);
}

#[test]
fn programmatic_options_take_precedence() {
    let mut env = EnvVars::empty();
    env.endpoint = Some("http://env:4317".to_string());

    let opts = OtelOptions::builder()
        .endpoint("http://programmatic:4317".to_string())
        .protocol(Protocol::HttpProtobuf)
        .export_timeout(60000)
        .build();

    let resolved = resolve_config("test-service", &opts, &env);

    assert_eq!(resolved.endpoint, "http://programmatic:4317");
    assert_eq!(resolved.protocol, Protocol::HttpProtobuf);
    assert_eq!(resolved.export_timeout, 60000);
}

#[test]
fn parse_headers_from_env() {
    let headers = parse_headers_env(&Some("key1=val1,key2=val2".to_string()));

    assert_eq!(headers.get("key1"), Some(&"val1".to_string()));
    assert_eq!(headers.get("key2"), Some(&"val2".to_string()));
}

#[test]
fn http_protocol_uses_port_4318_default() {
    let opts = OtelOptions::builder().protocol(Protocol::HttpProtobuf).build();

    let resolved = resolve_config("test-service", &opts, &EnvVars::empty());

    assert_eq!(resolved.endpoint, "http://localhost:4318");
}

#[test]
fn environment_values_used_when_options_unset() {
    let mut env = EnvVars::empty();
    env.service_name = Some("env-service".to_string());
    env.endpoint = Some("http://env:4317".to_string());
    env.protocol = Some("grpc".to_string());
    env.timeout = Some("250".to_string());

    let resolved = resolve_config("test-service", &OtelOptions::default(), &env);

    assert_eq!(resolved.service_name, "env-service");
    assert_eq!(resolved.endpoint, "http://env:4317");
    assert_eq!(resolved.protocol, Protocol::Grpc);
    assert_eq!(resolved.export_timeout, 250);
}

#[test]
fn empty_environment_values_count_as_absent() {
    let mut env = EnvVars::empty();
    env.service_name = Some(String::new());
    env.endpoint = Some(String::new());
    env.protocol = Some(String::new());
    env.headers = Some(String::new());
    env.timeout = Some(String::new());

    let resolved = resolve_config("test-service", &OtelOptions::default(), &env);

    assert_eq!(resolved.service_name, "test-service");
    assert_eq!(resolved.endpoint, "http://localhost:4318");
    assert_eq!(resolved.protocol, Protocol::HttpProtobuf);
    assert!(resolved.headers.is_empty());
    assert_eq!(resolved.export_timeout, 30000);
}

#[test]
fn malformed_environment_values_fall_through_to_defaults() {
    let mut env = EnvVars::empty();
    env.protocol = Some("carrier-pigeon".to_string());
    env.timeout = Some("12abc".to_string());

    let resolved = resolve_config("test-service", &OtelOptions::default(), &env);

    assert_eq!(resolved.protocol, Protocol::HttpProtobuf);
    assert_eq!(resolved.export_timeout, 30000);
    assert_eq!(resolved.endpoint, "http://localhost:4318");
}

#[test]
fn endpoint_default_follows_resolved_protocol() {
    // The protocol comes from the environment tier, yet the endpoint default
    // must still be the gRPC one: default selection uses the resolved value.
    let mut env = EnvVars::empty();
    env.protocol = Some("grpc".to_string());

    let resolved = resolve_config("test-service", &OtelOptions::default(), &env);

    assert_eq!(resolved.protocol, Protocol::Grpc);
    assert_eq!(resolved.endpoint, "http://localhost:4317");
}

#[test]
fn grpc_option_uses_port_4317_default() {
    let opts = OtelOptions::builder().protocol(Protocol::Grpc).build();

    let resolved = resolve_config("test-service", &opts, &EnvVars::empty());

    assert_eq!(resolved.endpoint, "http://localhost:4317");
}

#[test]
fn header_merge_is_additive() {
    let mut env = EnvVars::empty();
    env.headers = Some("a=1,b=2".to_string());

    let opts = OtelOptions::builder()
        .headers(pairs(&[("b", "9"), ("c", "3")]))
        .build();

    let resolved = resolve_config("test-service", &opts, &env);

    assert_eq!(resolved.headers.len(), 3);
    assert_eq!(resolved.headers.get("a"), Some(&"1".to_string()));
    assert_eq!(resolved.headers.get("b"), Some(&"9".to_string()));
    assert_eq!(resolved.headers.get("c"), Some(&"3".to_string()));
}

#[test]
fn malformed_header_pairs_contribute_nothing() {
    let headers = parse_headers_env(&Some("key1=val1,badpair,key2=val2".to_string()));

    assert_eq!(headers.len(), 2);
    assert_eq!(headers.get("key1"), Some(&"val1".to_string()));
    assert_eq!(headers.get("key2"), Some(&"val2".to_string()));
    assert_eq!(headers.get("badpair"), None);
}

#[test]
fn header_keys_and_values_are_trimmed() {
    let headers = parse_headers_env(&Some(" key1 = val1 , key2= val2".to_string()));

    assert_eq!(headers.len(), 2);
    assert_eq!(headers.get("key1"), Some(&"val1".to_string()));
    assert_eq!(headers.get("key2"), Some(&"val2".to_string()));
}

#[test]
fn header_pair_with_empty_key_is_dropped() {
    let headers = parse_headers_env(&Some("=value,  =other,k=v".to_string()));

    assert_eq!(headers.len(), 1);
    assert_eq!(headers.get("k"), Some(&"v".to_string()));
}

#[test]
fn header_value_keeps_later_equals_signs() {
    let headers = parse_headers_env(&Some("k=a=b".to_string()));

    assert_eq!(headers.get("k"), Some(&"a=b".to_string()));
}

#[test]
fn repeated_header_key_takes_last_value() {
    let headers = parse_headers_env(&Some("k=1,k=2".to_string()));

    assert_eq!(headers.len(), 1);
    assert_eq!(headers.get("k"), Some(&"2".to_string()));
}

#[test]
fn protocol_literals_parse_exactly() {
    assert_eq!(
        parse_protocol_env(&Some("grpc".to_string())),
        Some(Protocol::Grpc)
    );
    assert_eq!(
        parse_protocol_env(&Some("http/protobuf".to_string())),
        Some(Protocol::HttpProtobuf)
    );
    assert_eq!(
        parse_protocol_env(&Some("http/json".to_string())),
        Some(Protocol::HttpJson)
    );
    assert_eq!(parse_protocol_env(&Some("GRPC".to_string())), None);
    assert_eq!(parse_protocol_env(&Some(String::new())), None);
    assert_eq!(parse_protocol_env(&None), None);
}

#[test]
fn timeout_parses_like_an_unsigned_integer() {
    assert_eq!(parse_timeout_env(&Some("1500".to_string())), Some(1500));
    assert_eq!(parse_timeout_env(&Some("+30".to_string())), Some(30));
    assert_eq!(parse_timeout_env(&Some("0".to_string())), Some(0));
    assert_eq!(
        parse_timeout_env(&Some("18446744073709551615".to_string())),
        Some(u64::MAX)
    );
    assert_eq!(
        parse_timeout_env(&Some("18446744073709551616".to_string())),
        None
    );
    assert_eq!(parse_timeout_env(&Some("-5".to_string())), None);
    assert_eq!(parse_timeout_env(&Some("1.5".to_string())), None);
    assert_eq!(parse_timeout_env(&Some(String::new())), None);
    assert_eq!(parse_timeout_env(&None), None);
}

#[test]
fn resource_attributes_come_from_options_only() {
    let opts = OtelOptions::builder()
        .resource_attributes(pairs(&[("deployment.environment", "production")]))
        .build();

    let resolved = resolve_config("test-service", &opts, &EnvVars::empty());

    assert_eq!(resolved.resource_attributes.len(), 1);
    assert_eq!(
        resolved.resource_attributes.get("deployment.environment"),
        Some(&"production".to_string())
    );
}
