use raccoon_otel::{OtelOptions, Protocol, StrMap};

fn pairs(list: &[(&str, &str)]) -> StrMap {
    StrMap::from_pairs(
        list.iter()
            .map(|(k, v)| (k.to_string(), v.to_string()))
            .collect(),
    )
}

#[test]
fn builder_sets_each_field() {
    let opts = OtelOptions::builder()
        .endpoint("http://collector:4318".to_string())
        .protocol(Protocol::HttpJson)
        .headers(pairs(&[("Authorization", "Bearer token123")]))
        .resource_attributes(pairs(&[("deployment.environment", "production")]))
        .export_timeout(30000)
        .build();

    assert_eq!(opts.protocol_opt(), Some(Protocol::HttpJson));
    assert_eq!(opts.endpoint_opt(), Some(&"http://collector:4318".to_string()));
    assert_eq!(opts.timeout_opt(), Some(30000));
    assert_eq!(
        opts.headers_map().get("Authorization"),
        Some(&"Bearer token123".to_string())
    );
    assert_eq!(
        opts.attrs_map().get("deployment.environment"),
        Some(&"production".to_string())
    );
}

#[test]
fn default_options_request_nothing() {
    let opts = OtelOptions::default();
    assert_eq!(opts.protocol_opt(), None);
    assert_eq!(opts.endpoint_opt(), None);
    assert_eq!(opts.timeout_opt(), None);
    assert!(opts.headers_map().is_empty());
    assert!(opts.attrs_map().is_empty());
}

#[test]
fn later_headers_call_replaces_the_earlier_set() {
    let opts = OtelOptions::builder()
        .headers(pairs(&[("a", "1")]))
        .headers(pairs(&[("b", "2")]))
        .build();

    assert_eq!(opts.headers_map().get("a"), None);
    assert_eq!(opts.headers_map().get("b"), Some(&"2".to_string()));
}

#[test]
fn strmap_insert_replaces_and_get_finds() {
    let m = StrMap::new()
        .insert("k".to_string(), "1".to_string())
        .insert("other".to_string(), "x".to_string())
        .insert("k".to_string(), "2".to_string());

    assert_eq!(m.len(), 2);
    assert_eq!(m.get("k"), Some(&"2".to_string()));
    assert_eq!(m.get("other"), Some(&"x".to_string()));
    assert_eq!(m.get("missing"), None);
}

#[test]
fn strmap_from_pairs_keeps_the_last_duplicate() {
    let m = pairs(&[("k", "1"), ("k", "2"), ("j", "3")]);

    assert_eq!(m.len(), 2);
    assert_eq!(m.get("k"), Some(&"2".to_string()));
    assert_eq!(m.get("j"), Some(&"3".to_string()));
}

#[test]
fn strmap_extend_prefers_the_other_map() {
    let base = pairs(&[("a", "1"), ("b", "2")]);
    let over = pairs(&[("b", "9"), ("c", "3")]);

    let merged = base.extend(&over);

    assert_eq!(merged.len(), 3);
    assert_eq!(merged.get("a"), Some(&"1".to_string()));
    assert_eq!(merged.get("b"), Some(&"9".to_string()));
    assert_eq!(merged.get("c"), Some(&"3".to_string()));
}
