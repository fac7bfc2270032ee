use raccoon_otel::{
    resource_pairs, setup_otel, trace_endpoint_for, Capabilities, EnvVars, OtelOptions,
    Pipelines, Protocol, SetupError, StrMap,
};

#[test]
fn missing_grpc_capability_fails_setup_with_a_named_error() {
    let opts = OtelOptions::builder().protocol(Protocol::Grpc).build();
    let caps = Capabilities { grpc: false, http: true };
    let pipelines = Pipelines { traces: true, logs: true };

    let result = setup_otel("test-service", Some(opts), &EnvVars::empty(), &caps, &pipelines);

    match result {
        Err(SetupError::CapabilityUnavailable { protocol }) => {
            assert_eq!(protocol, Protocol::Grpc);
        }
        Err(_) => panic!("wrong error kind"),
        Ok(_) => panic!("setup must not return a guard"),
    }
}

#[test]
fn missing_http_capability_fails_setup() {
    let caps = Capabilities { grpc: true, http: false };
    let pipelines = Pipelines { traces: true, logs: true };

    // No options and no environment: the resolved protocol is HTTP+Protobuf.
    let result = setup_otel("test-service", None, &EnvVars::empty(), &caps, &pipelines);

    match result {
        Err(SetupError::CapabilityUnavailable { protocol }) => {
            assert_eq!(protocol, Protocol::HttpProtobuf);
        }
        Err(_) => panic!("wrong error kind"),
        Ok(_) => panic!("setup must not return a guard"),
    }
}

#[test]
fn unparseable_endpoint_fails_exporter_construction() {
    let opts = OtelOptions::builder()
        .endpoint("not a valid endpoint".to_string())
        .build();
    let caps = Capabilities { grpc: true, http: true };
    let pipelines = Pipelines { traces: true, logs: true };

    let result = setup_otel("test-service", Some(opts), &EnvVars::empty(), &caps, &pipelines);

    match result {
        Err(SetupError::ExporterConstructionFailed { pipeline, detail: _ }) => {
            assert_eq!(pipeline, raccoon_otel::PipelineKind::Traces);
        }
        Err(_) => panic!("wrong error kind"),
        Ok(_) => panic!("setup must not return a guard"),
    }
}

#[test]
fn capability_error_message_names_the_transport() {
    let e = SetupError::CapabilityUnavailable { protocol: Protocol::Grpc };
    assert_eq!(
        e.message(),
        "gRPC transport requested but the grpc capability is not available; enable the grpc transport"
    );

    let e = SetupError::CapabilityUnavailable { protocol: Protocol::HttpJson };
    assert_eq!(
        e.message(),
        "HTTP transport requested but the http capability is not available; enable the http transport"
    );
}

#[test]
fn failure_messages_carry_the_collaborator_detail() {
    let e = SetupError::ExporterConstructionFailed {
        pipeline: raccoon_otel::PipelineKind::Traces,
        detail: "bad endpoint".to_string(),
    };
    assert_eq!(
        e.message(),
        "failed to build the OTLP span exporter: bad endpoint"
    );

    let e = SetupError::SubscriberAlreadyInstalled { detail: "already set".to_string() };
    assert_eq!(
        e.message(),
        "failed to set the global subscriber: already set"
    );
}

#[test]
fn trace_endpoint_appends_the_fixed_path() {
    assert_eq!(
        trace_endpoint_for("http://localhost:4318"),
        "http://localhost:4318/v1/traces"
    );
    assert_eq!(
        trace_endpoint_for("http://localhost:4318/"),
        "http://localhost:4318/v1/traces"
    );
    assert_eq!(
        trace_endpoint_for("http://collector:4318///"),
        "http://collector:4318/v1/traces"
    );
}

#[test]
fn resource_pairs_put_the_service_name_first() {
    let attrs = StrMap::from_pairs(vec![
        ("deployment.environment".to_string(), "demo".to_string()),
        ("service.version".to_string(), "1.0.0".to_string()),
    ]);

    let kvs = resource_pairs("test-service", &attrs);

    assert_eq!(kvs.len(), 3);
    assert_eq!(kvs[0], ("service.name".to_string(), "test-service".to_string()));
    assert_eq!(
        kvs[1],
        ("deployment.environment".to_string(), "demo".to_string())
    );
    assert_eq!(kvs[2], ("service.version".to_string(), "1.0.0".to_string()));
}
