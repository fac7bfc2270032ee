// The one test that really builds exporters, installs the process-wide
// subscriber, and runs the full shutdown sequence. It stands alone in this
// file because a process can install a global subscriber only once.

use raccoon_otel::{
    setup_otel, Capabilities, EnvVars, OtelOptions, Pipelines, Protocol, SetupError, StrMap,
};

#[test]
fn setup_over_http_returns_a_live_guard() {
    let opts = OtelOptions::builder()
        .endpoint("http://localhost:4318".to_string())
        .protocol(Protocol::HttpProtobuf)
        .headers(StrMap::from_pairs(vec![(
            "Authorization".to_string(),
            "Bearer token123".to_string(),
        )]))
        .export_timeout(200)
        .build();
    let caps = Capabilities { grpc: false, http: true };
    let pipelines = Pipelines { traces: true, logs: true };

    let mut guard = setup_otel("test-service", Some(opts), &EnvVars::empty(), &caps, &pipelines)
        .expect("setup should succeed with the http capability");

    assert!(guard.has_tracer_provider());
    assert!(guard.has_logger_provider());
    assert!(!guard.has_shut_down());

    guard.shutdown();
    assert!(guard.has_shut_down());
    assert_eq!(guard.shutdown_runs(), 1);

    guard.shutdown();
    assert_eq!(guard.shutdown_runs(), 1);

    // A second setup in the same process must fail at subscriber
    // registration: the global default is already installed.
    let again = setup_otel(
        "test-service",
        None,
        &EnvVars::empty(),
        &Capabilities { grpc: false, http: true },
        &Pipelines { traces: true, logs: true },
    );
    assert!(matches!(
        again,
        Err(SetupError::SubscriberAlreadyInstalled { .. })
    ));
}
