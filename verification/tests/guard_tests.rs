use opentelemetry_sdk::logs::SdkLoggerProvider;
use opentelemetry_sdk::trace::SdkTracerProvider;

use raccoon_otel::OtelGuard;

#[test]
fn shutdown_runs_the_sequence_exactly_once() {
    let mut guard = OtelGuard::new(None::<SdkTracerProvider>, None::<SdkLoggerProvider>);
    assert!(!guard.has_shut_down());
    assert_eq!(guard.shutdown_runs(), 0);

    guard.shutdown();
    assert!(guard.has_shut_down());
    assert_eq!(guard.shutdown_runs(), 1);

    guard.shutdown();
    assert!(guard.has_shut_down());
    assert_eq!(guard.shutdown_runs(), 1);

    guard.shutdown();
    assert_eq!(guard.shutdown_runs(), 1);
}

#[test]
fn guard_without_providers_drops_cleanly() {
    let guard = OtelGuard::new(None::<SdkTracerProvider>, None::<SdkLoggerProvider>);
    assert!(!guard.has_tracer_provider());
    assert!(!guard.has_logger_provider());
    drop(guard);
}

#[test]
fn explicit_shutdown_then_scope_exit_is_safe() {
    let mut guard = OtelGuard::new(None::<SdkTracerProvider>, None::<SdkLoggerProvider>);
    guard.shutdown();
    assert_eq!(guard.shutdown_runs(), 1);
    // Dropping after an explicit shutdown must not run the sequence again.
    drop(guard);
}
