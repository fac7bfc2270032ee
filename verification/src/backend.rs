//! Trusted declarations of the telemetry-backend collaborators.
//!
//! Everything downstream of "build an exporter for protocol X pointed at
//! endpoint Y" is delegated to the OpenTelemetry and tracing crates. Each
//! wrapper here holds exactly one such call; its contract is what the rest
//! of the library relies on.

use std::io::Write;

use opentelemetry::trace::TracerProvider;
use opentelemetry_otlp::WithExportConfig;
use opentelemetry_sdk::logs::SdkLoggerProvider;
use opentelemetry_sdk::trace::SdkTracerProvider;
use opentelemetry_sdk::Resource;
use tracing_subscriber::layer::SubscriberExt;
use tracing_subscriber::EnvFilter;

use vstd::prelude::*;

verus! {

#[verifier::external_type_specification]
#[verifier::external_body]
pub struct ExSpanExporter(opentelemetry_otlp::SpanExporter);

#[verifier::external_type_specification]
#[verifier::external_body]
pub struct ExLogExporter(opentelemetry_otlp::LogExporter);

#[verifier::external_type_specification]
#[verifier::external_body]
pub struct ExSdkTracerProvider(SdkTracerProvider);

#[verifier::external_type_specification]
#[verifier::external_body]
pub struct ExSdkLoggerProvider(SdkLoggerProvider);

#[verifier::external_type_specification]
#[verifier::external_body]
pub struct ExResource(Resource);

#[verifier::external_type_specification]
#[verifier::external_body]
pub struct ExEnvFilter(EnvFilter);

/// Relies on `opentelemetry_otlp::SpanExporter::builder` with the tonic
/// transport: builds a gRPC span exporter for the endpoint and timeout.
#[verifier::external_body]
pub(crate) fn build_span_exporter_grpc(endpoint: &str, timeout_millis: u64) -> (r: Result<
    opentelemetry_otlp::SpanExporter,
    String,
>) {
    let built = opentelemetry_otlp::SpanExporter::builder()
        .with_tonic()
        .with_endpoint(endpoint)
        .with_timeout(core::time::Duration::from_millis(timeout_millis))
        .build();
    match built {
        Ok(e) => Ok(e),
        Err(e) => Err(format!("{e}")),
    }
}

/// Relies on `opentelemetry_otlp::SpanExporter::builder` with the HTTP
/// transport: builds an HTTP span exporter for the endpoint and timeout.
#[verifier::external_body]
pub(crate) fn build_span_exporter_http(endpoint: &str, timeout_millis: u64) -> (r: Result<
    opentelemetry_otlp::SpanExporter,
    String,
>) {
    let built = opentelemetry_otlp::SpanExporter::builder()
        .with_http()
        .with_endpoint(endpoint)
        .with_timeout(core::time::Duration::from_millis(timeout_millis))
        .build();
    match built {
        Ok(e) => Ok(e),
        Err(e) => Err(format!("{e}")),
    }
}

/// Relies on `opentelemetry_otlp::LogExporter::builder` with the tonic
/// transport: builds a gRPC log exporter for the endpoint and timeout.
#[verifier::external_body]
pub(crate) fn build_log_exporter_grpc(endpoint: &str, timeout_millis: u64) -> (r: Result<
    opentelemetry_otlp::LogExporter,
    String,
>) {
    let built = opentelemetry_otlp::LogExporter::builder()
        .with_tonic()
        .with_endpoint(endpoint)
        .with_timeout(core::time::Duration::from_millis(timeout_millis))
        .build();
    match built {
        Ok(e) => Ok(e),
        Err(e) => Err(format!("{e}")),
    }
}

/// Relies on `opentelemetry_otlp::LogExporter::builder` with the HTTP
/// transport: builds an HTTP log exporter for the endpoint and timeout.
#[verifier::external_body]
pub(crate) fn build_log_exporter_http(endpoint: &str, timeout_millis: u64) -> (r: Result<
    opentelemetry_otlp::LogExporter,
    String,
>) {
    let built = opentelemetry_otlp::LogExporter::builder()
        .with_http()
        .with_endpoint(endpoint)
        .with_timeout(core::time::Duration::from_millis(timeout_millis))
        .build();
    match built {
        Ok(e) => Ok(e),
        Err(e) => Err(format!("{e}")),
    }
}

/// Relies on `opentelemetry_sdk::trace::SdkTracerProvider::builder`: builds
/// a provider that batches through the given exporter under the resource.
#[verifier::external_body]
pub(crate) fn new_tracer_provider(
    resource: &Resource,
    exporter: opentelemetry_otlp::SpanExporter,
) -> (r: SdkTracerProvider) {
    SdkTracerProvider::builder()
        .with_resource(resource.clone())
        .with_batch_exporter(exporter)
        .build()
}

/// Relies on `opentelemetry_sdk::logs::SdkLoggerProvider::builder`: builds
/// a provider that batches through the given exporter under the resource.
#[verifier::external_body]
pub(crate) fn new_logger_provider(
    resource: &Resource,
    exporter: opentelemetry_otlp::LogExporter,
) -> (r: SdkLoggerProvider) {
    SdkLoggerProvider::builder()
        .with_resource(resource.clone())
        .with_batch_exporter(exporter)
        .build()
}

/// Relies on `opentelemetry::global::set_tracer_provider`: registers the
/// provider process-wide so auto-instrumentation and propagation work.
#[verifier::external_body]
pub(crate) fn register_tracer_provider(provider: &SdkTracerProvider) {
    opentelemetry::global::set_tracer_provider(provider.clone());
}

/// Relies on `opentelemetry::global::set_text_map_propagator`: installs W3C
/// trace-context propagation for distributed tracing.
#[verifier::external_body]
pub(crate) fn install_trace_context_propagator() {
    opentelemetry::global::set_text_map_propagator(
        opentelemetry_sdk::propagation::TraceContextPropagator::new(),
    );
}

/// Relies on `opentelemetry_sdk::Resource::builder`: turns the given
/// (key, value) pairs, in order, into a resource descriptor.
#[verifier::external_body]
pub(crate) fn resource_from_pairs(pairs: &Vec<(String, String)>) -> (r: Resource) {
    let mut kvs: Vec<opentelemetry::KeyValue> = Vec::with_capacity(pairs.len());
    for p in pairs.iter() {
        kvs.push(opentelemetry::KeyValue::new(p.0.clone(), p.1.clone()));
    }
    Resource::builder().with_attributes(kvs).build()
}

/// Relies on `tracing_subscriber::EnvFilter::try_from_default_env`: the
/// filter configured by the log-level environment variable, if it parses.
#[verifier::external_body]
pub(crate) fn try_env_filter() -> (r: Option<EnvFilter>) {
    EnvFilter::try_from_default_env().ok()
}

/// Relies on `tracing_subscriber::EnvFilter::new`: a filter built from the
/// given directives.
#[verifier::external_body]
pub(crate) fn new_env_filter(directives: &str) -> (r: EnvFilter) {
    EnvFilter::new(directives)
}

/// Relies on `tracing::subscriber::set_global_default`: composes the filter,
/// a formatted stdout layer, and the optional trace and log bridges, and
/// installs them process-wide; fails when a default is already installed.
#[verifier::external_body]
pub(crate) fn install_subscriber(
    filter: EnvFilter,
    tracer_provider: Option<&SdkTracerProvider>,
    logger_provider: Option<&SdkLoggerProvider>,
    scope: &str,
) -> (r: Result<(), String>) {
    let trace_layer = match tracer_provider {
        Some(tp) => Some(tracing_opentelemetry::layer().with_tracer(TracerProvider::tracer(tp, scope.to_owned()))),
        None => None,
    };
    let log_layer = match logger_provider {
        Some(lp) => Some(opentelemetry_appender_tracing::layer::OpenTelemetryTracingBridge::new(lp)),
        None => None,
    };
    let subscriber = tracing_subscriber::registry().with(filter).with(
        tracing_subscriber::fmt::layer().with_target(true),
    ).with(trace_layer).with(log_layer);
    match tracing::subscriber::set_global_default(subscriber) {
        Ok(()) => Ok(()),
        Err(e) => Err(format!("{e}")),
    }
}

/// Relies on `opentelemetry_sdk::trace::SdkTracerProvider::force_flush`:
/// exports all spans that are still buffered, reporting failure in its
/// result rather than panicking.
#[verifier::external_body]
pub(crate) fn tracer_force_flush(provider: &SdkTracerProvider) -> (r: Result<(), String>)
    opens_invariants none
    no_unwind
{
    match provider.force_flush() {
        Ok(()) => Ok(()),
        Err(e) => Err(format!("{e}")),
    }
}

/// Relies on `opentelemetry_sdk::trace::SdkTracerProvider::shutdown`: stops
/// the provider's processors, reporting failure in its result rather than
/// panicking.
#[verifier::external_body]
pub(crate) fn tracer_shutdown(provider: &SdkTracerProvider) -> (r: Result<(), String>)
    opens_invariants none
    no_unwind
{
    match provider.shutdown() {
        Ok(()) => Ok(()),
        Err(e) => Err(format!("{e}")),
    }
}

/// Relies on `opentelemetry_sdk::logs::SdkLoggerProvider::force_flush`:
/// exports all log records that are still buffered, reporting failure in
/// its result rather than panicking.
#[verifier::external_body]
pub(crate) fn logger_force_flush(provider: &SdkLoggerProvider) -> (r: Result<(), String>)
    opens_invariants none
    no_unwind
{
    match provider.force_flush() {
        Ok(()) => Ok(()),
        Err(e) => Err(format!("{e}")),
    }
}

/// Relies on `opentelemetry_sdk::logs::SdkLoggerProvider::shutdown`: stops
/// the provider's processors, reporting failure in its result rather than
/// panicking.
#[verifier::external_body]
pub(crate) fn logger_shutdown(provider: &SdkLoggerProvider) -> (r: Result<(), String>)
    opens_invariants none
    no_unwind
{
    match provider.shutdown() {
        Ok(()) => Ok(()),
        Err(e) => Err(format!("{e}")),
    }
}

/// Relies on `std::io::Stderr::write_fmt`: reports a shutdown-step failure
/// to the process error stream, the diagnostic sink for such errors.
#[verifier::external_body]
pub(crate) fn write_diagnostic(step: &str, detail: &String)
    opens_invariants none
    no_unwind
{
    let _ = writeln!(std::io::stderr(), "raccoon-otel: error {step}: {detail}");
}

} // verus!
