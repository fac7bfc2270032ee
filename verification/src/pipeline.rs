//! Pipeline builders: turn a resolved configuration and a resource
//! descriptor into live provider handles, dispatching on the protocol and
//! checking that the required transport capability is available.

use vstd::prelude::*;
use vstd::string::*;

use opentelemetry_sdk::logs::SdkLoggerProvider;
use opentelemetry_sdk::trace::SdkTracerProvider;
use opentelemetry_sdk::Resource;

use crate::backend;
use crate::errors::{PipelineKind, SetupError};
use crate::options::Protocol;
use crate::resolve::ResolvedConfig;

verus! {

/// Which transport capabilities the running build provides.
#[derive(Debug, Clone, Copy, PartialEq, Eq, Structural)]
pub struct Capabilities {
    /// Whether a gRPC transport is available.
    pub grpc: bool,
    /// Whether an HTTP transport is available.
    pub http: bool,
}

/// Whether the capability that a protocol needs is available.
pub open spec fn transport_available(caps: Capabilities, p: Protocol) -> bool {
    match p {
        Protocol::Grpc => caps.grpc,
        Protocol::HttpProtobuf => caps.http,
        Protocol::HttpJson => caps.http,
    }
}

/// The sequence with every trailing slash removed.
pub open spec fn strip_trailing_slashes(s: Seq<char>) -> Seq<char>
    decreases s.len(),
{
    if s.len() > 0 && s.last() == '/' {
        strip_trailing_slashes(s.drop_last())
    } else {
        s
    }
}

/// The endpoint the trace pipeline ships to over HTTP: the configured
/// endpoint without trailing slashes, then the fixed `/v1/traces` path.
/// The log pipeline ships to the bare configured endpoint instead.
pub open spec fn trace_http_endpoint(base: Seq<char>) -> Seq<char> {
    strip_trailing_slashes(base) + "/v1/traces"@
}

proof fn lemma_strip_trailing_slashes(s: Seq<char>, k: int)
    requires
        0 <= k <= s.len(),
        forall|j: int| k <= j < s.len() ==> s[j] == '/',
        k == 0 || s[k - 1] != '/',
    ensures
        strip_trailing_slashes(s) == s.subrange(0, k),
    decreases s.len(),
{
    if k == s.len() {
        assert(s.subrange(0, s.len() as int) =~= s);
    } else {
        let t = s.drop_last();
        lemma_strip_trailing_slashes(t, k);
        assert(t.subrange(0, k) =~= s.subrange(0, k));
    }
}

/// The HTTP trace endpoint for a configured base endpoint.
pub fn trace_endpoint_for(base: &str) -> (r: String)
    ensures
        r@ == trace_http_endpoint(base@),
{
    let n = base.unicode_len();
    let mut b: usize = n;
    while b > 0 && base.get_char(b - 1) == '/'
        invariant
            b <= n,
            n == base@.len(),
            forall|j: int| b <= j < n ==> base@[j] == '/',
        decreases b,
    {
        b -= 1;
    }
    proof {
        lemma_strip_trailing_slashes(base@, b as int);
    }
    let stripped = base.substring_char(0, b);
    String::from_str(stripped).concat("/v1/traces")
}

/// Build the OTLP span exporter for the resolved configuration: gRPC needs
/// the grpc capability and ships to the bare endpoint; HTTP needs the http
/// capability and ships to the endpoint with the `/v1/traces` path appended.
pub fn build_span_exporter(config: &ResolvedConfig, caps: &Capabilities) -> (r: Result<
    opentelemetry_otlp::SpanExporter,
    SetupError,
>)
    ensures
        match r {
            Ok(_) => transport_available(*caps, config.protocol),
            Err(e) => if !transport_available(*caps, config.protocol) {
                e matches SetupError::CapabilityUnavailable { protocol } && protocol
                    == config.protocol
            } else {
                e matches SetupError::ExporterConstructionFailed { pipeline, detail: _ }
                    && pipeline == PipelineKind::Traces
            },
        },
{
    match config.protocol {
        Protocol::Grpc => {
            if !caps.grpc {
                return Err(SetupError::CapabilityUnavailable { protocol: Protocol::Grpc });
            }
            match backend::build_span_exporter_grpc(config.endpoint.as_str(), config.export_timeout) {
                Ok(e) => Ok(e),
                Err(detail) => Err(
                    SetupError::ExporterConstructionFailed {
                        pipeline: PipelineKind::Traces,
                        detail,
                    },
                ),
            }
        },
        Protocol::HttpProtobuf | Protocol::HttpJson => {
            if !caps.http {
                return Err(SetupError::CapabilityUnavailable { protocol: config.protocol });
            }
            let endpoint = trace_endpoint_for(config.endpoint.as_str());
            match backend::build_span_exporter_http(endpoint.as_str(), config.export_timeout) {
                Ok(e) => Ok(e),
                Err(detail) => Err(
                    SetupError::ExporterConstructionFailed {
                        pipeline: PipelineKind::Traces,
                        detail,
                    },
                ),
            }
        },
    }
}

/// Build the OTLP log exporter for the resolved configuration: the same
/// capability dispatch as the span exporter, shipping to the bare endpoint.
pub fn build_log_exporter(config: &ResolvedConfig, caps: &Capabilities) -> (r: Result<
    opentelemetry_otlp::LogExporter,
    SetupError,
>)
    ensures
        match r {
            Ok(_) => transport_available(*caps, config.protocol),
            Err(e) => if !transport_available(*caps, config.protocol) {
                e matches SetupError::CapabilityUnavailable { protocol } && protocol
                    == config.protocol
            } else {
                e matches SetupError::ExporterConstructionFailed { pipeline, detail: _ }
                    && pipeline == PipelineKind::Logs
            },
        },
{
    match config.protocol {
        Protocol::Grpc => {
            if !caps.grpc {
                return Err(SetupError::CapabilityUnavailable { protocol: Protocol::Grpc });
            }
            match backend::build_log_exporter_grpc(config.endpoint.as_str(), config.export_timeout) {
                Ok(e) => Ok(e),
                Err(detail) => Err(
                    SetupError::ExporterConstructionFailed { pipeline: PipelineKind::Logs, detail },
                ),
            }
        },
        Protocol::HttpProtobuf | Protocol::HttpJson => {
            if !caps.http {
                return Err(SetupError::CapabilityUnavailable { protocol: config.protocol });
            }
            match backend::build_log_exporter_http(config.endpoint.as_str(), config.export_timeout) {
                Ok(e) => Ok(e),
                Err(detail) => Err(
                    SetupError::ExporterConstructionFailed { pipeline: PipelineKind::Logs, detail },
                ),
            }
        },
    }
}

/// Build a tracer provider with an OTLP exporter and register it globally.
pub fn build_tracer_provider(
    resource: &Resource,
    config: &ResolvedConfig,
    caps: &Capabilities,
) -> (r: Result<SdkTracerProvider, SetupError>)
    ensures
        match r {
            Ok(_) => transport_available(*caps, config.protocol),
            Err(e) => if !transport_available(*caps, config.protocol) {
                e matches SetupError::CapabilityUnavailable { protocol } && protocol
                    == config.protocol
            } else {
                e matches SetupError::ExporterConstructionFailed { pipeline, detail: _ }
                    && pipeline == PipelineKind::Traces
            },
        },
{
    match build_span_exporter(config, caps) {
        Err(e) => Err(e),
        Ok(exporter) => {
            let provider = backend::new_tracer_provider(resource, exporter);
            backend::register_tracer_provider(&provider);
            Ok(provider)
        },
    }
}

/// Build a logger provider with an OTLP exporter.
pub fn build_logger_provider(
    resource: &Resource,
    config: &ResolvedConfig,
    caps: &Capabilities,
) -> (r: Result<SdkLoggerProvider, SetupError>)
    ensures
        match r {
            Ok(_) => transport_available(*caps, config.protocol),
            Err(e) => if !transport_available(*caps, config.protocol) {
                e matches SetupError::CapabilityUnavailable { protocol } && protocol
                    == config.protocol
            } else {
                e matches SetupError::ExporterConstructionFailed { pipeline, detail: _ }
                    && pipeline == PipelineKind::Logs
            },
        },
{
    match build_log_exporter(config, caps) {
        Err(e) => Err(e),
        Ok(exporter) => Ok(backend::new_logger_provider(resource, exporter)),
    }
}

} // verus!
