#![verifier::loop_isolation(false)]

//! Configuration merging and lifecycle management for an OpenTelemetry
//! export setup driven by the `tracing` ecosystem.
//!
//! One call to [`setup_otel`] resolves the configuration from three tiers
//! (programmatic options, environment variables, hard defaults), builds the
//! trace and log export pipelines, installs the process-wide subscriber,
//! and returns an [`OtelGuard`] whose drop flushes and shuts everything
//! down exactly once.

mod backend;
mod errors;
mod guard;
mod options;
mod pipeline;
mod resolve;
mod resource;
mod strmap;
mod strutil;
mod subscriber;

pub use errors::{PipelineKind, SetupError};
pub use guard::{guard_wf, lemma_shutdown_idempotent, shutdown_transition, GuardModel, OtelGuard};
pub use options::{OtelOptions, OtelOptionsBuilder, Protocol};
pub use pipeline::{trace_endpoint_for, transport_available, Capabilities};
pub use resolve::{
    parse_headers_env, parse_protocol_env, parse_timeout_env, resolve_config, EnvVars,
    ResolvedConfig, DEFAULT_EXPORT_TIMEOUT_MILLIS,
};
pub use resource::resource_pairs;
pub use strmap::StrMap;

use vstd::prelude::*;

verus! {

/// Which export pipelines the running build enables, independently of the
/// transport capabilities.
#[derive(Debug, Clone, Copy, PartialEq, Eq, Structural)]
pub struct Pipelines {
    /// Whether the trace pipeline is built.
    pub traces: bool,
    /// Whether the log pipeline is built.
    pub logs: bool,
}

/// The protocol the caller requested, if any.
pub open spec fn requested_protocol(options: Option<OtelOptions>) -> Option<Protocol> {
    match options {
        Some(o) => o.protocol_spec(),
        None => None,
    }
}

/// Initialize telemetry export with the given service name and optional
/// configuration.
///
/// Resolves the configuration (programmatic over environment over default),
/// builds a resource descriptor, constructs the enabled pipelines, installs
/// the process-wide subscriber, and returns the guard owning the providers.
/// Every failure aborts the whole sequence: no guard is returned, and the
/// error names the stage. In particular, when a pipeline is enabled and the
/// resolved protocol's transport capability is missing, the result is
/// exactly `CapabilityUnavailable` for that protocol.
pub fn setup_otel(
    service_name: &str,
    options: Option<OtelOptions>,
    env: &resolve::EnvVars,
    caps: &Capabilities,
    pipelines: &Pipelines,
) -> (r: Result<OtelGuard, SetupError>)
    requires
        match options {
            Some(o) => o.wf(),
            None => true,
        },
    ensures
        ({
            let p = resolve::resolved_protocol(
                requested_protocol(options),
                options::opt_view(env.protocol),
            );
            match r {
                Ok(g) => guard_wf(g@) && !g@.shutdown_called && g@.runs == 0 && g@.has_tracer
                    == pipelines.traces && g@.has_logger == pipelines.logs && ((pipelines.traces
                    || pipelines.logs) ==> transport_available(*caps, p)),
                Err(e) => ((pipelines.traces || pipelines.logs) && !transport_available(*caps, p)
                    ==> (e matches SetupError::CapabilityUnavailable { protocol } && protocol == p))
                    && (e is CapabilityUnavailable ==> !transport_available(*caps, p))
                    && (e matches SetupError::ExporterConstructionFailed { pipeline, detail: _ }
                    ==> (pipeline == PipelineKind::Traces ==> pipelines.traces) && (pipeline
                    == PipelineKind::Logs ==> pipelines.logs)),
            }
        }),
{
    let opts = match options {
        Some(o) => o,
        None => OtelOptions::default(),
    };
    let resolved = resolve::resolve_config(service_name, &opts, env);

    backend::install_trace_context_propagator();

    let resource = resource::build_resource(
        resolved.service_name.as_str(),
        &resolved.resource_attributes,
    );

    let tracer_provider = if pipelines.traces {
        match pipeline::build_tracer_provider(&resource, &resolved, caps) {
            Ok(tp) => Some(tp),
            Err(e) => {
                return Err(e);
            },
        }
    } else {
        None
    };

    let logger_provider = if pipelines.logs {
        match pipeline::build_logger_provider(&resource, &resolved, caps) {
            Ok(lp) => Some(lp),
            Err(e) => {
                return Err(e);
            },
        }
    } else {
        None
    };

    match subscriber::compose_subscriber(tracer_provider.as_ref(), logger_provider.as_ref()) {
        Ok(_) => (),
        Err(e) => {
            return Err(e);
        },
    }

    Ok(OtelGuard::new(tracer_provider, logger_provider))
}

} // verus!
