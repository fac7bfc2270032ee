//! Errors that abort the setup sequence. Shutdown-path failures never reach
//! the caller; they go to the diagnostic sink instead.

use vstd::prelude::*;
use vstd::string::*;

use crate::options::Protocol;

verus! {

/// Which export pipeline an error belongs to.
#[derive(Debug, Clone, Copy, PartialEq, Eq, Structural)]
pub enum PipelineKind {
    /// The trace pipeline.
    Traces,
    /// The log pipeline.
    Logs,
}

/// A failure that aborts `setup_otel`; no guard is returned on any of these.
#[derive(Debug)]
pub enum SetupError {
    /// The requested protocol's transport capability is not available.
    CapabilityUnavailable {
        /// The protocol whose transport is missing.
        protocol: Protocol,
    },
    /// The backend collaborator rejected the exporter configuration.
    ExporterConstructionFailed {
        /// Which pipeline was being built.
        pipeline: PipelineKind,
        /// The collaborator's own account of the failure.
        detail: String,
    },
    /// The process-wide subscriber could not be installed, most often
    /// because one is already registered.
    SubscriberAlreadyInstalled {
        /// The registry's own account of the failure.
        detail: String,
    },
}

/// The text of a setup error, with a remediation hint for a missing
/// capability.
pub open spec fn spec_message(e: SetupError) -> Seq<char> {
    match e {
        SetupError::CapabilityUnavailable { protocol } => match protocol {
            Protocol::Grpc => "gRPC transport requested but the grpc capability is not available; enable the grpc transport"@,
            Protocol::HttpProtobuf => "HTTP transport requested but the http capability is not available; enable the http transport"@,
            Protocol::HttpJson => "HTTP transport requested but the http capability is not available; enable the http transport"@,
        },
        SetupError::ExporterConstructionFailed { pipeline, detail } => match pipeline {
            PipelineKind::Traces => "failed to build the OTLP span exporter: "@ + detail@,
            PipelineKind::Logs => "failed to build the OTLP log exporter: "@ + detail@,
        },
        SetupError::SubscriberAlreadyInstalled { detail } => "failed to set the global subscriber: "@
            + detail@,
    }
}

impl SetupError {
    /// The error text, as `spec_message` states it.
    pub fn message(&self) -> (r: String)
        ensures
            r@ == spec_message(*self),
    {
        match self {
            SetupError::CapabilityUnavailable { protocol } => match protocol {
                Protocol::Grpc => String::from_str(
                    "gRPC transport requested but the grpc capability is not available; enable the grpc transport",
                ),
                Protocol::HttpProtobuf => String::from_str(
                    "HTTP transport requested but the http capability is not available; enable the http transport",
                ),
                Protocol::HttpJson => String::from_str(
                    "HTTP transport requested but the http capability is not available; enable the http transport",
                ),
            },
            SetupError::ExporterConstructionFailed { pipeline, detail } => match pipeline {
                PipelineKind::Traces => String::from_str(
                    "failed to build the OTLP span exporter: ",
                ).concat(detail.as_str()),
                PipelineKind::Logs => String::from_str(
                    "failed to build the OTLP log exporter: ",
                ).concat(detail.as_str()),
            },
            SetupError::SubscriberAlreadyInstalled { detail } => String::from_str(
                "failed to set the global subscriber: ",
            ).concat(detail.as_str()),
        }
    }
}

} // verus!
