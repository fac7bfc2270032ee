//! Composition of the process-wide tracing subscriber: a log-level filter,
//! a formatted output layer, and the optional trace and log bridges.

use vstd::prelude::*;

use opentelemetry_sdk::logs::SdkLoggerProvider;
use opentelemetry_sdk::trace::SdkTracerProvider;

use crate::backend;
use crate::errors::SetupError;

verus! {

/// Compose and install the process-wide subscriber. The filter comes from
/// the log-level environment variable, with `info` as its fallback; the
/// trace and log bridges are added for whichever providers are present.
/// Fails only when a default subscriber is already installed, and then
/// always with `SubscriberAlreadyInstalled`.
pub fn compose_subscriber(
    tracer_provider: Option<&SdkTracerProvider>,
    logger_provider: Option<&SdkLoggerProvider>,
) -> (r: Result<(), SetupError>)
    ensures
        match r {
            Ok(_) => true,
            Err(e) => e is SubscriberAlreadyInstalled,
        },
{
    let filter = match backend::try_env_filter() {
        Some(f) => f,
        None => backend::new_env_filter("info"),
    };
    match backend::install_subscriber(filter, tracer_provider, logger_provider, "raccoon-otel") {
        Ok(_) => Ok(()),
        Err(detail) => Err(SetupError::SubscriberAlreadyInstalled { detail }),
    }
}

} // verus!
