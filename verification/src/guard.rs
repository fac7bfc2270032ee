//! The lifecycle guard: owns the constructed providers and guarantees that
//! the flush-and-shutdown sequence runs at most once, whether shutdown is
//! requested explicitly or happens when the guard goes out of scope.

use vstd::prelude::*;

use opentelemetry_sdk::logs::SdkLoggerProvider;
use opentelemetry_sdk::trace::SdkTracerProvider;

use crate::backend;

verus! {

/// The abstract state of a guard: which providers it holds, whether
/// shutdown has been performed, and how often the sequence has run.
pub struct GuardModel {
    /// Whether a tracer provider is held.
    pub has_tracer: bool,
    /// Whether a logger provider is held.
    pub has_logger: bool,
    /// Whether the shutdown transition has fired.
    pub shutdown_called: bool,
    /// How many times the flush-and-shutdown sequence has run.
    pub runs: nat,
}

/// The guard's only transition: the first shutdown request runs the
/// sequence once and moves to the terminal state; every later request
/// changes nothing.
pub open spec fn shutdown_transition(g: GuardModel) -> GuardModel {
    if g.shutdown_called {
        g
    } else {
        GuardModel { shutdown_called: true, runs: g.runs + 1, ..g }
    }
}

/// The guard invariant: the sequence has run exactly once when shutdown
/// fired and never before.
pub open spec fn guard_wf(g: GuardModel) -> bool {
    g.runs == if g.shutdown_called {
        1nat
    } else {
        0nat
    }
}

/// Idempotent shutdown: a second shutdown request changes nothing, a
/// request in the terminal state changes nothing, and on a well-formed
/// guard the sequence has run exactly once after any number of requests.
pub proof fn lemma_shutdown_idempotent(g: GuardModel)
    ensures
        shutdown_transition(shutdown_transition(g)) == shutdown_transition(g),
        g.shutdown_called ==> shutdown_transition(g) == g,
        !g.shutdown_called ==> shutdown_transition(g).runs == g.runs + 1,
        guard_wf(g) ==> guard_wf(shutdown_transition(g)) && shutdown_transition(g).runs == 1,
{
}

/// Lifecycle guard for the constructed providers.
///
/// Holds the active providers and ensures they are flushed and shut down
/// exactly once: on the first explicit [`OtelGuard::shutdown`] call, or when
/// the guard is dropped, whichever comes first. Hold it for the lifetime of
/// the application.
pub struct OtelGuard {
    tracer_provider: Option<SdkTracerProvider>,
    logger_provider: Option<SdkLoggerProvider>,
    shutdown_called: bool,
    shutdown_runs: u64,
}

impl View for OtelGuard {
    type V = GuardModel;

    closed spec fn view(&self) -> GuardModel {
        GuardModel {
            has_tracer: self.tracer_provider is Some,
            has_logger: self.logger_provider is Some,
            shutdown_called: self.shutdown_called,
            runs: self.shutdown_runs as nat,
        }
    }
}

impl OtelGuard {
    /// A guard over the given providers, with shutdown still to come.
    pub fn new(
        tracer_provider: Option<SdkTracerProvider>,
        logger_provider: Option<SdkLoggerProvider>,
    ) -> (r: OtelGuard)
        ensures
            guard_wf(r@),
            !r@.shutdown_called,
            r@.runs == 0,
            r@.has_tracer == tracer_provider is Some,
            r@.has_logger == logger_provider is Some,
    {
        OtelGuard { tracer_provider, logger_provider, shutdown_called: false, shutdown_runs: 0 }
    }

    /// Whether the shutdown sequence has been performed.
    pub fn has_shut_down(&self) -> (r: bool)
        ensures
            r == self@.shutdown_called,
    {
        self.shutdown_called
    }

    /// How many times the flush-and-shutdown sequence has run.
    pub fn shutdown_runs(&self) -> (r: u64)
        ensures
            r as nat == self@.runs,
    {
        self.shutdown_runs
    }

    /// Whether a tracer provider is held.
    pub fn has_tracer_provider(&self) -> (r: bool)
        ensures
            r == self@.has_tracer,
    {
        self.tracer_provider.is_some()
    }

    /// Whether a logger provider is held.
    pub fn has_logger_provider(&self) -> (r: bool)
        ensures
            r == self@.has_logger,
    {
        self.logger_provider.is_some()
    }

    /// Explicitly flush and shut down all held providers.
    ///
    /// Safe to call any number of times; only the first call performs the
    /// sequence. The same sequence fires when the guard is dropped.
    pub fn shutdown(&mut self)
        requires
            old(self)@.runs < u64::MAX,
        ensures
            final(self)@ == shutdown_transition(old(self)@),
    {
        if self.shutdown_called {
            return ;
        }
        self.shutdown_called = true;
        self.shutdown_runs = self.shutdown_runs + 1;
        self.run_shutdown_sequence();
    }

    /// The shutdown sequence: flush, then shut down, the tracer provider and
    /// then the logger provider, each step skipped when its provider is
    /// absent; a failing step is reported to the diagnostic sink and the
    /// sequence continues.
    fn run_shutdown_sequence(&self)
        opens_invariants none
        no_unwind
    {
        match &self.tracer_provider {
            Some(tp) => {
                match backend::tracer_force_flush(tp) {
                    Ok(_) => (),
                    Err(detail) => backend::write_diagnostic(
                        "flushing tracer provider",
                        &detail,
                    ),
                }
                match backend::tracer_shutdown(tp) {
                    Ok(_) => (),
                    Err(detail) => backend::write_diagnostic(
                        "shutting down tracer provider",
                        &detail,
                    ),
                }
            },
            None => (),
        }
        match &self.logger_provider {
            Some(lp) => {
                match backend::logger_force_flush(lp) {
                    Ok(_) => (),
                    Err(detail) => backend::write_diagnostic(
                        "flushing logger provider",
                        &detail,
                    ),
                }
                match backend::logger_shutdown(lp) {
                    Ok(_) => (),
                    Err(detail) => backend::write_diagnostic(
                        "shutting down logger provider",
                        &detail,
                    ),
                }
            },
            None => (),
        }
    }
}

impl Drop for OtelGuard {
    /// Scope-exit shutdown: fires the same transition as an explicit call,
    /// so a guard that was already shut down drops without effect.
    fn drop(&mut self)
        ensures
            old(self)@.runs < u64::MAX ==> final(self)@ == shutdown_transition(old(self)@),
            final(self)@.shutdown_called,
        opens_invariants none
        no_unwind
    {
        if !self.shutdown_called {
            self.shutdown_called = true;
            if self.shutdown_runs < u64::MAX {
                self.shutdown_runs = self.shutdown_runs + 1;
            }
            self.run_shutdown_sequence();
        }
    }
}

} // verus!
