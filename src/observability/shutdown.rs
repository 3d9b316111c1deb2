//! Shutting the telemetry providers down, and what is logged of it.
use vstd::prelude::*;

verus! {

/// The three telemetry providers.
#[derive(Debug, Clone, Copy, PartialEq, Eq, Structural)]
pub enum TelemetryProvider {
    Tracer,
    Meter,
    Logger,
}

/// How shutting a provider down went.
#[derive(Debug, Clone, PartialEq)]
pub enum ShutdownOutcome {
    Completed,
    AlreadyShutdown,
    /// Timed out; holds how long it waited, as text.
    TimedOut(String),
    /// Failed; holds the failure, as text.
    Failed(String),
}

/// A line for the log: an error or not, and its text.
#[derive(Debug, Clone, PartialEq)]
pub struct ShutdownReport {
    pub is_error: bool,
    pub message: String,
}

/// The order in which the providers are shut down.
pub fn shutdown_order() -> (r: Vec<TelemetryProvider>)
    ensures
        r@ == seq![TelemetryProvider::Tracer, TelemetryProvider::Meter, TelemetryProvider::Logger],
{
    let r = vec![TelemetryProvider::Tracer, TelemetryProvider::Meter, TelemetryProvider::Logger];
    assert(r@ =~= seq![TelemetryProvider::Tracer, TelemetryProvider::Meter, TelemetryProvider::Logger]);
    r
}

/// How a successful shutdown names the provider.
pub open spec fn completed_name(p: TelemetryProvider) -> Seq<char> {
    match p {
        TelemetryProvider::Tracer => "Tracer"@,
        TelemetryProvider::Meter => "Meter"@,
        TelemetryProvider::Logger => "Logger"@,
    }
}

/// How an unsuccessful shutdown names the provider.
pub open spec fn failed_name(p: TelemetryProvider) -> Seq<char> {
    match p {
        TelemetryProvider::Tracer => "Tracing"@,
        TelemetryProvider::Meter => "Meter"@,
        TelemetryProvider::Logger => "Logger"@,
    }
}

/// The log line for `outcome` of shutting `provider` down.
pub open spec fn report_of(provider: TelemetryProvider, outcome: ShutdownOutcome) -> (bool, Seq<char>) {
    match outcome {
        ShutdownOutcome::Completed => (false, completed_name(provider) + " provider shutdown."@),
        ShutdownOutcome::AlreadyShutdown => (true, failed_name(provider) + " provider already shut down."@),
        ShutdownOutcome::TimedOut(t) => (true, failed_name(provider) + " provider shutdown timed out after "@ + t@),
        ShutdownOutcome::Failed(e) => (true, failed_name(provider) + " provider shutdown failed: "@ + e@),
    }
}

fn completed_label(p: TelemetryProvider) -> (r: &'static str)
    ensures
        r@ == completed_name(p),
{
    match p {
        TelemetryProvider::Tracer => "Tracer",
        TelemetryProvider::Meter => "Meter",
        TelemetryProvider::Logger => "Logger",
    }
}

fn failed_label(p: TelemetryProvider) -> (r: &'static str)
    ensures
        r@ == failed_name(p),
{
    match p {
        TelemetryProvider::Tracer => "Tracing",
        TelemetryProvider::Meter => "Meter",
        TelemetryProvider::Logger => "Logger",
    }
}

/// The log line for `outcome` of shutting `provider` down.
pub fn shutdown_report(provider: TelemetryProvider, outcome: &ShutdownOutcome) -> (r: ShutdownReport)
    ensures
        (r.is_error, r.message@) == report_of(provider, *outcome),
{
    match outcome {
        ShutdownOutcome::Completed => {
            let mut message = String::from_str(completed_label(provider));
            message.append(" provider shutdown.");
            ShutdownReport { is_error: false, message }
        },
        ShutdownOutcome::AlreadyShutdown => {
            let mut message = String::from_str(failed_label(provider));
            message.append(" provider already shut down.");
            ShutdownReport { is_error: true, message }
        },
        ShutdownOutcome::TimedOut(t) => {
            let mut message = String::from_str(failed_label(provider));
            message.append(" provider shutdown timed out after ");
            message.append(t.as_str());
            ShutdownReport { is_error: true, message }
        },
        ShutdownOutcome::Failed(e) => {
            let mut message = String::from_str(failed_label(provider));
            message.append(" provider shutdown failed: ");
            message.append(e.as_str());
            ShutdownReport { is_error: true, message }
        },
    }
}

} // verus!
