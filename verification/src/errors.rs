//! Error kinds of the alerting core and the propagation policy for each.

use vstd::prelude::*;

verus! {

/// Everything that can go wrong inside one poll cycle or at startup.
#[derive(Clone, Copy, Debug, PartialEq, Eq, Structural)]
pub enum CoreError {
    /// An asset id that the price source cannot resolve, or that is not in
    /// the tracked set.
    UnsupportedAsset,
    /// A transport-level failure fetching prices for the whole batch.
    PriceSourceUnavailable,
    /// Message delivery failed for one alert.
    TransportSendFailure,
    /// A threshold refers to an asset that is no longer tracked.
    ConfigInconsistency,
    /// The pid file or the privilege drop failed at daemon startup.
    DaemonStartFailure,
}

/// How far an error of a given kind is allowed to reach.
#[derive(Clone, Copy, Debug, PartialEq, Eq, Structural)]
pub enum Propagation {
    /// Logged for the one item it concerns; the batch goes on.
    PerItemLogged,
    /// Aborts the current tick only; the next tick runs as scheduled.
    TickAbort,
    /// Reported to the operator where configuration is loaded or changed.
    Surface,
    /// Fatal to process startup; never retried automatically.
    Fatal,
}

/// The operator-facing description of each error kind.
pub open spec fn spec_message(e: CoreError) -> Seq<char> {
    match e {
        CoreError::UnsupportedAsset => "unsupported asset"@,
        CoreError::PriceSourceUnavailable => "price source unavailable"@,
        CoreError::TransportSendFailure => "message transport send failure"@,
        CoreError::ConfigInconsistency => "configuration inconsistency"@,
        CoreError::DaemonStartFailure => "daemon start failure"@,
    }
}

impl CoreError {
    /// A short description for logs and the console.
    pub fn message(&self) -> (s: &'static str)
        ensures
            s@ == spec_message(*self),
    {
        match self {
            CoreError::UnsupportedAsset => "unsupported asset",
            CoreError::PriceSourceUnavailable => "price source unavailable",
            CoreError::TransportSendFailure => "message transport send failure",
            CoreError::ConfigInconsistency => "configuration inconsistency",
            CoreError::DaemonStartFailure => "daemon start failure",
        }
    }
}

pub open spec fn spec_propagation(e: CoreError) -> Propagation {
    match e {
        CoreError::UnsupportedAsset => Propagation::PerItemLogged,
        CoreError::PriceSourceUnavailable => Propagation::TickAbort,
        CoreError::TransportSendFailure => Propagation::PerItemLogged,
        CoreError::ConfigInconsistency => Propagation::Surface,
        CoreError::DaemonStartFailure => Propagation::Fatal,
    }
}

/// The propagation policy: per-item errors are logged and skipped, a failed
/// batch fetch costs only its tick, configuration inconsistencies are
/// surfaced, and a failed daemon start is fatal.
pub fn propagation(e: &CoreError) -> (p: Propagation)
    ensures
        p == spec_propagation(*e),
{
    match e {
        CoreError::UnsupportedAsset => Propagation::PerItemLogged,
        CoreError::PriceSourceUnavailable => Propagation::TickAbort,
        CoreError::TransportSendFailure => Propagation::PerItemLogged,
        CoreError::ConfigInconsistency => Propagation::Surface,
        CoreError::DaemonStartFailure => Propagation::Fatal,
    }
}

} // verus!
