//! Price threshold alerting: a verified polling-evaluate-notify core.
//!
//! The library models a small monitoring daemon: a configuration names the
//! tracked assets and optional upper/lower price thresholds for each, a
//! threshold evaluator turns one price sample into alert events, a dispatcher
//! hands each rendered alert to a message transport one at a time, and a poll
//! scheduler cycles through fetch, evaluate, dispatch and wait phases.
//! All surrounding I/O (price fetching, message delivery, persistence) lives
//! outside the library and talks to it through plain values.

pub mod config;
pub mod digits;
pub mod dispatch;
pub mod errors;
pub mod notify;
pub mod price;
pub mod scheduler;
