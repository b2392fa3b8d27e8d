//! Command dispatch and session-lifecycle core of a single-guild chat bot.
//!
//! The crate models the architectural spine of the bot: a command registry
//! built once at startup (`registry`), a per-event dispatcher feeding a
//! receive loop whose throughput is independent of handler latency
//! (`dispatch`), a session state machine that constructs the process-wide
//! shared state exactly once (`session`), the guild-scoped registration
//! publisher with idempotent-overwrite semantics (`publish`), and the
//! startup configuration checks (`config`). Everything here is pure
//! decision logic; the gateway transport, environment loading and logging
//! live outside the crate and only hand plain values in and out.

pub mod config;
pub mod dispatch;
pub mod publish;
pub mod registry;
pub mod session;
