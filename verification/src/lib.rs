//! A small concurrency primitive: offload a blocking computation to a worker
//! pool, await its result cooperatively, and give up after a timeout while the
//! background work runs to completion on its own.
//!
//! The asynchronous plumbing itself (the worker pool, the one-shot channel,
//! the timer) lives outside this library; what is verified here is every
//! decision the primitive makes: how the effective timeout is resolved from an
//! explicit override, an environment-supplied value and a hardcoded default,
//! and how the single race between completion and expiry is settled into a
//! result, with at most one value ever delivered per invocation.

pub mod config;
pub mod parse;
pub mod race;

pub use config::DEFAULT_TIMEOUT_MS;
pub use config::resolve_timeout_ms;
pub use parse::parse_millis;
pub use race::Event;
pub use race::SpawnError;
pub use race::WaitState;
pub use race::settle;
pub use race::step;
