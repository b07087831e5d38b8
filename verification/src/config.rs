//! Resolving the effective timeout.
//!
//! The timeout is a single configuration value with a fallback chain: an
//! explicit override from the caller wins outright; otherwise the
//! process-wide environment value is parsed as a count of milliseconds; if it
//! is absent or does not parse, a hardcoded default applies. Resolution
//! happens once at the boundary of an invocation; the resolved duration is
//! passed down from there.

use vstd::prelude::*;

use crate::parse::parse_millis;
use crate::parse::parse_millis_spec;

verus! {

/// The hardcoded fallback timeout, in milliseconds.
pub const DEFAULT_TIMEOUT_MS: u64 = 150;

/// The view of an optional environment value as a character sequence.
pub open spec fn env_view(env_value: Option<&str>) -> Option<Seq<char>> {
    match env_value {
        Some(s) => Some(s@),
        None => None,
    }
}

/// The effective timeout for one invocation: the explicit override if one is
/// given; otherwise the parsed environment value; otherwise the default.
pub open spec fn resolved_timeout_ms(explicit: Option<u64>, env: Option<Seq<char>>) -> u64 {
    match explicit {
        Some(ms) => ms,
        None => match env {
            Some(s) => match parse_millis_spec(s) {
                Some(ms) => ms,
                None => DEFAULT_TIMEOUT_MS,
            },
            None => DEFAULT_TIMEOUT_MS,
        },
    }
}

/// Resolve the effective timeout in milliseconds from the caller's explicit
/// override and the process-wide environment value, read once per call. An
/// explicit override takes precedence over both the environment and the
/// default, regardless of their values; without one, an absent or unparsable
/// environment value falls back to exactly the default.
pub fn resolve_timeout_ms(explicit: Option<u64>, env_value: Option<&str>) -> (r: u64)
    ensures
        r == resolved_timeout_ms(explicit, env_view(env_value)),
        explicit matches Some(ms) ==> r == ms,
        explicit is None && env_value is None ==> r == DEFAULT_TIMEOUT_MS,
        env_value matches Some(v) ==> explicit is None && parse_millis_spec(v@) is None ==> r
            == DEFAULT_TIMEOUT_MS,
        env_value matches Some(v) ==> parse_millis_spec(v@) matches Some(ms) ==> explicit is None
            ==> r == ms,
{
    match explicit {
        Some(ms) => ms,
        None => match env_value {
            Some(v) => match parse_millis(v) {
                Some(ms) => ms,
                None => DEFAULT_TIMEOUT_MS,
            },
            None => DEFAULT_TIMEOUT_MS,
        },
    }
}

} // verus!
