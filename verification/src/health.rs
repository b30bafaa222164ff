//! The health pinger: every tick, one best-effort call to the monitoring URL,
//! if one is configured.

use crate::config::Config;
use vstd::prelude::*;

verus! {

/// The URL that a tick of the health pinger calls, or `None` when the
/// configuration names no monitor. The pinger is not gated by any window: this
/// is the whole of its decision.
pub fn health_target(config: &Config) -> (target: Option<&str>)
    ensures
        config.healthcheck@.len() == 0 <==> target is None,
        target matches Some(url) ==> url@ == config.healthcheck@,
{
    let url: &str = config.healthcheck.as_str();
    if url.is_empty() {
        None
    } else {
        Some(url)
    }
}

} // verus!
