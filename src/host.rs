//! Host functions offered to effect scripts that are neither color nor frame
//! operations: random numbers and the resolution of configuration values.
use vstd::prelude::*;

verus! {

/// Name of the daemon, as scripts see it in their `config` table.
pub const DAEMON_NAME: &'static str = "eruption";

/// Version of the daemon, as scripts see it in their `config` table.
pub const DAEMON_VERSION: &'static str = "0.1.1";

/// Level of the scripting interface, as scripts see it in their `config` table.
pub const API_LEVEL: &'static str = "0.1.1";

/// Directory of shared script utilities, added to every script's module path.
pub const SCRIPT_LIB_PATH: &'static str = "src/scripts/lib/?.lua";

/// Relies on rand's `Rng::gen_range` on the thread-local generator: a value
/// in `[low, high)`; it panics when `low >= high`.
#[verifier::external_body]
fn gen_range_u64(low: u64, high: u64) -> (r: u64)
    requires
        low < high,
    ensures
        low <= r < high,
{
    rand::Rng::gen_range(&mut rand::thread_rng(), low, high)
}

/// A random integer drawn uniformly from `[lo, hi)`, or `None` when that
/// range is empty.
pub fn random_in_range(lo: u64, hi: u64) -> (r: Option<u64>)
    ensures
        r is Some <==> lo < hi,
        r matches Some(v) ==> lo <= v < hi,
{
    if lo < hi {
        Some(gen_range_u64(lo, hi))
    } else {
        None
    }
}

/// The value that a script's configuration parameter takes: the value that
/// the active profile gives it, or the manifest's default where the profile
/// gives none (or no profile is active).
pub fn resolve_param<V>(default: V, from_profile: Option<V>) -> (r: V)
    ensures
        r == (match from_profile {
            Some(v) => v,
            None => default,
        }),
{
    match from_profile {
        Some(v) => v,
        None => default,
    }
}

} // verus!
