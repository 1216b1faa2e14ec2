//! The deadline policy: a request may name its own wall-clock limit in
//! seconds; zero means "use the default".

use vstd::prelude::*;

verus! {

/// Deadline, in seconds, applied when a request does not name one.
pub const DEFAULT_TIMEOUT_SECONDS: u64 = 10;

/// The deadline a request is run under.
pub open spec fn spec_effective_timeout(requested: u64) -> u64 {
    if requested > 0 {
        requested
    } else {
        DEFAULT_TIMEOUT_SECONDS
    }
}

/// The run phase's deadline: the requested number of seconds when positive,
/// otherwise the default.
pub fn effective_timeout(requested: u64) -> (r: u64)
    ensures
        r == spec_effective_timeout(requested),
        r > 0,
{
    if requested > 0 {
        requested
    } else {
        DEFAULT_TIMEOUT_SECONDS
    }
}

} // verus!
