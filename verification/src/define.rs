//! Constants shared by the whole engine.

use vstd::prelude::*;

verus! {

/// Version of the engine as (major, minor, patch).
pub const ENGINE_VERSION: (u32, u32, u32) = (1, 0, 0);

/// Number of seconds in an hour.
pub const HOUR_AS_SECONDS: u64 = 3600;

/// Number of seconds in a minute.
pub const MIN_AS_SECONDS: u64 = 60;

} // verus!
