//! The reconnect circuit breaker: repeatedly failing fast is escalated to a
//! fatal alert instead of looping forever against a misconfiguration.

use vstd::prelude::*;

use crate::settings::{FAST_RECONNECT_SECS, MAX_FAST_RECONNECTS};

verus! {

/// The consecutive-fast-cycle count after one more cycle: a cycle shorter
/// than the fast threshold raises it (saturating), any other resets it.
pub open spec fn tally_spec(count: int, cycle_secs: int) -> int {
    if cycle_secs < FAST_RECONNECT_SECS {
        if count >= u32::MAX {
            u32::MAX as int
        } else {
            count + 1
        }
    } else {
        0
    }
}

/// The breaker trips once the count reaches the limit.
pub open spec fn halt_spec(count: int) -> bool {
    count >= MAX_FAST_RECONNECTS
}

/// Account for one finished reconnect cycle.
pub fn reconnect_tally(fast_attempts: u32, cycle_secs: u64) -> (r: u32)
    ensures
        r == tally_spec(fast_attempts as int, cycle_secs as int),
{
    if cycle_secs < FAST_RECONNECT_SECS {
        if fast_attempts == u32::MAX {
            fast_attempts
        } else {
            fast_attempts + 1
        }
    } else {
        0
    }
}

/// True when the breaker has tripped: the process must alert and halt
/// rather than attempt another connection.
pub fn should_halt(fast_attempts: u32) -> (r: bool)
    ensures
        r == halt_spec(fast_attempts as int),
{
    fast_attempts >= MAX_FAST_RECONNECTS
}

/// Three reconnect cycles each completing under the fast threshold trip
/// the breaker: a fourth attempt never occurs, the process alerts and
/// halts instead.
pub proof fn lemma_reconnect_storm_halts(c1: int, c2: int, c3: int)
    requires
        0 <= c1 < FAST_RECONNECT_SECS,
        0 <= c2 < FAST_RECONNECT_SECS,
        0 <= c3 < FAST_RECONNECT_SECS,
    ensures
        halt_spec(tally_spec(tally_spec(tally_spec(0, c1), c2), c3)),
{
}

} // verus!
