//! How long a stream record is kept alive in persistent storage.

use vstd::prelude::*;

verus! {

/// Minimum time-to-live, in ledgers, applied on every write (about one day
/// at five seconds per ledger).
pub const MIN_TTL_LEDGERS: u32 = 17_280;

/// How long a record outlives its stream, in seconds (one year).
pub const RETENTION_SECONDS: u64 = 31_536_000;

/// The upper bound on the duration of a ledger, in seconds, used to turn
/// seconds into ledgers.
pub const SECONDS_PER_LEDGER: u64 = 5;

/// The time-to-live, in ledgers, that a record written at `now` for a stream
/// ending at `stop_time` is extended to: the time left until the stop (none
/// once it has passed) plus the retention period, saturating at `u64::MAX`
/// seconds, turned into ledgers rounding up (so that the record lives at
/// least that many seconds) and held to `u32::MAX`, and never below
/// `MIN_TTL_LEDGERS`.
pub open spec fn ttl_target(stop_time: int, now: int) -> int {
    let remaining = if stop_time > now {
        stop_time - now
    } else {
        0
    };
    let seconds = if remaining + RETENTION_SECONDS > u64::MAX {
        u64::MAX as int
    } else {
        remaining + RETENTION_SECONDS
    };
    let spl = SECONDS_PER_LEDGER as int;
    let ledgers = if (seconds + spl - 1) / spl > u32::MAX {
        u32::MAX as int
    } else {
        (seconds + spl - 1) / spl
    };
    if ledgers > MIN_TTL_LEDGERS {
        ledgers
    } else {
        MIN_TTL_LEDGERS as int
    }
}

/// The ledger count to which a stream record's time-to-live is extended when
/// it is written at `now`.
pub fn ttl_extend_to(stop_time: u64, now: u64) -> (r: u32)
    ensures
        r == ttl_target(stop_time as int, now as int),
        r >= MIN_TTL_LEDGERS,
        r == u32::MAX || r * SECONDS_PER_LEDGER >= (if stop_time > now {
            stop_time - now
        } else {
            0
        }) + RETENTION_SECONDS,
        r == MIN_TTL_LEDGERS || r == u32::MAX || (r - 1) * SECONDS_PER_LEDGER < (if stop_time > now {
            stop_time - now
        } else {
            0
        }) + RETENTION_SECONDS,
{
    let ttl_seconds: u64 = stop_time.saturating_sub(now).saturating_add(RETENTION_SECONDS);
    let rounding: u64 = if ttl_seconds % SECONDS_PER_LEDGER == 0 {
        0
    } else {
        1
    };
    let ttl_ledgers: u32 = (ttl_seconds / SECONDS_PER_LEDGER + rounding).min(u32::MAX as u64) as u32;
    ttl_ledgers.max(MIN_TTL_LEDGERS)
}

} // verus!
