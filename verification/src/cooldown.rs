//! CooldownGate: the minimum elapsed time between a user's accepted claims.
//!
//! The check is a non-blocking timestamp comparison against the time of the
//! user's last accepted claim; it never sleeps, so one user's cooldown never
//! stalls another user's claim. A user with no accepted claim yet passes
//! unconditionally.

use vstd::prelude::*;
use crate::COOLDOWN_DURATION;
use crate::ledger::UserRewardRecord;

verus! {

/// Whether a claim at time `now` clears the cooldown of `record`: either no
/// claim was accepted yet, or at least [`COOLDOWN_DURATION`] seconds have
/// elapsed since the last one. A claim exactly at the boundary clears it.
pub open spec fn cooldown_passed(record: UserRewardRecord, now: i64) -> bool {
    record.consecutive_count == 0 || now - record.updated_at >= COOLDOWN_DURATION
}

/// Checks the cooldown for a claim arriving at time `now`.
pub fn check(record: &UserRewardRecord, now: i64) -> (r: bool)
    requires
        record.wf(),
        now >= 0,
    ensures
        r == cooldown_passed(*record, now),
{
    record.consecutive_count == 0 || now - record.updated_at >= COOLDOWN_DURATION
}

} // verus!
