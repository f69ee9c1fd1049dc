//! UserRewardLedger: the bounded, append-only per-user reward record.
//!
//! One record holds the authoritative state of one user: the last claimed
//! activity, the consecutive count, the most recent reward, the bounded
//! history of past rewards, and the two timestamps. The record is created
//! empty and mutated exactly once per accepted claim; a rejected claim never
//! changes it. When the history is at capacity the next claim is rejected
//! rather than evicting an entry, so the audit trail is never truncated.

use vstd::prelude::*;
use crate::H_MAX;

verus! {

/// The per-user reward record.
pub struct UserRewardRecord {
    /// Identity of the owning user, as raw key bytes; assigned at creation
    /// and never read by the engine.
    pub user: [u8; 32],
    /// Identifier of the most recently claimed activity; empty before the
    /// first accepted claim.
    pub last_activity: String,
    /// Number of immediately preceding claims of the same activity,
    /// including the most recent one; zero only before the first claim.
    pub consecutive_count: u64,
    /// The most recently committed reward amount.
    pub reward_amount: u64,
    /// All committed reward amounts, oldest first, at most [`H_MAX`] of
    /// them.
    pub history: Vec<u64>,
    /// Time of the first accepted claim; zero before it.
    pub created_at: i64,
    /// Time of the most recent accepted claim; zero before the first.
    pub updated_at: i64,
}

impl UserRewardRecord {
    /// Well-formedness of a record: the history is within capacity, the
    /// consecutive count never exceeds the number of committed claims and is
    /// zero exactly on a virgin record, the timestamps are ordered,
    /// non-negative, and still zero on a virgin record, and the stored
    /// activity name has bounded length.
    pub open spec fn wf(self) -> bool {
        &&& self.history@.len() <= H_MAX
        &&& self.consecutive_count <= self.history@.len()
        &&& (self.consecutive_count == 0 <==> self.history@.len() == 0)
        &&& 0 <= self.created_at <= self.updated_at
        &&& (self.consecutive_count == 0 ==> self.created_at == 0 && self.updated_at == 0)
        &&& self.last_activity@.len() <= crate::catalog::ACTIVITY_NAME_MAX
    }

    /// Creates the record of a user who has not claimed yet: every field
    /// zero or empty except the identity.
    pub fn new(user: [u8; 32]) -> (r: UserRewardRecord)
        ensures
            r.wf(),
            r.user == user,
            r.last_activity@ == Seq::<char>::empty(),
            r.consecutive_count == 0,
            r.reward_amount == 0,
            r.history@ == Seq::<u64>::empty(),
            r.created_at == 0,
            r.updated_at == 0,
    {
        UserRewardRecord {
            user,
            last_activity: String::new(),
            consecutive_count: 0,
            reward_amount: 0,
            history: Vec::new(),
            created_at: 0,
            updated_at: 0,
        }
    }

    /// Read-only view of the record for callers: consecutive count, last
    /// activity, past rewards, and the time of the last accepted claim.
    pub fn query_history(&self) -> (r: (u64, &String, &Vec<u64>, i64))
        ensures
            r.0 == self.consecutive_count,
            r.1@ == self.last_activity@,
            r.2@ == self.history@,
            r.3 == self.updated_at,
    {
        (self.consecutive_count, &self.last_activity, &self.history, self.updated_at)
    }
}

} // verus!
