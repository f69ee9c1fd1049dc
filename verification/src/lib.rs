//! Reward engine for user-reported activities.
//!
//! The engine prices an activity claim from a fixed catalog of base rewards,
//! adjusts it by demand/supply pressure, applies an anti-farming decay when a
//! user repeats the same activity, enforces a cooldown between claims, and
//! records accepted claims in a bounded per-user ledger.

use vstd::prelude::*;
use vstd::arithmetic::power2::pow2;

pub mod calculator;
pub mod catalog;
pub mod cooldown;
pub mod guard;
pub mod ledger;
pub mod oracle;

verus! {

/// Maximum number of reward entries a user's history can hold.
pub const H_MAX: usize = 100;

/// Scale factor turning a fractional reward into an integer amount of the
/// smallest currency unit.
pub const SCALE: u64 = 100;

/// Minimum number of seconds between two accepted claims of one user.
pub const COOLDOWN_DURATION: i64 = 5;

/// Why a claim was rejected. Every rejection is recoverable and leaves the
/// user's record unchanged.
#[derive(Clone, Copy, Debug, PartialEq, Eq, Structural)]
pub enum ClaimError {
    /// The activity identifier is not in the catalog.
    UnknownActivity,
    /// The claim arrived before the user's cooldown elapsed.
    CooldownActive,
    /// The user's reward history is at capacity.
    LedgerFull,
}

/// The full outcome of a claim against a record: the committed reward
/// amount, or the exact rejection. The catalog is consulted first, then the
/// cooldown check, then the ledger capacity; an accepted claim pays the
/// demand/supply-priced reward decayed at the updated consecutive count.
pub open spec fn claim_decision(
    record: ledger::UserRewardRecord,
    activity: Seq<char>,
    num_tasks: u64,
    num_users: u64,
    now: i64,
) -> Result<int, ClaimError> {
    match catalog::base_of(activity) {
        Option::None => Result::Err(ClaimError::UnknownActivity),
        Option::Some(base) => if !cooldown::cooldown_passed(record, now) {
            Result::Err(ClaimError::CooldownActive)
        } else if record.history@.len() >= H_MAX {
            Result::Err(ClaimError::LedgerFull)
        } else {
            Result::Ok(
                guard::decayed_reward(
                    calculator::undecayed_reward(base, num_tasks, num_users),
                    guard::next_count(record.last_activity@, record.consecutive_count, activity),
                ),
            )
        },
    }
}

/// Processes one claim against one user's record.
///
/// The whole claim is one atomic transaction: on acceptance every field of
/// the record moves together (count, last activity, reward, history,
/// timestamps) and the committed amount is returned; on rejection the record
/// is left exactly as it was and the error says why. The result is pinned,
/// case by case, by [`claim_decision`]. Claim times are non-negative unix
/// timestamps.
pub fn submit_claim(
    record: &mut ledger::UserRewardRecord,
    activity: &String,
    num_tasks: u64,
    num_users: u64,
    now: i64,
) -> (r: Result<u64, ClaimError>)
    requires
        old(record).wf(),
        now >= 0,
    ensures
        final(record).wf(),
        final(record).user == old(record).user,
        match r {
            Result::Ok(amount) => {
                &&& claim_decision(*old(record), activity@, num_tasks, num_users, now)
                    == Result::<int, ClaimError>::Ok(amount as int)
                &&& final(record).consecutive_count == guard::next_count(
                    old(record).last_activity@,
                    old(record).consecutive_count,
                    activity@,
                )
                &&& final(record).last_activity@ == activity@
                &&& final(record).reward_amount == amount
                &&& final(record).history@ == old(record).history@.push(amount)
                &&& final(record).updated_at == now
                &&& final(record).created_at == (if old(record).consecutive_count == 0 {
                    now as int
                } else {
                    old(record).created_at as int
                })
            },
            Result::Err(e) => {
                &&& claim_decision(*old(record), activity@, num_tasks, num_users, now)
                    == Result::<int, ClaimError>::Err(e)
                &&& *final(record) == *old(record)
            },
        },
{
    let base = match catalog::lookup(activity) {
        Option::Some(base) => base,
        Option::None => {
            return Result::Err(ClaimError::UnknownActivity);
        },
    };
    if !cooldown::check(record, now) {
        return Result::Err(ClaimError::CooldownActive);
    }
    if record.history.len() >= H_MAX {
        return Result::Err(ClaimError::LedgerFull);
    }
    let new_count: u64 = if *activity == record.last_activity {
        record.consecutive_count + 1
    } else {
        1
    };
    let undecayed = calculator::compute(base, num_tasks, num_users);
    let amount = guard::apply_decay(undecayed, new_count);
    proof {
        catalog::lemma_catalog_name_bounded(activity@);
    }
    if record.consecutive_count == 0 {
        record.created_at = now;
    }
    record.last_activity = activity.clone();
    record.consecutive_count = new_count;
    record.reward_amount = amount;
    record.history.push(amount);
    record.updated_at = now;
    Result::Ok(amount)
}

/// A claim is accepted exactly when the activity is in the catalog, the
/// user's cooldown has passed, and the history has room; otherwise the
/// decision is the corresponding rejection.
pub proof fn lemma_claim_acceptance(
    record: ledger::UserRewardRecord,
    activity: Seq<char>,
    num_tasks: u64,
    num_users: u64,
    now: i64,
)
    ensures
        claim_decision(record, activity, num_tasks, num_users, now) is Ok <==> {
            &&& catalog::base_of(activity) is Some
            &&& cooldown::cooldown_passed(record, now)
            &&& record.history@.len() < H_MAX
        },
{
}

/// An accepted claim drives the consecutive count to the prior count plus
/// one when the activity repeats the last one, and to exactly one when it
/// switches.
pub proof fn lemma_consecutive_count_transition(record: ledger::UserRewardRecord, activity: Seq<char>)
    ensures
        activity == record.last_activity@ ==> guard::next_count(
            record.last_activity@,
            record.consecutive_count,
            activity,
        ) == record.consecutive_count + 1,
        activity != record.last_activity@ ==> guard::next_count(
            record.last_activity@,
            record.consecutive_count,
            activity,
        ) == 1,
{
}

/// A claim accepted while the updated consecutive count stays below the
/// decay threshold pays the undecayed calculator output exactly.
pub proof fn lemma_reward_undecayed(
    record: ledger::UserRewardRecord,
    activity: Seq<char>,
    num_tasks: u64,
    num_users: u64,
    now: i64,
)
    requires
        claim_decision(record, activity, num_tasks, num_users, now) is Ok,
        guard::next_count(record.last_activity@, record.consecutive_count, activity)
            < guard::DECAY_THRESHOLD,
    ensures
        claim_decision(record, activity, num_tasks, num_users, now) == Result::<
            int,
            ClaimError,
        >::Ok(
            calculator::undecayed_reward(
                catalog::base_of(activity).unwrap(),
                num_tasks,
                num_users,
            ),
        ),
{
}

/// A claim accepted at an updated consecutive count `c` at or above the
/// decay threshold pays `floor(R / 2^(c - 2))`, where `R` is the fresh
/// undecayed reward of that claim.
pub proof fn lemma_reward_decayed(
    record: ledger::UserRewardRecord,
    activity: Seq<char>,
    num_tasks: u64,
    num_users: u64,
    now: i64,
)
    requires
        claim_decision(record, activity, num_tasks, num_users, now) is Ok,
        guard::next_count(record.last_activity@, record.consecutive_count, activity)
            >= guard::DECAY_THRESHOLD,
    ensures
        claim_decision(record, activity, num_tasks, num_users, now) == Result::<
            int,
            ClaimError,
        >::Ok(
            calculator::undecayed_reward(catalog::base_of(activity).unwrap(), num_tasks, num_users)
                / pow2(
                (guard::next_count(record.last_activity@, record.consecutive_count, activity)
                    - 2) as nat,
            ) as int,
        ),
{
}

/// A known activity claimed while the user's history is already at capacity
/// is rejected as LedgerFull, never silently truncated or evicted.
pub proof fn lemma_full_ledger_rejected(
    record: ledger::UserRewardRecord,
    activity: Seq<char>,
    num_tasks: u64,
    num_users: u64,
    now: i64,
)
    requires
        catalog::base_of(activity) is Some,
        cooldown::cooldown_passed(record, now),
        record.history@.len() >= H_MAX,
    ensures
        claim_decision(record, activity, num_tasks, num_users, now) == Result::<
            int,
            ClaimError,
        >::Err(ClaimError::LedgerFull),
{
}

/// A known activity claimed strictly within the cooldown window of the
/// user's last accepted claim is rejected as CooldownActive; at exactly the
/// boundary or after, the cooldown clears and the claim is accepted whenever the
/// history has room.
pub proof fn lemma_cooldown_window(
    record: ledger::UserRewardRecord,
    activity: Seq<char>,
    num_tasks: u64,
    num_users: u64,
    now: i64,
)
    requires
        catalog::base_of(activity) is Some,
        record.consecutive_count > 0,
    ensures
        now - record.updated_at < COOLDOWN_DURATION ==> claim_decision(
            record,
            activity,
            num_tasks,
            num_users,
            now,
        ) == Result::<int, ClaimError>::Err(ClaimError::CooldownActive),
        now - record.updated_at >= COOLDOWN_DURATION && record.history@.len() < H_MAX
            ==> claim_decision(record, activity, num_tasks, num_users, now) is Ok,
{
}

} // verus!
