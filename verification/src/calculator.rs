//! RewardCalculator: prices a claim from the catalog base reward and the
//! current demand/supply pressure.
//!
//! The multiplier is a fixed-point fraction in tenths: 12 (x1.2) when tasks
//! outnumber users, 9 (x0.9) when users outnumber tasks, 10 (x1.0) on a tie.
//! The result is the base reward times the multiplier, scaled by [`SCALE`]
//! into an integer amount of the smallest currency unit, truncated downward.

use vstd::prelude::*;
use crate::catalog::{BASE_DENOM, MAX_BASE};
use crate::SCALE;

verus! {

/// Denominator of the fixed-point demand/supply multiplier: a multiplier of
/// `m` stands for `m / MULT_DENOM`.
pub const MULT_DENOM: u64 = 10;

/// Multiplier when demand exceeds the supply of workers: x1.2.
pub const DEMAND_MULT: u64 = 12;

/// Multiplier when claimants outnumber available tasks: x0.9.
pub const SUPPLY_MULT: u64 = 9;

/// Multiplier when tasks and users balance: x1.0.
pub const NEUTRAL_MULT: u64 = 10;

/// The demand/supply multiplier, in tenths, chosen from the task and user
/// counts. Ties pay the neutral multiplier.
pub open spec fn multiplier_of(num_tasks: u64, num_users: u64) -> u64 {
    if num_tasks > num_users {
        DEMAND_MULT
    } else if num_users > num_tasks {
        SUPPLY_MULT
    } else {
        NEUTRAL_MULT
    }
}

/// The undecayed reward of a claim: `floor(base/BASE_DENOM * m/MULT_DENOM *
/// SCALE)` smallest currency units, where `base` is the catalog base reward
/// in hundredths of a unit and `m` the multiplier in tenths.
pub open spec fn undecayed_reward(base: u64, num_tasks: u64, num_users: u64) -> int {
    (base * SCALE * multiplier_of(num_tasks, num_users)) / (BASE_DENOM * MULT_DENOM)
}

/// Computes the undecayed reward amount for a claim.
///
/// `base` is a catalog base reward, so it is bounded by [`MAX_BASE`]; the
/// bound keeps the scaled product inside `u64`.
pub fn compute(base: u64, num_tasks: u64, num_users: u64) -> (r: u64)
    requires
        base <= MAX_BASE,
    ensures
        r == undecayed_reward(base, num_tasks, num_users),
{
    if num_tasks > num_users {
        (base * SCALE * DEMAND_MULT) / (BASE_DENOM * MULT_DENOM)
    } else if num_users > num_tasks {
        (base * SCALE * SUPPLY_MULT) / (BASE_DENOM * MULT_DENOM)
    } else {
        (base * SCALE * NEUTRAL_MULT) / (BASE_DENOM * MULT_DENOM)
    }
}

} // verus!
