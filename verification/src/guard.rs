//! AntiFarmingGuard: the per-user consecutive-count tracker and the decay it
//! implies.
//!
//! Repeating the same activity raises the consecutive count by one; switching
//! resets it to one. Once the updated count `c` reaches
//! [`DECAY_THRESHOLD`], the freshly computed reward `R` is cut to
//! `floor(R / 2^(c - 2))`; the decay is recomputed from the fresh reward on
//! every claim and never compounds on an already decayed value.

use vstd::prelude::*;
use vstd::arithmetic::power2::{
    lemma2_to64, lemma2_to64_rest, lemma_pow2_pos, lemma_pow2_strictly_increases, pow2,
};
use vstd::arithmetic::div_mod::{lemma_basic_div, lemma_div_is_ordered_by_denominator};
use vstd::bits::lemma_u64_shr_is_div;

verus! {

/// Consecutive count at which the anti-farming decay starts.
pub const DECAY_THRESHOLD: u64 = 3;

/// The consecutive count after a claim of `activity` by a user whose record
/// holds `last_activity` and `count`: one more on a repeat, one on a switch.
pub open spec fn next_count(last_activity: Seq<char>, count: u64, activity: Seq<char>) -> int {
    if activity == last_activity {
        count + 1
    } else {
        1
    }
}

/// The reward after anti-farming decay at updated consecutive count `count`:
/// counts below [`DECAY_THRESHOLD`] pay the fresh reward in full, a count
/// `c >= DECAY_THRESHOLD` pays `floor(reward / 2^(c - 2))`.
pub open spec fn decayed_reward(reward: int, count: int) -> int
    recommends
        reward >= 0,
        count >= 1,
{
    if count < DECAY_THRESHOLD {
        reward
    } else {
        reward / pow2((count - 2) as nat) as int
    }
}

/// Applies the anti-farming decay to a freshly computed reward.
pub fn apply_decay(reward: u64, count: u64) -> (r: u64)
    ensures
        r == decayed_reward(reward as int, count as int),
{
    if count < DECAY_THRESHOLD {
        reward
    } else {
        let shift: u64 = count - 2;
        if shift >= 64 {
            proof {
                lemma2_to64();
                lemma2_to64_rest();
                if shift > 64 {
                    lemma_pow2_strictly_increases(64, shift as nat);
                }
                lemma_pow2_pos(shift as nat);
                lemma_basic_div(reward as int, pow2(shift as nat) as int);
            }
            0
        } else {
            proof {
                lemma_u64_shr_is_div(reward, shift);
            }
            reward >> shift
        }
    }
}

/// Growing a streak never raises the payout: at a higher consecutive count
/// the decayed reward is no larger, so as the count grows without bound the
/// reward falls toward zero, and once it reaches zero it stays zero until
/// the streak is broken.
pub proof fn lemma_decay_monotone(reward: u64, count1: u64, count2: u64)
    requires
        1 <= count1 <= count2,
    ensures
        decayed_reward(reward as int, count2 as int) <= decayed_reward(
            reward as int,
            count1 as int,
        ),
        decayed_reward(reward as int, count1 as int) == 0 ==> decayed_reward(
            reward as int,
            count2 as int,
        ) == 0,
{
    if count2 >= DECAY_THRESHOLD {
        lemma_pow2_pos((count2 - 2) as nat);
        if count1 < DECAY_THRESHOLD {
            lemma_div_is_ordered_by_denominator(
                reward as int,
                1,
                pow2((count2 - 2) as nat) as int,
            );
        } else {
            lemma_pow2_pos((count1 - 2) as nat);
            if count1 < count2 {
                lemma_pow2_strictly_increases((count1 - 2) as nat, (count2 - 2) as nat);
            }
            lemma_div_is_ordered_by_denominator(
                reward as int,
                pow2((count1 - 2) as nat) as int,
                pow2((count2 - 2) as nat) as int,
            );
        }
    }
}

/// Whether a task list triggers the flat streak penalty: it holds at least
/// three entries and the last three all equal the most recent one. Fewer
/// than three entries are no streak, so they are never penalized.
pub open spec fn penalty_applies(tasks: Seq<Seq<char>>) -> bool {
    &&& tasks.len() >= 3
    &&& forall|i: int|
        tasks.len() - 3 <= i < tasks.len() ==> #[trigger] tasks[i] == tasks[tasks.len() - 1]
}

/// Halves a reward when the tail of the task list is a streak of at least
/// three repeats of one task, as [`penalty_applies`] states; otherwise
/// returns it unchanged.
pub fn apply_anti_farming_penalty(previous_tasks: Vec<String>, reward: u64) -> (r: u64)
    ensures
        r == if penalty_applies(previous_tasks.deep_view()) {
            reward as int / 2
        } else {
            reward as int
        },
{
    let n = previous_tasks.len();
    if n < 3 {
        return reward;
    }
    let start: usize = n - 3;
    let mut same = true;
    let mut i: usize = start;
    while i < n
        invariant
            start <= i <= n,
            n == previous_tasks.len(),
            n >= 3,
            start == n - 3,
            same == (forall|j: int|
                start <= j < i ==> #[trigger] previous_tasks.deep_view()[j]
                    == previous_tasks.deep_view()[n - 1]),
        decreases n - i,
    {
        let repeat = previous_tasks[i] == previous_tasks[n - 1];
        proof {
            assert(previous_tasks.deep_view()[i as int] == previous_tasks@[i as int]@);
            assert(previous_tasks.deep_view()[n - 1] == previous_tasks@[n - 1]@);
        }
        if !repeat {
            same = false;
        }
        i += 1;
    }
    if same {
        reward / 2
    } else {
        reward
    }
}

} // verus!
