use rewards_program::submit_claim;
use rewards_program::ClaimError;
use rewards_program::ledger::UserRewardRecord;
use rewards_program::{COOLDOWN_DURATION, H_MAX};

const STAKE: &str = "Stake SOL for at Least 7 Days";
const VOTE: &str = "Cast a Vote";

fn fresh_record() -> UserRewardRecord {
    UserRewardRecord::new([7u8; 32])
}

#[test]
fn first_claim_pays_supply_discounted_reward() {
    // base 0.1, users outnumber tasks: floor(0.1 * 0.9 * 100) = 9.
    let mut rec = fresh_record();
    let r = submit_claim(&mut rec, &STAKE.to_string(), 3, 10, 100);
    assert_eq!(r, Ok(9));
    assert_eq!(rec.consecutive_count, 1);
    assert_eq!(rec.reward_amount, 9);
    assert_eq!(rec.history, vec![9]);
    assert_eq!(rec.last_activity, STAKE);
    assert_eq!(rec.created_at, 100);
    assert_eq!(rec.updated_at, 100);
    assert_eq!(rec.user, [7u8; 32]);
}

#[test]
fn first_claim_pays_demand_boosted_reward() {
    // base 0.1, tasks outnumber users: floor(0.1 * 1.2 * 100) = 12.
    let mut rec = fresh_record();
    let r = submit_claim(&mut rec, &STAKE.to_string(), 10, 3, 100);
    assert_eq!(r, Ok(12));
}

#[test]
fn balanced_counts_pay_neutral_reward() {
    let mut rec = fresh_record();
    let r = submit_claim(&mut rec, &STAKE.to_string(), 5, 5, 100);
    assert_eq!(r, Ok(10));
}

#[test]
fn third_consecutive_claim_is_halved() {
    // c = 3 with fresh undecayed reward 9: floor(9 / 2) = 4.
    let mut rec = fresh_record();
    assert_eq!(submit_claim(&mut rec, &STAKE.to_string(), 3, 10, 100), Ok(9));
    assert_eq!(submit_claim(&mut rec, &STAKE.to_string(), 3, 10, 110), Ok(9));
    assert_eq!(submit_claim(&mut rec, &STAKE.to_string(), 3, 10, 120), Ok(4));
    assert_eq!(rec.consecutive_count, 3);
    assert_eq!(rec.history, vec![9, 9, 4]);
}

#[test]
fn fourth_consecutive_claim_is_quartered() {
    // c = 4 with fresh undecayed reward 9: floor(9 / 4) = 2.
    let mut rec = fresh_record();
    for (i, expected) in [9u64, 9, 4, 2].iter().enumerate() {
        let now = 100 + (i as i64) * 10;
        assert_eq!(
            submit_claim(&mut rec, &STAKE.to_string(), 3, 10, now),
            Ok(*expected)
        );
    }
    assert_eq!(rec.consecutive_count, 4);
}

#[test]
fn long_streak_decays_to_zero_and_stays_there() {
    let mut rec = fresh_record();
    let mut last = 0u64;
    for i in 0..9 {
        let now = 100 + (i as i64) * 10;
        last = submit_claim(&mut rec, &STAKE.to_string(), 3, 10, now).unwrap();
    }
    // c = 9: floor(9 / 2^7) = 0, and it stays zero while the streak lasts.
    assert_eq!(last, 0);
    assert_eq!(
        submit_claim(&mut rec, &STAKE.to_string(), 3, 10, 200),
        Ok(0)
    );
}

#[test]
fn unknown_activity_is_rejected_without_mutation() {
    let mut rec = fresh_record();
    let r = submit_claim(&mut rec, &"unknown-activity".to_string(), 3, 10, 100);
    assert_eq!(r, Err(ClaimError::UnknownActivity));
    assert_eq!(rec.consecutive_count, 0);
    assert_eq!(rec.history, Vec::<u64>::new());
    assert_eq!(rec.last_activity, "");
    assert_eq!(rec.reward_amount, 0);
    assert_eq!(rec.updated_at, 0);
}

#[test]
fn switching_activity_resets_count_and_decay() {
    let mut rec = fresh_record();
    for i in 0..3 {
        let now = 100 + (i as i64) * 10;
        submit_claim(&mut rec, &STAKE.to_string(), 3, 10, now).unwrap();
    }
    assert_eq!(rec.consecutive_count, 3);
    // base 0.05, users outnumber tasks: floor(0.05 * 0.9 * 100) = 4, undecayed.
    let r = submit_claim(&mut rec, &VOTE.to_string(), 3, 10, 200);
    assert_eq!(r, Ok(4));
    assert_eq!(rec.consecutive_count, 1);
    assert_eq!(rec.last_activity, VOTE);
}

#[test]
fn claim_inside_cooldown_window_is_rejected() {
    let mut rec = fresh_record();
    assert_eq!(submit_claim(&mut rec, &STAKE.to_string(), 3, 10, 100), Ok(9));
    let r = submit_claim(&mut rec, &STAKE.to_string(), 3, 10, 100 + COOLDOWN_DURATION - 1);
    assert_eq!(r, Err(ClaimError::CooldownActive));
    // The rejection left the record untouched.
    assert_eq!(rec.consecutive_count, 1);
    assert_eq!(rec.history, vec![9]);
    assert_eq!(rec.updated_at, 100);
}

#[test]
fn claim_at_cooldown_boundary_is_accepted() {
    let mut rec = fresh_record();
    assert_eq!(submit_claim(&mut rec, &STAKE.to_string(), 3, 10, 100), Ok(9));
    let r = submit_claim(&mut rec, &STAKE.to_string(), 3, 10, 100 + COOLDOWN_DURATION);
    assert_eq!(r, Ok(9));
    assert_eq!(rec.updated_at, 100 + COOLDOWN_DURATION);
}

#[test]
fn first_claim_bypasses_cooldown() {
    let mut rec = fresh_record();
    // A virgin record has no last claim, so even now = 0 passes the cooldown.
    assert_eq!(submit_claim(&mut rec, &STAKE.to_string(), 3, 10, 0), Ok(9));
}

#[test]
fn ledger_full_rejects_the_next_claim() {
    let mut rec = fresh_record();
    for i in 0..H_MAX {
        let now = 100 + (i as i64) * COOLDOWN_DURATION;
        assert!(submit_claim(&mut rec, &STAKE.to_string(), 3, 10, now).is_ok());
    }
    assert_eq!(rec.history.len(), H_MAX);
    let now = 100 + (H_MAX as i64) * COOLDOWN_DURATION;
    let r = submit_claim(&mut rec, &STAKE.to_string(), 3, 10, now);
    assert_eq!(r, Err(ClaimError::LedgerFull));
    // Nothing was evicted or truncated.
    assert_eq!(rec.history.len(), H_MAX);
    assert_eq!(rec.consecutive_count, H_MAX as u64);
}

#[test]
fn query_history_reports_the_committed_state() {
    let mut rec = fresh_record();
    submit_claim(&mut rec, &STAKE.to_string(), 3, 10, 100).unwrap();
    submit_claim(&mut rec, &STAKE.to_string(), 3, 10, 110).unwrap();
    let (count, last, history, updated_at) = rec.query_history();
    assert_eq!(count, 2);
    assert_eq!(last.as_str(), STAKE);
    assert_eq!(history, &vec![9, 9]);
    assert_eq!(updated_at, 110);
}
