//! ActivityCatalog: the fixed table of known activities and their base
//! rewards.
//!
//! Base rewards are fractional amounts of a reward unit; the catalog stores
//! them as integers in hundredths of a unit, so an activity worth 0.05 units
//! has a base reward of 5.

use vstd::prelude::*;

verus! {

/// Denominator of the catalog's fixed-point base rewards: a stored base
/// reward of `b` stands for `b / BASE_DENOM` reward units.
pub const BASE_DENOM: u64 = 100;

/// Largest base reward in the catalog, in hundredths of a reward unit.
pub const MAX_BASE: u64 = 10;

/// Upper bound on the length of any activity identifier in the catalog.
pub const ACTIVITY_NAME_MAX: usize = 64;

/// Base reward of an activity in hundredths of a reward unit, or `None` when
/// the identifier is not in the catalog.
pub open spec fn base_of(activity: Seq<char>) -> Option<u64> {
    if activity == "Check-in"@ {
        Some(1u64)
    } else if activity == "View Analytics"@ {
        Some(1u64)
    } else if activity == "Vote in a Poll"@ {
        Some(1u64)
    } else if activity == "Subscribe to a Smart Contract"@ {
        Some(1u64)
    } else if activity == "Leave Feedback on a dApp"@ {
        Some(1u64)
    } else if activity == "Complete a Profile Setup"@ {
        Some(1u64)
    } else if activity == "Cast a Vote"@ {
        Some(5u64)
    } else if activity == "Send a Message"@ {
        Some(5u64)
    } else if activity == "Refer a User"@ {
        Some(5u64)
    } else if activity == "Complete a Tutorial on Solana Usage"@ {
        Some(5u64)
    } else if activity == "Test a Beta Feature on a dApp"@ {
        Some(5u64)
    } else if activity == "Review a Smart Contract's Code"@ {
        Some(5u64)
    } else if activity == "Deploy a Sample Smart Contract"@ {
        Some(10u64)
    } else if activity == "Stake SOL for at Least 7 Days"@ {
        Some(10u64)
    } else if activity == "Mint and Transfer an NFT"@ {
        Some(10u64)
    } else if activity == "Provide Liquidity to a Protocol"@ {
        Some(10u64)
    } else if activity == "Run a Validator Node for 24 Hours"@ {
        Some(10u64)
    } else if activity == "Contribute Code to an Open-Source Project"@ {
        Some(10u64)
    } else {
        None
    }
}

/// Every activity identifier in the catalog has a bounded length.
pub proof fn lemma_catalog_name_bounded(activity: Seq<char>)
    requires
        base_of(activity) is Some,
    ensures
        activity.len() <= ACTIVITY_NAME_MAX,
{
    reveal_strlit("Check-in");
    reveal_strlit("View Analytics");
    reveal_strlit("Vote in a Poll");
    reveal_strlit("Subscribe to a Smart Contract");
    reveal_strlit("Leave Feedback on a dApp");
    reveal_strlit("Complete a Profile Setup");
    reveal_strlit("Cast a Vote");
    reveal_strlit("Send a Message");
    reveal_strlit("Refer a User");
    reveal_strlit("Complete a Tutorial on Solana Usage");
    reveal_strlit("Test a Beta Feature on a dApp");
    reveal_strlit("Review a Smart Contract's Code");
    reveal_strlit("Deploy a Sample Smart Contract");
    reveal_strlit("Stake SOL for at Least 7 Days");
    reveal_strlit("Mint and Transfer an NFT");
    reveal_strlit("Provide Liquidity to a Protocol");
    reveal_strlit("Run a Validator Node for 24 Hours");
    reveal_strlit("Contribute Code to an Open-Source Project");
}

/// Whether `activity` equals the catalog key `name`.
fn activity_is(activity: &String, name: &str) -> (r: bool)
    ensures
        r == (activity@ == name@),
{
    *activity == name.to_owned()
}

/// Looks an activity up in the catalog and returns its base reward in
/// hundredths of a reward unit, or `None` for an unknown identifier.
pub fn lookup(activity: &String) -> (r: Option<u64>)
    ensures
        r == base_of(activity@),
        r matches Some(base) ==> 1 <= base && base <= MAX_BASE,
{
    if activity_is(activity, "Check-in") {
        Some(1)
    } else if activity_is(activity, "View Analytics") {
        Some(1)
    } else if activity_is(activity, "Vote in a Poll") {
        Some(1)
    } else if activity_is(activity, "Subscribe to a Smart Contract") {
        Some(1)
    } else if activity_is(activity, "Leave Feedback on a dApp") {
        Some(1)
    } else if activity_is(activity, "Complete a Profile Setup") {
        Some(1)
    } else if activity_is(activity, "Cast a Vote") {
        Some(5)
    } else if activity_is(activity, "Send a Message") {
        Some(5)
    } else if activity_is(activity, "Refer a User") {
        Some(5)
    } else if activity_is(activity, "Complete a Tutorial on Solana Usage") {
        Some(5)
    } else if activity_is(activity, "Test a Beta Feature on a dApp") {
        Some(5)
    } else if activity_is(activity, "Review a Smart Contract's Code") {
        Some(5)
    } else if activity_is(activity, "Deploy a Sample Smart Contract") {
        Some(10)
    } else if activity_is(activity, "Stake SOL for at Least 7 Days") {
        Some(10)
    } else if activity_is(activity, "Mint and Transfer an NFT") {
        Some(10)
    } else if activity_is(activity, "Provide Liquidity to a Protocol") {
        Some(10)
    } else if activity_is(activity, "Run a Validator Node for 24 Hours") {
        Some(10)
    } else if activity_is(activity, "Contribute Code to an Open-Source Project") {
        Some(10)
    } else {
        None
    }
}

} // verus!
