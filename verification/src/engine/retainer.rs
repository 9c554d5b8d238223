//! Retainers' share of experience and their loyalty after a fight.
use vstd::prelude::*;

use crate::dice::random_between;
use crate::engine::combat::results::RetainerLoyaltyOutcome;

verus! {

/// A retainer's share of the experience of a fight: half of it.
pub open spec fn retainer_share_of(total_xp: u64) -> u64 {
    total_xp / 2
}

/// Experience each surviving retainer earns from a fight worth `total_xp`.
pub fn retainer_xp_share(total_xp: u64) -> (r: u64)
    ensures
        r == retainer_share_of(total_xp),
{
    total_xp / 2
}

/// Outcome of a loyalty roll on 2d6: loyal at or below the loyalty score,
/// wavering up to two above it, disloyal beyond.
pub open spec fn loyalty_outcome_of(roll: int, loyalty: int) -> RetainerLoyaltyOutcome {
    if roll <= loyalty {
        RetainerLoyaltyOutcome::Loyal
    } else if roll <= loyalty + 2 {
        RetainerLoyaltyOutcome::Wavering
    } else {
        RetainerLoyaltyOutcome::Disloyal
    }
}

pub fn loyalty_outcome(roll: u32, loyalty: u32) -> (r: RetainerLoyaltyOutcome)
    ensures
        r == loyalty_outcome_of(roll as int, loyalty as int),
{
    if roll as u64 <= loyalty as u64 {
        RetainerLoyaltyOutcome::Loyal
    } else if roll as u64 <= loyalty as u64 + 2 {
        RetainerLoyaltyOutcome::Wavering
    } else {
        RetainerLoyaltyOutcome::Disloyal
    }
}

/// Rolls a loyalty check (2d6) for a retainer with the given loyalty.
pub fn loyalty_check(loyalty: u32) -> (r: (u32, RetainerLoyaltyOutcome))
    ensures
        2 <= r.0 <= 12,
        r.1 == loyalty_outcome_of(r.0 as int, loyalty as int),
{
    let roll = random_between(1, 6) + random_between(1, 6);
    (roll, loyalty_outcome(roll, loyalty))
}

} // verus!
