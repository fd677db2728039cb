//! Claiming a payout from a resolved market. The settlement amount comes
//! from the payout calculator; on success the caller's position is zeroed in
//! the same step, so a claim can pay at most once, and the amount is returned
//! for the external transfer out of the market's vault.

use vstd::prelude::*;

use crate::errors::PredictionMarketError;
use crate::payout::{calculate_winnings, spec_winnings};
use crate::state::{AccountId, Market, Position};

verus! {

/// The caller of a claim.
#[derive(Clone, Copy, Debug, PartialEq, Eq, Structural)]
pub struct ClaimWinnings {
    /// The identity claiming; the position settled must be this user's.
    pub user: AccountId,
}

/// Settles `position` against `market`: pays what `spec_winnings` owes. A
/// position of another user is refused outright (`InvalidVault`); otherwise
/// the claim yields exactly the calculator's result, and only a paying claim
/// mutates anything — it zeroes all three stakes, which makes a second claim
/// fail with `NoWinningsToClaim`.
pub fn claim_winnings(market: &Market, position: &mut Position, accounts: &ClaimWinnings) -> (r:
    Result<u64, PredictionMarketError>)
    ensures
        accounts.user != old(position).user ==> r == Err::<u64, _>(
            PredictionMarketError::InvalidVault,
        ),
        accounts.user == old(position).user ==> r == spec_winnings(*market, *old(position)),
        r is Ok ==> *final(position) == (Position {
            stake_home: 0,
            stake_away: 0,
            stake_draw: 0,
            ..*old(position)
        }),
        r is Err ==> *final(position) == *old(position),
{
    if accounts.user != position.user {
        return Err(PredictionMarketError::InvalidVault);
    }
    let winnings = match calculate_winnings(market, position) {
        Ok(w) => w,
        Err(e) => {
            return Err(e);
        },
    };
    position.stake_home = 0;
    position.stake_away = 0;
    position.stake_draw = 0;
    Ok(winnings)
}

} // verus!
