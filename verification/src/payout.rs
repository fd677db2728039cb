//! The payout calculator: a pure mapping from a resolved market and a stake
//! position to the amount the position is owed. Winners split the whole pool
//! in proportion to their stake on the winning side; every stake on another
//! side is forfeited in full.

use vstd::prelude::*;
use vstd::arithmetic::div_mod::lemma_div_of0;

use crate::errors::PredictionMarketError;
use crate::state::{Market, Outcome, Position, Side};

verus! {

/// What a claim against `m` by the holder of `p` yields.
///
/// An unresolved market owes nothing (`MarketNotResolved`). On a resolved
/// market the winning side's pool must be positive and the payout arithmetic
/// must stay within the representable range, else the claim fails with
/// `MathOverflow`. The payout is `stake * total / pool`, multiplied before
/// dividing to preserve precision, over the stake and pool of the winning
/// side and the total of all three pools. A zero payout — in particular any
/// position without a stake on the winning side — fails with
/// `NoWinningsToClaim`.
pub open spec fn spec_winnings(m: Market, p: Position) -> Result<u64, PredictionMarketError> {
    match m.outcome.winning_side() {
        None => Err(PredictionMarketError::MarketNotResolved),
        Some(side) => {
            if !m.resolved {
                Err(PredictionMarketError::MarketNotResolved)
            } else if m.spec_pool(side) == 0 {
                Err(PredictionMarketError::MathOverflow)
            } else if m.total_pool() > u64::MAX {
                Err(PredictionMarketError::MathOverflow)
            } else if p.spec_stake(side) * m.total_pool() > u64::MAX {
                Err(PredictionMarketError::MathOverflow)
            } else if p.spec_stake(side) * m.total_pool() / m.spec_pool(side) as int == 0 {
                Err(PredictionMarketError::NoWinningsToClaim)
            } else {
                Ok((p.spec_stake(side) * m.total_pool() / m.spec_pool(side) as int) as u64)
            }
        },
    }
}

/// Computes the settlement amount of `position` against `market`, exactly as
/// `spec_winnings` states it. Pure: no field of either record is written.
pub fn calculate_winnings(market: &Market, position: &Position) -> (r: Result<
    u64,
    PredictionMarketError,
>)
    ensures
        r == spec_winnings(*market, *position),
{
    if !market.resolved {
        return Err(PredictionMarketError::MarketNotResolved);
    }
    let side = match market.outcome {
        Outcome::Pending => {
            return Err(PredictionMarketError::MarketNotResolved);
        },
        Outcome::Home => Side::Home,
        Outcome::Away => Side::Away,
        Outcome::Draw => Side::Draw,
    };
    let winning_pool = market.pool(side);
    if winning_pool == 0 {
        return Err(PredictionMarketError::MathOverflow);
    }
    let total = match market.pool_home.checked_add(market.pool_away) {
        Some(t) => t,
        None => {
            return Err(PredictionMarketError::MathOverflow);
        },
    };
    let total = match total.checked_add(market.pool_draw) {
        Some(t) => t,
        None => {
            return Err(PredictionMarketError::MathOverflow);
        },
    };
    let scaled = match position.stake(side).checked_mul(total) {
        Some(s) => s,
        None => {
            return Err(PredictionMarketError::MathOverflow);
        },
    };
    let winnings = scaled / winning_pool;
    if winnings == 0 {
        Err(PredictionMarketError::NoWinningsToClaim)
    } else {
        Ok(winnings)
    }
}

/// A position with nothing staked is owed nothing: a claim on it fails,
/// whatever the market's state.
pub proof fn lemma_cleared_claims_nothing(m: Market, cleared: Position)
    requires
        cleared.is_cleared(),
    ensures
        spec_winnings(m, cleared) is Err,
{
    match m.outcome.winning_side() {
        None => {},
        Some(side) => {
            assert(cleared.spec_stake(side) == 0);
            if m.resolved && m.spec_pool(side) != 0 && m.total_pool() <= u64::MAX {
                assert(cleared.spec_stake(side) * m.total_pool() == 0);
                lemma_div_of0(m.spec_pool(side) as int);
            }
        },
    }
}

/// Claim-once: once a claim against `m` has paid out and the position's
/// stakes are cleared, any further claim by the same holder fails with
/// `NoWinningsToClaim`.
pub proof fn lemma_claim_once(m: Market, p: Position, cleared: Position)
    requires
        spec_winnings(m, p) is Ok,
        cleared.is_cleared(),
    ensures
        spec_winnings(m, cleared) == Err::<u64, PredictionMarketError>(
            PredictionMarketError::NoWinningsToClaim,
        ),
{
    let side = m.outcome.winning_side()->Some_0;
    assert(cleared.spec_stake(side) == 0);
    lemma_div_of0(m.spec_pool(side) as int);
}

} // verus!
