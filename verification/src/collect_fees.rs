//! Withdrawal of the accrued wager fees by the market's administrator. The
//! withdrawn amount is reported to the caller so the custody service can move
//! it; the accumulator is zeroed in the same step.

use vstd::prelude::*;

use crate::errors::PredictionMarketError;
use crate::state::{AccountId, Market};

verus! {

/// The caller of a fee withdrawal.
#[derive(Clone, Copy, Debug, PartialEq, Eq, Structural)]
pub struct CollectFees {
    /// The identity asking to withdraw; must be the market's administrator.
    pub authority: AccountId,
}

/// Withdraws the accrued fees of `market`. Only the market's administrator
/// may withdraw (`UnauthorizedFeeCollector` otherwise), and only a positive
/// balance can be withdrawn (`NoFeesToCollect` otherwise). On success the
/// accumulator reads zero and the withdrawn amount is returned for the
/// external transfer; nothing else of the market changes, and on failure
/// nothing changes at all.
pub fn collect_fees(market: &mut Market, accounts: &CollectFees) -> (r: Result<
    u64,
    PredictionMarketError,
>)
    ensures
        accounts.authority != old(market).authority ==> r == Err::<u64, _>(
            PredictionMarketError::UnauthorizedFeeCollector,
        ) && *final(market) == *old(market),
        accounts.authority == old(market).authority && old(market).fees_collected == 0 ==> r
            == Err::<u64, _>(PredictionMarketError::NoFeesToCollect) && *final(market) == *old(
            market,
        ),
        accounts.authority == old(market).authority && old(market).fees_collected > 0 ==> r == Ok::<
            _,
            PredictionMarketError,
        >(old(market).fees_collected) && *final(market) == (Market {
            fees_collected: 0,
            ..*old(market)
        }),
{
    if accounts.authority != market.authority {
        return Err(PredictionMarketError::UnauthorizedFeeCollector);
    }
    let fees = market.fees_collected;
    if fees == 0 {
        return Err(PredictionMarketError::NoFeesToCollect);
    }
    market.fees_collected = 0;
    Ok(fees)
}

} // verus!
