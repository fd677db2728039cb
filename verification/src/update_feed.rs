//! Replacement of a market's oracle feed by its administrator. The feed is
//! immutable from the moment the market stops accepting wagers: it can only
//! be replaced strictly before the start time.

use vstd::prelude::*;

use crate::errors::PredictionMarketError;
use crate::state::{AccountId, Market};

verus! {

/// The caller and argument of a feed replacement.
#[derive(Clone, Copy, Debug, PartialEq, Eq, Structural)]
pub struct UpdateOracleFeed {
    /// The identity asking to replace the feed; must be the administrator.
    pub authority: AccountId,
    /// The feed the market shall trust from now on.
    pub new_oracle_feed: AccountId,
    /// The externally supplied current time.
    pub now: i64,
}

/// Replaces the oracle feed of `market`. Fails with `MarketAlreadyStarted`
/// once the start time has been reached and with `UnauthorizedUpdater` for
/// any caller but the administrator. On success exactly the feed reference
/// changes; on failure nothing does.
pub fn update_oracle_feed(market: &mut Market, accounts: &UpdateOracleFeed) -> (r: Result<
    (),
    PredictionMarketError,
>)
    ensures
        accounts.now >= old(market).start_time ==> r == Err::<(), _>(
            PredictionMarketError::MarketAlreadyStarted,
        ) && *final(market) == *old(market),
        accounts.now < old(market).start_time && accounts.authority != old(market).authority ==> r
            == Err::<(), _>(PredictionMarketError::UnauthorizedUpdater) && *final(market) == *old(
            market,
        ),
        accounts.now < old(market).start_time && accounts.authority == old(market).authority ==> r
            == Ok::<(), PredictionMarketError>(()) && *final(market) == (Market {
            oracle_feed: accounts.new_oracle_feed,
            ..*old(market)
        }),
{
    if accounts.now >= market.start_time {
        return Err(PredictionMarketError::MarketAlreadyStarted);
    }
    if accounts.authority != market.authority {
        return Err(PredictionMarketError::UnauthorizedUpdater);
    }
    market.oracle_feed = accounts.new_oracle_feed;
    Ok(())
}

} // verus!
