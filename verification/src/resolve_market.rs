//! Resolution of a market from an oracle reading: the one-time transition
//! from the pending outcome to a definite one. Resolution is accepted only
//! from the market's own feed, only after the resolution time, and only once;
//! the raw code is retained for audit.

use vstd::prelude::*;

use crate::errors::PredictionMarketError;
use crate::oracle::{interpret_reading, outcome_for_code, spec_interpret, OracleReading};
use crate::state::{AccountId, Market, Outcome};

verus! {

/// The environment of a resolution: which feed supplied the reading, and when.
#[derive(Clone, Copy, Debug, PartialEq, Eq, Structural)]
pub struct ResolveMarket {
    /// The identity of the feed the reading came from; must be the market's.
    pub oracle_feed: AccountId,
    /// The externally supplied current time.
    pub now: i64,
}

/// How a resolution ends. The reading must come from the market's own feed
/// (`InvalidFeed`), strictly after the resolution time (`TooEarlyToResolve`),
/// on a market not yet resolved (`MarketAlreadyResolved`); and the reading
/// itself must interpret to a definite outcome, else its own failure aborts
/// the resolution.
pub open spec fn spec_resolve(
    m: Market,
    feed: AccountId,
    now: i64,
    reading: OracleReading,
) -> Result<(), PredictionMarketError> {
    if feed != m.oracle_feed {
        Err(PredictionMarketError::InvalidFeed)
    } else if now <= m.resolution_time {
        Err(PredictionMarketError::TooEarlyToResolve)
    } else if m.resolved {
        Err(PredictionMarketError::MarketAlreadyResolved)
    } else {
        match spec_interpret(reading) {
            Ok(_) => Ok(()),
            Err(e) => Err(e),
        }
    }
}

/// The market after a successful resolution with code `code`: resolved, with
/// the outcome the code names and the raw code on record; pools, fees,
/// timing, identities and metadata untouched.
pub open spec fn market_after_resolve(m: Market, code: i64) -> Market {
    Market {
        resolved: true,
        outcome: outcome_for_code(code as int)->Some_0,
        final_result_value: code,
        ..m
    }
}

/// Resolves `market` from `reading`, exactly as `spec_resolve` states it: on
/// success the outcome the reading names is recorded and the pools freeze;
/// on any failure — a wrong feed, a premature or repeated resolution, an
/// unfinished event or an invalid reading — the market does not change.
pub fn resolve_with_switchboard_oracle(
    market: &mut Market,
    accounts: &ResolveMarket,
    reading: &OracleReading,
) -> (r: Result<(), PredictionMarketError>)
    ensures
        r == spec_resolve(*old(market), accounts.oracle_feed, accounts.now, *reading),
        r is Err ==> *final(market) == *old(market),
        r is Ok ==> *final(market) == market_after_resolve(
            *old(market),
            spec_interpret(*reading)->Ok_0,
        ),
        old(market).wf() ==> final(market).wf(),
{
    if accounts.oracle_feed != market.oracle_feed {
        return Err(PredictionMarketError::InvalidFeed);
    }
    if accounts.now <= market.resolution_time {
        return Err(PredictionMarketError::TooEarlyToResolve);
    }
    if market.resolved {
        return Err(PredictionMarketError::MarketAlreadyResolved);
    }
    let code = match interpret_reading(reading) {
        Ok(code) => code,
        Err(e) => {
            return Err(e);
        },
    };
    let outcome = if code == 0 {
        Outcome::Away
    } else if code == 1 {
        Outcome::Home
    } else {
        Outcome::Draw
    };
    market.resolved = true;
    market.outcome = outcome;
    market.final_result_value = code;
    Ok(())
}

} // verus!
