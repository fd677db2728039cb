//! Creation of a market: a fresh record in the open state, with every pool
//! and the fee accumulator at zero and the outcome pending.

use vstd::prelude::*;

use crate::state::{AccountId, Market, Outcome};

verus! {

/// The identities a market is created with: its administrator, the external
/// data feed it will trust, and the custody record that will hold its stakes.
#[derive(Clone, Copy, Debug, PartialEq, Eq, Structural)]
pub struct CreateMarket {
    /// The creating identity; becomes the market's administrator.
    pub authority: AccountId,
    /// The oracle feed the market will accept its result from.
    pub oracle_feed: AccountId,
    /// The custody record holding the market's staked value.
    pub vault: AccountId,
}

/// The market `create_market` builds: open, nothing staked, no fees accrued,
/// outcome pending.
pub open spec fn spec_new_market(
    accounts: CreateMarket,
    question: String,
    home_team: String,
    away_team: String,
    game_key: String,
    start_time: i64,
    end_time: i64,
    resolution_time: i64,
) -> Market {
    Market {
        authority: accounts.authority,
        question: question,
        home_team: home_team,
        away_team: away_team,
        game_key: game_key,
        start_time: start_time,
        end_time: end_time,
        resolution_time: resolution_time,
        pool_home: 0,
        pool_away: 0,
        pool_draw: 0,
        fees_collected: 0,
        resolved: false,
        outcome: Outcome::Pending,
        final_result_value: 0,
        oracle_feed: accounts.oracle_feed,
        vault: accounts.vault,
    }
}

/// Builds a new market in the open state. The event must start strictly
/// before it can be resolved; a market is never created with timing that
/// could not be resolved after its start.
pub fn create_market(
    accounts: &CreateMarket,
    question: String,
    home_team: String,
    away_team: String,
    game_key: String,
    start_time: i64,
    end_time: i64,
    resolution_time: i64,
) -> (m: Market)
    requires
        start_time < resolution_time,
    ensures
        m == spec_new_market(
            *accounts,
            question,
            home_team,
            away_team,
            game_key,
            start_time,
            end_time,
            resolution_time,
        ),
        m.wf(),
{
    Market {
        authority: accounts.authority,
        question,
        home_team,
        away_team,
        game_key,
        start_time,
        end_time,
        resolution_time,
        pool_home: 0,
        pool_away: 0,
        pool_draw: 0,
        fees_collected: 0,
        resolved: false,
        outcome: Outcome::Pending,
        final_result_value: 0,
        oracle_feed: accounts.oracle_feed,
        vault: accounts.vault,
    }
}

} // verus!
