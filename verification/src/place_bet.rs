//! Placing a wager: the caller stakes an amount on one side of an open
//! market. The stake is added to the side's pool and to the caller's
//! position, a basis-point fee accrues on top, and the operation reports the
//! total amount — stake plus fee — the custody service must move. Every
//! check runs before the first write, so a failing wager mutates nothing.

use vstd::prelude::*;

use crate::errors::PredictionMarketError;
use crate::state::{AccountId, Market, Position, Side, BASIS_POINT_DENOMINATOR, FEE_BASIS_POINTS};

verus! {

/// The caller and environment of a wager.
#[derive(Clone, Copy, Debug, PartialEq, Eq, Structural)]
pub struct PlaceBet {
    /// The staking identity; the position mutated must be this user's.
    pub user: AccountId,
    /// The custody record the stake is paid into; must be the market's vault.
    pub market_vault: AccountId,
    /// The externally supplied current time.
    pub now: i64,
}

/// The fee accrued by a wager of `amount`: a fixed basis-point share,
/// rounded down.
pub open spec fn spec_fee(amount: u64) -> int {
    amount * FEE_BASIS_POINTS / BASIS_POINT_DENOMINATOR as int
}

/// How a wager ends: the transfer amount (stake plus fee) it asks of the
/// custody service, or the failure that aborts it. A wager must name the
/// market's own vault (`InvalidVault`), arrive strictly before the start
/// time (`MarketAlreadyStarted`, whatever the outcome state), find the
/// market unresolved (`MarketAlreadyResolved`) and stake a positive amount
/// (`InvalidAmount`); and every accumulator it touches — the fee scaling,
/// the side's pool, the fee accrual, the caller's stake and the transfer
/// total — must stay representable, else `MathOverflow`.
pub open spec fn spec_place_bet(
    m: Market,
    p: Position,
    vault: AccountId,
    now: i64,
    amount: u64,
    side: Side,
) -> Result<u64, PredictionMarketError> {
    if vault != m.vault {
        Err(PredictionMarketError::InvalidVault)
    } else if now >= m.start_time {
        Err(PredictionMarketError::MarketAlreadyStarted)
    } else if m.resolved {
        Err(PredictionMarketError::MarketAlreadyResolved)
    } else if amount == 0 {
        Err(PredictionMarketError::InvalidAmount)
    } else if amount * FEE_BASIS_POINTS > u64::MAX {
        Err(PredictionMarketError::MathOverflow)
    } else if m.spec_pool(side) + amount > u64::MAX {
        Err(PredictionMarketError::MathOverflow)
    } else if m.fees_collected + spec_fee(amount) > u64::MAX {
        Err(PredictionMarketError::MathOverflow)
    } else if p.spec_stake(side) + amount > u64::MAX {
        Err(PredictionMarketError::MathOverflow)
    } else if amount + spec_fee(amount) > u64::MAX {
        Err(PredictionMarketError::MathOverflow)
    } else {
        Ok((amount + spec_fee(amount)) as u64)
    }
}

/// The market after a successful wager: the chosen side's pool grown by the
/// stake, the fee accrual grown by the fee, everything else untouched.
pub open spec fn market_after_wager(m: Market, amount: u64, side: Side) -> Market {
    match side {
        Side::Home => Market {
            pool_home: (m.pool_home + amount) as u64,
            fees_collected: (m.fees_collected + spec_fee(amount)) as u64,
            ..m
        },
        Side::Away => Market {
            pool_away: (m.pool_away + amount) as u64,
            fees_collected: (m.fees_collected + spec_fee(amount)) as u64,
            ..m
        },
        Side::Draw => Market {
            pool_draw: (m.pool_draw + amount) as u64,
            fees_collected: (m.fees_collected + spec_fee(amount)) as u64,
            ..m
        },
    }
}

/// The position after a successful wager: the chosen side's stake grown by
/// the staked amount, everything else untouched.
pub open spec fn position_after_wager(p: Position, amount: u64, side: Side) -> Position {
    match side {
        Side::Home => Position { stake_home: (p.stake_home + amount) as u64, ..p },
        Side::Away => Position { stake_away: (p.stake_away + amount) as u64, ..p },
        Side::Draw => Position { stake_draw: (p.stake_draw + amount) as u64, ..p },
    }
}

/// Stakes `amount` on `side` of `market` for the holder of `position`,
/// exactly as `spec_place_bet` states it: on success the market and the
/// position are updated together and the required transfer is returned; on
/// any failure neither record changes.
pub fn place_bet(
    market: &mut Market,
    position: &mut Position,
    accounts: &PlaceBet,
    amount: u64,
    side: Side,
) -> (r: Result<u64, PredictionMarketError>)
    requires
        old(position).user == accounts.user,
    ensures
        r == spec_place_bet(
            *old(market),
            *old(position),
            accounts.market_vault,
            accounts.now,
            amount,
            side,
        ),
        r is Err ==> *final(market) == *old(market) && *final(position) == *old(position),
        r is Ok ==> *final(market) == market_after_wager(*old(market), amount, side)
            && *final(position) == position_after_wager(*old(position), amount, side),
{
    if accounts.market_vault != market.vault {
        return Err(PredictionMarketError::InvalidVault);
    }
    if accounts.now >= market.start_time {
        return Err(PredictionMarketError::MarketAlreadyStarted);
    }
    if market.resolved {
        return Err(PredictionMarketError::MarketAlreadyResolved);
    }
    if amount == 0 {
        return Err(PredictionMarketError::InvalidAmount);
    }
    let scaled = match amount.checked_mul(FEE_BASIS_POINTS) {
        Some(s) => s,
        None => {
            return Err(PredictionMarketError::MathOverflow);
        },
    };
    let fee = scaled / BASIS_POINT_DENOMINATOR;
    let new_pool = match market.pool(side).checked_add(amount) {
        Some(v) => v,
        None => {
            return Err(PredictionMarketError::MathOverflow);
        },
    };
    let new_fees = match market.fees_collected.checked_add(fee) {
        Some(v) => v,
        None => {
            return Err(PredictionMarketError::MathOverflow);
        },
    };
    let new_stake = match position.stake(side).checked_add(amount) {
        Some(v) => v,
        None => {
            return Err(PredictionMarketError::MathOverflow);
        },
    };
    let transfer = match amount.checked_add(fee) {
        Some(v) => v,
        None => {
            return Err(PredictionMarketError::MathOverflow);
        },
    };
    match side {
        Side::Home => {
            market.pool_home = new_pool;
            position.stake_home = new_stake;
        },
        Side::Away => {
            market.pool_away = new_pool;
            position.stake_away = new_stake;
        },
        Side::Draw => {
            market.pool_draw = new_pool;
            position.stake_draw = new_stake;
        },
    }
    market.fees_collected = new_fees;
    Ok(transfer)
}

} // verus!
