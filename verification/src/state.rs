//! The persisted records of the engine: one `Market` per wagered event and
//! one `Position` per (market, user) pair, together with the fee rate and the
//! spec-level accessors their contracts are written over.

use vstd::prelude::*;

verus! {

/// An identity in the hosting platform: a user, an authority, an oracle feed
/// or a custody vault. The engine only ever compares identities for equality,
/// so a plain number stands for the platform's opaque address type.
pub type AccountId = u64;

/// The wager fee, in basis points of the staked amount.
pub const FEE_BASIS_POINTS: u64 = 100;

/// Basis points per whole: the denominator of the fee computation.
pub const BASIS_POINT_DENOMINATOR: u64 = 10000;

/// One of the three sides of a market a stake can back.
#[derive(Clone, Copy, Debug, PartialEq, Eq, Structural)]
pub enum Side {
    Home,
    Away,
    Draw,
}

/// The resolution state of a market: `Pending` until the oracle reading is
/// accepted, afterwards exactly one definite result. This tagged value is the
/// single source of truth for the outcome; no boolean view is stored besides it.
#[derive(Clone, Copy, Debug, PartialEq, Eq, Structural)]
pub enum Outcome {
    Pending,
    Home,
    Away,
    Draw,
}

impl Outcome {
    /// The side that a definite outcome pays; `Pending` pays no side.
    pub open spec fn winning_side(self) -> Option<Side> {
        match self {
            Outcome::Pending => None,
            Outcome::Home => Some(Side::Home),
            Outcome::Away => Some(Side::Away),
            Outcome::Draw => Some(Side::Draw),
        }
    }
}

/// The record of one wagered event: its administrator, descriptive metadata,
/// timing, the three side pools, the accrued fees, and its resolution state.
pub struct Market {
    /// The identity allowed to withdraw fees and to replace the oracle feed.
    pub authority: AccountId,
    /// The question the market wagers on.
    pub question: String,
    /// Label of the home team.
    pub home_team: String,
    /// Label of the away team.
    pub away_team: String,
    /// The stable key that identifies the event; markets are looked up by it.
    pub game_key: String,
    /// Wagers are accepted strictly before this time.
    pub start_time: i64,
    /// The scheduled end of the event; informational.
    pub end_time: i64,
    /// Resolution is accepted strictly after this time.
    pub resolution_time: i64,
    /// Total amount staked on the home side.
    pub pool_home: u64,
    /// Total amount staked on the away side.
    pub pool_away: u64,
    /// Total amount staked on a draw.
    pub pool_draw: u64,
    /// Fees accrued by wagers and not yet withdrawn.
    pub fees_collected: u64,
    /// Whether the oracle result has been accepted.
    pub resolved: bool,
    /// The accepted result; `Pending` exactly as long as `resolved` is false.
    pub outcome: Outcome,
    /// The raw integer code the oracle reported, retained for audit.
    pub final_result_value: i64,
    /// The identity of the external data feed this market trusts.
    pub oracle_feed: AccountId,
    /// The identity of the custody record holding the staked value.
    pub vault: AccountId,
}

impl Market {
    /// Structural invariant of a market: resolution strictly follows the
    /// start of the event, and the stored outcome is definite exactly when
    /// the market is resolved.
    pub open spec fn wf(self) -> bool {
        &&& self.start_time < self.resolution_time
        &&& self.resolved <==> self.outcome != Outcome::Pending
    }

    /// The pool accumulator of one side.
    pub open spec fn spec_pool(self, side: Side) -> u64 {
        match side {
            Side::Home => self.pool_home,
            Side::Away => self.pool_away,
            Side::Draw => self.pool_draw,
        }
    }

    /// The total staked on the market, over all three sides.
    pub open spec fn total_pool(self) -> int {
        self.pool_home + self.pool_away + self.pool_draw
    }
}

/// The stake record of one user on one market, created by the user's first
/// wager and kept forever; a record with all three stakes zero is the inert
/// trace of a completed claim.
#[derive(Clone, Copy, Debug, PartialEq, Eq, Structural)]
pub struct Position {
    /// The staking user.
    pub user: AccountId,
    /// The market staked on, as its index in the service's market list.
    pub market: usize,
    /// Amount this user staked on the home side.
    pub stake_home: u64,
    /// Amount this user staked on the away side.
    pub stake_away: u64,
    /// Amount this user staked on a draw.
    pub stake_draw: u64,
}

impl Position {
    /// The stake accumulator of one side.
    pub open spec fn spec_stake(self, side: Side) -> u64 {
        match side {
            Side::Home => self.stake_home,
            Side::Away => self.stake_away,
            Side::Draw => self.stake_draw,
        }
    }

    /// The user's total stake on the market, over all three sides.
    pub open spec fn total_stake(self) -> int {
        self.stake_home + self.stake_away + self.stake_draw
    }

    /// Whether every stake field reads zero, as after a successful claim.
    pub open spec fn is_cleared(self) -> bool {
        self.stake_home == 0 && self.stake_away == 0 && self.stake_draw == 0
    }

    /// A fresh record for `user` on `market`, with nothing staked yet.
    pub fn zeroed(user: AccountId, market: usize) -> (p: Position)
        ensures
            p.user == user,
            p.market == market,
            p.is_cleared(),
    {
        Position { user, market, stake_home: 0, stake_away: 0, stake_draw: 0 }
    }

    /// Reads the stake accumulator of one side.
    pub fn stake(&self, side: Side) -> (r: u64)
        ensures
            r == self.spec_stake(side),
    {
        match side {
            Side::Home => self.stake_home,
            Side::Away => self.stake_away,
            Side::Draw => self.stake_draw,
        }
    }
}

impl Market {
    /// Reads the pool accumulator of one side.
    pub fn pool(&self, side: Side) -> (r: u64)
        ensures
            r == self.spec_pool(side),
    {
        match side {
            Side::Home => self.pool_home,
            Side::Away => self.pool_away,
            Side::Draw => self.pool_draw,
        }
    }
}

} // verus!
