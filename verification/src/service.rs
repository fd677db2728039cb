//! The market service: the orchestrator that owns every market and every
//! position and exposes the six public operations. Its well-formedness
//! invariant carries the engine's central bookkeeping law — conservation:
//! while a market is unresolved, each side's pool equals the sum of that
//! side's stakes over all positions on the market.

use vstd::prelude::*;

use crate::claim_winnings::{claim_winnings, ClaimWinnings};
use crate::collect_fees::{collect_fees, CollectFees};
use crate::create_market::{create_market, CreateMarket};
use crate::errors::PredictionMarketError;
use crate::oracle::OracleReading;
use crate::payout::spec_winnings;
use crate::place_bet::{
    market_after_wager, place_bet, position_after_wager, spec_place_bet, PlaceBet,
};
use crate::resolve_market::{
    market_after_resolve, resolve_with_switchboard_oracle, spec_resolve, ResolveMarket,
};
use crate::state::{AccountId, Market, Position, Side};
use crate::sums::{
    lemma_stake_sum_no_match, lemma_stake_sum_push, lemma_stake_sum_update, stake_contrib,
    stake_sum,
};
use crate::update_feed::{update_oracle_feed, UpdateOracleFeed};

verus! {

/// Whether `p` is the record of `user`'s stakes on the market at index `market`.
pub open spec fn position_matches(p: Position, market: int, user: AccountId) -> bool {
    p.market == market && p.user == user
}

/// The index of the first position of `user` on the market at index `market`,
/// if the user holds one.
pub open spec fn find_index(ps: Seq<Position>, market: int, user: AccountId) -> Option<int>
    decreases ps.len(),
{
    if ps.len() == 0 {
        None
    } else if position_matches(ps[0], market, user) {
        Some(0)
    } else {
        match find_index(ps.subrange(1, ps.len() as int), market, user) {
            None => None,
            Some(j) => Some(j + 1),
        }
    }
}

/// The user's position on the market, or a fresh zero-stake record where the
/// user holds none yet: the value every operation reads its stakes from.
pub open spec fn position_or_default(ps: Seq<Position>, market: usize, user: AccountId) -> Position {
    match find_index(ps, market as int, user) {
        Some(j) => ps[j],
        None => Position { user, market, stake_home: 0, stake_away: 0, stake_draw: 0 },
    }
}

/// A match at `j` behind which no earlier index matches is what `find_index`
/// returns.
proof fn lemma_find_index_some(ps: Seq<Position>, market: int, user: AccountId, j: int)
    requires
        0 <= j < ps.len(),
        position_matches(ps[j], market, user),
        forall|k: int| 0 <= k < j ==> !position_matches(#[trigger] ps[k], market, user),
    ensures
        find_index(ps, market, user) == Some(j),
    decreases ps.len(),
{
    if j > 0 {
        lemma_find_index_some(ps.subrange(1, ps.len() as int), market, user, j - 1);
    }
}

/// Where no position matches, `find_index` finds nothing.
proof fn lemma_find_index_none(ps: Seq<Position>, market: int, user: AccountId)
    requires
        forall|k: int| 0 <= k < ps.len() ==> !position_matches(#[trigger] ps[k], market, user),
    ensures
        find_index(ps, market, user) is None,
    decreases ps.len(),
{
    if ps.len() > 0 {
        lemma_find_index_none(ps.subrange(1, ps.len() as int), market, user);
    }
}

/// Replacing a position by one with the same market and user moves no match
/// of any lookup.
proof fn lemma_find_index_update_same_key(
    ps: Seq<Position>,
    j: int,
    p2: Position,
    market: int,
    user: AccountId,
)
    requires
        0 <= j < ps.len(),
        p2.market == ps[j].market,
        p2.user == ps[j].user,
    ensures
        find_index(ps.update(j, p2), market, user) == find_index(ps, market, user),
    decreases ps.len(),
{
    let ps2 = ps.update(j, p2);
    assert(position_matches(ps2[0], market, user) == position_matches(ps[0], market, user));
    if !position_matches(ps[0], market, user) {
        if j == 0 {
            assert(ps2.subrange(1, ps2.len() as int) =~= ps.subrange(1, ps.len() as int));
        } else {
            assert(ps2.subrange(1, ps2.len() as int) =~= ps.subrange(1, ps.len() as int).update(
                j - 1,
                p2,
            ));
            lemma_find_index_update_same_key(
                ps.subrange(1, ps.len() as int),
                j - 1,
                p2,
                market,
                user,
            );
        }
    }
}

/// Claim-once across the whole ledger: a paying claim leaves the service in a
/// state where the same user's next claim on the same market is owed exactly
/// `NoWinningsToClaim`. The premises on `post` are what a successful
/// `MarketService::claim_winnings` ensures.
pub proof fn lemma_claim_pays_only_once(
    pre: MarketService,
    post: MarketService,
    market_id: usize,
    user: AccountId,
)
    requires
        market_id < pre.markets@.len(),
        spec_winnings(
            pre.markets@[market_id as int],
            position_or_default(pre.positions@, market_id, user),
        ) is Ok,
        find_index(pre.positions@, market_id as int, user) is Some,
        post.markets@ == pre.markets@,
        post.positions@ == pre.positions@.update(
            find_index(pre.positions@, market_id as int, user)->Some_0,
            (Position {
                stake_home: 0,
                stake_away: 0,
                stake_draw: 0,
                ..pre.positions@[find_index(pre.positions@, market_id as int, user)->Some_0]
            }),
        ),
    ensures
        position_or_default(post.positions@, market_id, user).is_cleared(),
        spec_winnings(
            post.markets@[market_id as int],
            position_or_default(post.positions@, market_id, user),
        ) == Err::<u64, PredictionMarketError>(PredictionMarketError::NoWinningsToClaim),
{
    let j = find_index(pre.positions@, market_id as int, user)->Some_0;
    let cleared = Position {
        stake_home: 0,
        stake_away: 0,
        stake_draw: 0,
        ..pre.positions@[j]
    };
    lemma_find_index_characterized(pre.positions@, market_id as int, user);
    lemma_find_index_update_same_key(pre.positions@, j, cleared, market_id as int, user);
    crate::payout::lemma_claim_once(
        pre.markets@[market_id as int],
        position_or_default(pre.positions@, market_id, user),
        cleared,
    );
}

/// What a found index means: it lies in range and its position matches.
proof fn lemma_find_index_characterized(ps: Seq<Position>, market: int, user: AccountId)
    requires
        find_index(ps, market, user) is Some,
    ensures
        0 <= find_index(ps, market, user)->Some_0 < ps.len(),
        position_matches(ps[find_index(ps, market, user)->Some_0], market, user),
    decreases ps.len(),
{
    if ps.len() > 0 && !position_matches(ps[0], market, user) {
        lemma_find_index_characterized(ps.subrange(1, ps.len() as int), market, user);
    }
}

/// The ledger of every market and every stake position, and the six public
/// operations of the engine.
pub struct MarketService {
    /// Every market ever created, in creation order; a market's index in this
    /// list is its identifier.
    pub markets: Vec<Market>,
    /// Every position ever created; positions are never removed, a cleared
    /// one persists as the record of a completed claim.
    pub positions: Vec<Position>,
}

impl MarketService {
    /// Every market satisfies its structural invariant.
    pub open spec fn markets_wf(self) -> bool {
        forall|i: int| 0 <= i < self.markets@.len() ==> (#[trigger] self.markets@[i]).wf()
    }

    /// No two markets share a game key, so lookup by key is unambiguous.
    pub open spec fn keys_unique(self) -> bool {
        forall|i1: int, i2: int|
            0 <= i1 < i2 < self.markets@.len() ==> (#[trigger] self.markets@[i1]).game_key@ != (
            #[trigger] self.markets@[i2]).game_key@
    }

    /// Every position points at a market that exists.
    pub open spec fn positions_bound(self) -> bool {
        forall|j: int|
            0 <= j < self.positions@.len() ==> (#[trigger] self.positions@[j]).market
                < self.markets@.len()
    }

    /// At most one position per (market, user) pair.
    pub open spec fn positions_unique(self) -> bool {
        forall|j1: int, j2: int|
            0 <= j1 < j2 < self.positions@.len() ==> !((#[trigger] self.positions@[j1]).market == (
            #[trigger] self.positions@[j2]).market && self.positions@[j1].user
                == self.positions@[j2].user)
    }

    /// Conservation: while a market is unresolved, each side's pool equals
    /// the sum of that side's stakes over all positions on the market.
    pub open spec fn conserved(self) -> bool {
        forall|i: int, s: Side|
            0 <= i < self.markets@.len() && !self.markets@[i].resolved
                ==> #[trigger] self.markets@[i].spec_pool(s) == stake_sum(self.positions@, i, s)
    }

    /// A position on an unresolved market holds a positive total stake:
    /// positions come into being through a first wager, and only a claim —
    /// which a resolved market alone can pay — clears one.
    pub open spec fn positions_active(self) -> bool {
        forall|j: int|
            0 <= j < self.positions@.len() && !self.markets@[(#[trigger] self.positions@[j]).market
                as int].resolved ==> self.positions@[j].total_stake() > 0
    }

    /// The service invariant: every operation requires it and hands it back.
    pub open spec fn wf(self) -> bool {
        &&& self.markets_wf()
        &&& self.keys_unique()
        &&& self.positions_bound()
        &&& self.positions_unique()
        &&& self.conserved()
        &&& self.positions_active()
    }

    /// An empty ledger: no markets, no positions.
    pub fn new() -> (s: Self)
        ensures
            s.wf(),
            s.markets@.len() == 0,
            s.positions@.len() == 0,
    {
        MarketService { markets: Vec::new(), positions: Vec::new() }
    }

    /// Looks a market up by its game key.
    pub fn find_market(&self, game_key: &String) -> (r: Option<usize>)
        ensures
            match r {
                Some(i) => i < self.markets@.len() && self.markets@[i as int].game_key@
                    == game_key@,
                None => forall|i: int|
                    0 <= i < self.markets@.len() ==> (#[trigger] self.markets@[i]).game_key@
                        != game_key@,
            },
    {
        let n = self.markets.len();
        let mut i: usize = 0;
        while i < n
            invariant
                n == self.markets@.len(),
                i <= n,
                forall|k: int|
                    0 <= k < i ==> (#[trigger] self.markets@[k]).game_key@ != game_key@,
            decreases n - i,
        {
            if self.markets[i].game_key == *game_key {
                return Some(i);
            }
            i = i + 1;
        }
        None
    }

    /// The index of the caller's position on a market, if one exists.
    fn find_position(&self, market_id: usize, user: AccountId) -> (r: Option<usize>)
        ensures
            match r {
                Some(j) => j < self.positions@.len() && find_index(
                    self.positions@,
                    market_id as int,
                    user,
                ) == Some(j as int) && position_matches(
                    self.positions@[j as int],
                    market_id as int,
                    user,
                ),
                None => find_index(self.positions@, market_id as int, user) is None && forall|
                    k: int,
                |
                    0 <= k < self.positions@.len() ==> !position_matches(
                        #[trigger] self.positions@[k],
                        market_id as int,
                        user,
                    ),
            },
    {
        let n = self.positions.len();
        let mut j: usize = 0;
        while j < n
            invariant
                n == self.positions@.len(),
                j <= n,
                forall|k: int|
                    0 <= k < j ==> !position_matches(
                        #[trigger] self.positions@[k],
                        market_id as int,
                        user,
                    ),
            decreases n - j,
        {
            let p = &self.positions[j];
            if p.market == market_id && p.user == user {
                proof {
                    lemma_find_index_some(self.positions@, market_id as int, user, j as int);
                }
                return Some(j);
            }
            j = j + 1;
        }
        proof {
            lemma_find_index_none(self.positions@, market_id as int, user);
        }
        None
    }

    /// Reads a market.
    pub fn market(&self, market_id: usize) -> (m: &Market)
        requires
            market_id < self.markets@.len(),
        ensures
            *m == self.markets@[market_id as int],
    {
        &self.markets[market_id]
    }

    /// Creates a market for a new event and returns its identifier. The
    /// event's game key must be unused and its start must lie strictly before
    /// its resolution time; the new market is open, with empty pools, no fees
    /// and a pending outcome, and no existing record changes.
    pub fn create_football_market(
        &mut self,
        accounts: &CreateMarket,
        question: String,
        home_team: String,
        away_team: String,
        game_key: String,
        start_time: i64,
        end_time: i64,
        resolution_time: i64,
    ) -> (market_id: usize)
        requires
            old(self).wf(),
            start_time < resolution_time,
            forall|i: int|
                0 <= i < old(self).markets@.len() ==> (#[trigger] old(
                    self,
                ).markets@[i]).game_key@ != game_key@,
        ensures
            final(self).wf(),
            market_id == old(self).markets@.len(),
            final(self).positions@ == old(self).positions@,
            final(self).markets@ == old(self).markets@.push(
                crate::create_market::spec_new_market(
                    *accounts,
                    question,
                    home_team,
                    away_team,
                    game_key,
                    start_time,
                    end_time,
                    resolution_time,
                ),
            ),
    {
        let market_id = self.markets.len();
        let m = create_market(
            accounts,
            question,
            home_team,
            away_team,
            game_key,
            start_time,
            end_time,
            resolution_time,
        );
        self.markets.push(m);
        proof {
            assert forall|s: Side| stake_sum(self.positions@, market_id as int, s) == 0 by {
                lemma_stake_sum_no_match(self.positions@, market_id as int, s);
            }
            assert forall|i: int, s: Side|
                0 <= i < self.markets@.len() && !self.markets@[i].resolved implies #[trigger] self.markets@[i].spec_pool(
                s,
            ) == stake_sum(self.positions@, i, s) by {
                if i < market_id {
                    assert(self.markets@[i] == old(self).markets@[i]);
                }
            }
        }
        market_id
    }

    /// Resolves a market from an oracle reading, exactly as `spec_resolve`
    /// states it for the market's record; positions never change, and on any
    /// failure the market does not either.
    pub fn resolve_market(
        &mut self,
        market_id: usize,
        accounts: &ResolveMarket,
        reading: &OracleReading,
    ) -> (r: Result<(), PredictionMarketError>)
        requires
            old(self).wf(),
            market_id < old(self).markets@.len(),
        ensures
            final(self).wf(),
            final(self).positions@ == old(self).positions@,
            r == spec_resolve(
                old(self).markets@[market_id as int],
                accounts.oracle_feed,
                accounts.now,
                *reading,
            ),
            r is Err ==> final(self).markets@ == old(self).markets@,
            r is Ok ==> final(self).markets@ == old(self).markets@.update(
                market_id as int,
                market_after_resolve(
                    old(self).markets@[market_id as int],
                    crate::oracle::spec_interpret(*reading)->Ok_0,
                ),
            ),
    {
        let r = resolve_with_switchboard_oracle(&mut self.markets[market_id], accounts, reading);
        proof {
            if r is Err {
                assert(self.markets@ =~= old(self).markets@);
            } else {
                assert forall|i: int, s: Side|
                    0 <= i < self.markets@.len() && !self.markets@[i].resolved implies #[trigger] self.markets@[i].spec_pool(
                    s,
                ) == stake_sum(self.positions@, i, s) by {
                    assert(self.markets@[i] == old(self).markets@[i]);
                }
            }
        }
        r
    }

    /// Withdraws a market's accrued fees, exactly as the fee-collection
    /// handler states it for the market's record: administrator only, only a
    /// positive balance, and on success only the fee accumulator changes.
    pub fn collect_fees(&mut self, market_id: usize, accounts: &CollectFees) -> (r: Result<
        u64,
        PredictionMarketError,
    >)
        requires
            old(self).wf(),
            market_id < old(self).markets@.len(),
        ensures
            final(self).wf(),
            final(self).positions@ == old(self).positions@,
            accounts.authority != old(self).markets@[market_id as int].authority ==> r == Err::<
                u64,
                _,
            >(PredictionMarketError::UnauthorizedFeeCollector) && final(self).markets@ == old(
                self,
            ).markets@,
            accounts.authority == old(self).markets@[market_id as int].authority && old(
                self,
            ).markets@[market_id as int].fees_collected == 0 ==> r == Err::<u64, _>(
                PredictionMarketError::NoFeesToCollect,
            ) && final(self).markets@ == old(self).markets@,
            accounts.authority == old(self).markets@[market_id as int].authority && old(
                self,
            ).markets@[market_id as int].fees_collected > 0 ==> r == Ok::<_, PredictionMarketError>(
                old(self).markets@[market_id as int].fees_collected,
            ) && final(self).markets@ == old(self).markets@.update(
                market_id as int,
                (Market { fees_collected: 0, ..old(self).markets@[market_id as int] }),
            ),
    {
        let r = collect_fees(&mut self.markets[market_id], accounts);
        proof {
            if r is Err {
                assert(self.markets@ =~= old(self).markets@);
            } else {
                assert forall|i: int, s: Side|
                    0 <= i < self.markets@.len() && !self.markets@[i].resolved implies #[trigger] self.markets@[i].spec_pool(
                    s,
                ) == stake_sum(self.positions@, i, s) by {
                    assert(old(self).markets@[i].spec_pool(s) == stake_sum(
                        old(self).positions@,
                        i,
                        s,
                    ));
                    if i != market_id {
                        assert(self.markets@[i] == old(self).markets@[i]);
                    }
                }
            }
        }
        r
    }

    /// Replaces a market's oracle feed, exactly as the feed-update handler
    /// states it for the market's record: administrator only, strictly before
    /// the start time, and on success only the feed reference changes.
    pub fn update_oracle_feed(&mut self, market_id: usize, accounts: &UpdateOracleFeed) -> (r:
        Result<(), PredictionMarketError>)
        requires
            old(self).wf(),
            market_id < old(self).markets@.len(),
        ensures
            final(self).wf(),
            final(self).positions@ == old(self).positions@,
            accounts.now >= old(self).markets@[market_id as int].start_time ==> r == Err::<(), _>(
                PredictionMarketError::MarketAlreadyStarted,
            ) && final(self).markets@ == old(self).markets@,
            accounts.now < old(self).markets@[market_id as int].start_time && accounts.authority
                != old(self).markets@[market_id as int].authority ==> r == Err::<(), _>(
                PredictionMarketError::UnauthorizedUpdater,
            ) && final(self).markets@ == old(self).markets@,
            accounts.now < old(self).markets@[market_id as int].start_time && accounts.authority
                == old(self).markets@[market_id as int].authority ==> r == Ok::<
                (),
                PredictionMarketError,
            >(()) && final(self).markets@ == old(self).markets@.update(
                market_id as int,
                (Market {
                    oracle_feed: accounts.new_oracle_feed,
                    ..old(self).markets@[market_id as int]
                }),
            ),
    {
        let r = update_oracle_feed(&mut self.markets[market_id], accounts);
        proof {
            if r is Err {
                assert(self.markets@ =~= old(self).markets@);
            } else {
                assert forall|i: int, s: Side|
                    0 <= i < self.markets@.len() && !self.markets@[i].resolved implies #[trigger] self.markets@[i].spec_pool(
                    s,
                ) == stake_sum(self.positions@, i, s) by {
                    assert(old(self).markets@[i].spec_pool(s) == stake_sum(
                        old(self).positions@,
                        i,
                        s,
                    ));
                    if i != market_id {
                        assert(self.markets@[i] == old(self).markets@[i]);
                    }
                }
            }
        }
        r
    }

    /// Stakes `amount` on `side` of a market for `accounts.user`, exactly as
    /// `spec_place_bet` states it for the market and the caller's position —
    /// a fresh zero-stake one where the user holds none yet. On success the
    /// market's pool and fee accumulators and the caller's stake grow
    /// together, the position being created on a first wager; on any failure
    /// nothing changes at all.
    pub fn place_bet(&mut self, market_id: usize, accounts: &PlaceBet, amount: u64, side: Side) -> (r:
        Result<u64, PredictionMarketError>)
        requires
            old(self).wf(),
            market_id < old(self).markets@.len(),
        ensures
            final(self).wf(),
            r == spec_place_bet(
                old(self).markets@[market_id as int],
                position_or_default(old(self).positions@, market_id, accounts.user),
                accounts.market_vault,
                accounts.now,
                amount,
                side,
            ),
            r is Err ==> final(self).markets@ == old(self).markets@ && final(self).positions@
                == old(self).positions@,
            r is Ok ==> final(self).markets@ == old(self).markets@.update(
                market_id as int,
                market_after_wager(old(self).markets@[market_id as int], amount, side),
            ) && final(self).positions@ == (match find_index(
                old(self).positions@,
                market_id as int,
                accounts.user,
            ) {
                Some(j) => old(self).positions@.update(
                    j,
                    position_after_wager(old(self).positions@[j], amount, side),
                ),
                None => old(self).positions@.push(
                    position_after_wager(
                        position_or_default(old(self).positions@, market_id, accounts.user),
                        amount,
                        side,
                    ),
                ),
            }),
    {
        match self.find_position(market_id, accounts.user) {
            Some(j) => {
                let mut pos = self.positions[j];
                let r = place_bet(&mut self.markets[market_id], &mut pos, accounts, amount, side);
                match r {
                    Ok(transfer) => {
                        self.positions[j] = pos;
                        proof {
                            self.lemma_wf_after_wager_update(
                                *old(self),
                                market_id,
                                accounts.user,
                                j as int,
                                amount,
                                side,
                            );
                        }
                        Ok(transfer)
                    },
                    Err(e) => {
                        proof {
                            assert(self.markets@ =~= old(self).markets@);
                        }
                        Err(e)
                    },
                }
            },
            None => {
                let mut pos = Position::zeroed(accounts.user, market_id);
                let r = place_bet(&mut self.markets[market_id], &mut pos, accounts, amount, side);
                match r {
                    Ok(transfer) => {
                        self.positions.push(pos);
                        proof {
                            self.lemma_wf_after_wager_push(
                                *old(self),
                                market_id,
                                accounts.user,
                                amount,
                                side,
                            );
                        }
                        Ok(transfer)
                    },
                    Err(e) => {
                        proof {
                            assert(self.markets@ =~= old(self).markets@);
                        }
                        Err(e)
                    },
                }
            },
        }
    }

    /// Settles the caller's position against a resolved market, exactly as
    /// `spec_winnings` states it for the market and the caller's position —
    /// a fresh zero-stake one, owed nothing, where the user holds none. Only
    /// a paying claim mutates anything: it zeroes the position's stakes, so
    /// the same user cannot be paid twice.
    pub fn claim_winnings(&mut self, market_id: usize, accounts: &ClaimWinnings) -> (r: Result<
        u64,
        PredictionMarketError,
    >)
        requires
            old(self).wf(),
            market_id < old(self).markets@.len(),
        ensures
            final(self).wf(),
            final(self).markets@ == old(self).markets@,
            r == spec_winnings(
                old(self).markets@[market_id as int],
                position_or_default(old(self).positions@, market_id, accounts.user),
            ),
            r is Err ==> final(self).positions@ == old(self).positions@,
            r is Ok ==> find_index(old(self).positions@, market_id as int, accounts.user) is Some
                && final(self).positions@ == old(self).positions@.update(
                find_index(old(self).positions@, market_id as int, accounts.user)->Some_0,
                (Position {
                    stake_home: 0,
                    stake_away: 0,
                    stake_draw: 0,
                    ..old(self).positions@[find_index(
                        old(self).positions@,
                        market_id as int,
                        accounts.user,
                    )->Some_0]
                }),
            ),
    {
        match self.find_position(market_id, accounts.user) {
            Some(j) => {
                let mut pos = self.positions[j];
                let r = claim_winnings(&self.markets[market_id], &mut pos, accounts);
                match r {
                    Ok(winnings) => {
                        self.positions[j] = pos;
                        proof {
                            self.lemma_wf_after_claim(*old(self), market_id, j as int);
                        }
                        Ok(winnings)
                    },
                    Err(e) => Err(e),
                }
            },
            None => {
                let mut pos = Position::zeroed(accounts.user, market_id);
                let r = claim_winnings(&self.markets[market_id], &mut pos, accounts);
                proof {
                    crate::payout::lemma_cleared_claims_nothing(
                        self.markets@[market_id as int],
                        position_or_default(old(self).positions@, market_id, accounts.user),
                    );
                }
                r
            },
        }
    }

    /// Well-formedness survives a wager that grows an existing position.
    proof fn lemma_wf_after_wager_update(
        &self,
        pre: MarketService,
        market_id: usize,
        user: AccountId,
        j: int,
        amount: u64,
        side: Side,
    )
        requires
            pre.wf(),
            market_id < pre.markets@.len(),
            0 <= j < pre.positions@.len(),
            position_matches(pre.positions@[j], market_id as int, user),
            !pre.markets@[market_id as int].resolved,
            pre.markets@[market_id as int].spec_pool(side) + amount <= u64::MAX,
            pre.positions@[j].spec_stake(side) + amount <= u64::MAX,
            self.markets@ == pre.markets@.update(
                market_id as int,
                market_after_wager(pre.markets@[market_id as int], amount, side),
            ),
            self.positions@ == pre.positions@.update(
                j,
                position_after_wager(pre.positions@[j], amount, side),
            ),
        ensures
            self.wf(),
    {
        let mid = market_id as int;
        let p2 = position_after_wager(pre.positions@[j], amount, side);
        assert(p2.market == pre.positions@[j].market && p2.user == pre.positions@[j].user);
        assert forall|i: int, s: Side|
            0 <= i < self.markets@.len() && !self.markets@[i].resolved implies #[trigger] self.markets@[i].spec_pool(
            s,
        ) == stake_sum(self.positions@, i, s) by {
            assert(pre.markets@[i].spec_pool(s) == stake_sum(pre.positions@, i, s));
            lemma_stake_sum_update(pre.positions@, j, p2, i, s);
            if i != mid {
                assert(self.markets@[i] == pre.markets@[i]);
                assert(stake_contrib(pre.positions@[j], i, s) == 0);
                assert(stake_contrib(p2, i, s) == 0);
            }
        }
    }

    /// Well-formedness survives a first wager that creates a position.
    proof fn lemma_wf_after_wager_push(
        &self,
        pre: MarketService,
        market_id: usize,
        user: AccountId,
        amount: u64,
        side: Side,
    )
        requires
            pre.wf(),
            market_id < pre.markets@.len(),
            forall|k: int|
                0 <= k < pre.positions@.len() ==> !position_matches(
                    #[trigger] pre.positions@[k],
                    market_id as int,
                    user,
                ),
            !pre.markets@[market_id as int].resolved,
            amount > 0,
            pre.markets@[market_id as int].spec_pool(side) + amount <= u64::MAX,
            self.markets@ == pre.markets@.update(
                market_id as int,
                market_after_wager(pre.markets@[market_id as int], amount, side),
            ),
            self.positions@ == pre.positions@.push(
                position_after_wager(
                    (Position {
                        user,
                        market: market_id,
                        stake_home: 0,
                        stake_away: 0,
                        stake_draw: 0,
                    }),
                    amount,
                    side,
                ),
            ),
        ensures
            self.wf(),
    {
        let mid = market_id as int;
        let p2 = position_after_wager(
            Position { user, market: market_id, stake_home: 0, stake_away: 0, stake_draw: 0 },
            amount,
            side,
        );
        assert(p2.market == market_id && p2.user == user);
        assert forall|i: int, s: Side|
            0 <= i < self.markets@.len() && !self.markets@[i].resolved implies #[trigger] self.markets@[i].spec_pool(
            s,
        ) == stake_sum(self.positions@, i, s) by {
            assert(pre.markets@[i].spec_pool(s) == stake_sum(pre.positions@, i, s));
            lemma_stake_sum_push(pre.positions@, p2, i, s);
            if i != mid {
                assert(stake_contrib(p2, i, s) == 0);
            }
        }
    }

    /// Well-formedness survives the clearing of one position on a resolved
    /// market.
    proof fn lemma_wf_after_claim(&self, pre: MarketService, market_id: usize, j: int)
        requires
            pre.wf(),
            market_id < pre.markets@.len(),
            0 <= j < pre.positions@.len(),
            pre.positions@[j].market == market_id,
            pre.markets@[market_id as int].resolved,
            self.markets@ == pre.markets@,
            self.positions@ == pre.positions@.update(
                j,
                (Position { stake_home: 0, stake_away: 0, stake_draw: 0, ..pre.positions@[j] }),
            ),
        ensures
            self.wf(),
    {
        let mid = market_id as int;
        let p2 = Position { stake_home: 0, stake_away: 0, stake_draw: 0, ..pre.positions@[j] };
        assert forall|i: int, s: Side|
            0 <= i < self.markets@.len() && !self.markets@[i].resolved implies #[trigger] self.markets@[i].spec_pool(
            s,
        ) == stake_sum(self.positions@, i, s) by {
            assert(pre.markets@[i].spec_pool(s) == stake_sum(pre.positions@, i, s));
            lemma_stake_sum_update(pre.positions@, j, p2, i, s);
            assert(i != mid);
            assert(stake_contrib(pre.positions@[j], i, s) == 0);
            assert(stake_contrib(p2, i, s) == 0);
        }
    }

    /// Reads the caller's position on a market, if one exists.
    pub fn position(&self, market_id: usize, user: AccountId) -> (r: Option<Position>)
        ensures
            match r {
                Some(p) => find_index(self.positions@, market_id as int, user) is Some && p
                    == position_or_default(self.positions@, market_id, user),
                None => find_index(self.positions@, market_id as int, user) is None,
            },
    {
        match self.find_position(market_id, user) {
            Some(j) => Some(self.positions[j]),
            None => None,
        }
    }
}

} // verus!
