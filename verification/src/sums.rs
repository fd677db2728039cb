//! Summation of stakes over a sequence of positions, and how the sums move
//! under the operations the service performs on that sequence. These are the
//! tools behind the conservation invariant: each side's pool equals the sum
//! of that side's stakes across all positions of the market.

use vstd::prelude::*;

use crate::state::{Position, Side};

verus! {

/// What one position contributes to the pool of `side` of the market at
/// index `market`: its stake on that side, or zero for another market.
pub open spec fn stake_contrib(p: Position, market: int, side: Side) -> int {
    if p.market == market {
        p.spec_stake(side) as int
    } else {
        0
    }
}

/// The total staked on `side` of the market at index `market`, summed over
/// all positions of the sequence.
pub open spec fn stake_sum(ps: Seq<Position>, market: int, side: Side) -> int
    decreases ps.len(),
{
    if ps.len() == 0 {
        0
    } else {
        stake_sum(ps.drop_last(), market, side) + stake_contrib(ps.last(), market, side)
    }
}

/// Appending a position grows the sum by exactly its contribution.
pub proof fn lemma_stake_sum_push(ps: Seq<Position>, p: Position, market: int, side: Side)
    ensures
        stake_sum(ps.push(p), market, side) == stake_sum(ps, market, side) + stake_contrib(
            p,
            market,
            side,
        ),
{
    assert(ps.push(p).drop_last() =~= ps);
}

/// Replacing the position at `i` moves the sum by the difference of the new
/// and the old contribution.
pub proof fn lemma_stake_sum_update(
    ps: Seq<Position>,
    i: int,
    p: Position,
    market: int,
    side: Side,
)
    requires
        0 <= i < ps.len(),
    ensures
        stake_sum(ps.update(i, p), market, side) == stake_sum(ps, market, side) - stake_contrib(
            ps[i],
            market,
            side,
        ) + stake_contrib(p, market, side),
    decreases ps.len(),
{
    if i == ps.len() - 1 {
        assert(ps.update(i, p).drop_last() =~= ps.drop_last());
        assert(ps.update(i, p).last() == p);
    } else {
        assert(ps.update(i, p).drop_last() =~= ps.drop_last().update(i, p));
        assert(ps.update(i, p).last() == ps.last());
        lemma_stake_sum_update(ps.drop_last(), i, p, market, side);
    }
}

/// A market no position names collects an empty sum.
pub proof fn lemma_stake_sum_no_match(ps: Seq<Position>, market: int, side: Side)
    requires
        forall|j: int| 0 <= j < ps.len() ==> (#[trigger] ps[j]).market != market,
    ensures
        stake_sum(ps, market, side) == 0,
    decreases ps.len(),
{
    if ps.len() > 0 {
        lemma_stake_sum_no_match(ps.drop_last(), market, side);
    }
}

} // verus!
