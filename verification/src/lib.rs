//! A binary-outcome (with draw) wagering ledger: users stake on one of three
//! sides of a future event; once a reading from an external data feed reports
//! the result, stakers on the winning side split the total pooled stake in
//! proportion to their stake, while the market's authority accrues a
//! basis-point fee on each wager.
//!
//! The crate is the settlement engine alone: the market lifecycle state
//! machine, pool and position accounting, oracle-result interpretation, and
//! the proportional payout computation, all of it verified. Value custody,
//! the oracle data source and the clock are external collaborators: every
//! operation takes their readings as plain values, and reports the transfer
//! it requires as its result instead of moving value itself.

pub mod claim_winnings;
pub mod collect_fees;
pub mod create_market;
pub mod errors;
pub mod oracle;
pub mod payout;
pub mod place_bet;
pub mod resolve_market;
pub mod service;
pub mod state;
pub mod sums;
pub mod update_feed;
