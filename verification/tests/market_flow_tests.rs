use prediction_market::claim_winnings::ClaimWinnings;
use prediction_market::create_market::CreateMarket;
use prediction_market::errors::PredictionMarketError;
use prediction_market::oracle::OracleReading;
use prediction_market::place_bet::PlaceBet;
use prediction_market::resolve_market::ResolveMarket;
use prediction_market::service::MarketService;
use prediction_market::state::{Outcome, Side};

const AUTHORITY: u64 = 1;
const FEED: u64 = 2;
const VAULT: u64 = 3;
const START: i64 = 100;
const END: i64 = 200;
const RESOLUTION: i64 = 300;

fn new_market(svc: &mut MarketService, game_key: &str) -> usize {
    svc.create_football_market(
        &CreateMarket { authority: AUTHORITY, oracle_feed: FEED, vault: VAULT },
        String::from("who wins?"),
        String::from("home side"),
        String::from("away side"),
        String::from(game_key),
        START,
        END,
        RESOLUTION,
    )
}

fn bet(svc: &mut MarketService, id: usize, user: u64, amount: u64, side: Side) -> Result<u64, PredictionMarketError> {
    svc.place_bet(id, &PlaceBet { user, market_vault: VAULT, now: 50 }, amount, side)
}

fn resolve(svc: &mut MarketService, id: usize, mantissa: i128, scale: u32) -> Result<(), PredictionMarketError> {
    svc.resolve_market(
        id,
        &ResolveMarket { oracle_feed: FEED, now: RESOLUTION + 1 },
        &OracleReading { mantissa, scale },
    )
}

fn claim(svc: &mut MarketService, id: usize, user: u64) -> Result<u64, PredictionMarketError> {
    svc.claim_winnings(id, &ClaimWinnings { user })
}

#[test]
fn created_market_is_open_and_empty() {
    let mut svc = MarketService::new();
    let id = new_market(&mut svc, "game-1");
    let m = svc.market(id);
    assert_eq!(m.pool_home, 0);
    assert_eq!(m.pool_away, 0);
    assert_eq!(m.pool_draw, 0);
    assert_eq!(m.fees_collected, 0);
    assert!(!m.resolved);
    assert_eq!(m.outcome, Outcome::Pending);
    assert_eq!(m.authority, AUTHORITY);
    assert_eq!(m.oracle_feed, FEED);
    assert_eq!(m.vault, VAULT);
    assert_eq!(m.game_key, "game-1");
    assert_eq!(svc.find_market(&String::from("game-1")), Some(id));
    assert_eq!(svc.find_market(&String::from("game-2")), None);
}

#[test]
fn wager_updates_pool_fee_and_position() {
    let mut svc = MarketService::new();
    let id = new_market(&mut svc, "game-1");
    // fee is 100 basis points: 1%
    let transfer = bet(&mut svc, id, 10, 10000, Side::Home).unwrap();
    assert_eq!(transfer, 10100);
    let m = svc.market(id);
    assert_eq!(m.pool_home, 10000);
    assert_eq!(m.fees_collected, 100);
    let p = svc.position(id, 10).unwrap();
    assert_eq!(p.stake_home, 10000);
    assert_eq!(p.stake_away, 0);
    assert_eq!(p.stake_draw, 0);
}

#[test]
fn tiny_wager_rounds_fee_down_to_zero() {
    let mut svc = MarketService::new();
    let id = new_market(&mut svc, "game-1");
    // 99 * 100 / 10000 rounds down to 0
    let transfer = bet(&mut svc, id, 10, 99, Side::Draw).unwrap();
    assert_eq!(transfer, 99);
    assert_eq!(svc.market(id).fees_collected, 0);
    assert_eq!(svc.market(id).pool_draw, 99);
}

#[test]
fn conservation_pools_equal_stake_sums() {
    let mut svc = MarketService::new();
    let a = new_market(&mut svc, "game-a");
    let b = new_market(&mut svc, "game-b");
    bet(&mut svc, a, 10, 300, Side::Home).unwrap();
    bet(&mut svc, a, 11, 100, Side::Away).unwrap();
    bet(&mut svc, a, 10, 50, Side::Draw).unwrap();
    bet(&mut svc, a, 12, 200, Side::Home).unwrap();
    bet(&mut svc, b, 10, 70, Side::Away).unwrap();
    let users = [10u64, 11, 12];
    for (id, key) in [(a, "a"), (b, "b")] {
        let m = svc.market(id);
        let (ph, pa, pd) = (m.pool_home, m.pool_away, m.pool_draw);
        let mut sh = 0u64;
        let mut sa = 0u64;
        let mut sd = 0u64;
        for u in users {
            if let Some(p) = svc.position(id, u) {
                sh += p.stake_home;
                sa += p.stake_away;
                sd += p.stake_draw;
            }
        }
        assert_eq!((ph, pa, pd), (sh, sa, sd), "conservation broken on market {key}");
    }
}

#[test]
fn repeated_wagers_accumulate_in_one_position() {
    let mut svc = MarketService::new();
    let id = new_market(&mut svc, "game-1");
    bet(&mut svc, id, 10, 100, Side::Home).unwrap();
    bet(&mut svc, id, 10, 40, Side::Home).unwrap();
    bet(&mut svc, id, 10, 7, Side::Away).unwrap();
    let p = svc.position(id, 10).unwrap();
    assert_eq!(p.stake_home, 140);
    assert_eq!(p.stake_away, 7);
    assert_eq!(svc.market(id).pool_home, 140);
    assert_eq!(svc.market(id).pool_away, 7);
}

#[test]
fn wager_at_or_after_start_fails() {
    let mut svc = MarketService::new();
    let id = new_market(&mut svc, "game-1");
    let r = svc.place_bet(id, &PlaceBet { user: 10, market_vault: VAULT, now: START }, 100, Side::Home);
    assert_eq!(r, Err(PredictionMarketError::MarketAlreadyStarted));
    let r = svc.place_bet(id, &PlaceBet { user: 10, market_vault: VAULT, now: START + 5 }, 100, Side::Home);
    assert_eq!(r, Err(PredictionMarketError::MarketAlreadyStarted));
    assert_eq!(svc.market(id).pool_home, 0);
    assert!(svc.position(id, 10).is_none());
}

#[test]
fn wager_after_start_fails_even_when_resolved() {
    let mut svc = MarketService::new();
    let id = new_market(&mut svc, "game-1");
    resolve(&mut svc, id, 1, 0).unwrap();
    let r = svc.place_bet(id, &PlaceBet { user: 10, market_vault: VAULT, now: START + 5 }, 100, Side::Home);
    assert_eq!(r, Err(PredictionMarketError::MarketAlreadyStarted));
}

#[test]
fn wager_on_resolved_market_fails() {
    let mut svc = MarketService::new();
    let id = new_market(&mut svc, "game-1");
    resolve(&mut svc, id, 1, 0).unwrap();
    // the caller's clock may lag behind the start time; resolution still bars the wager
    let r = bet(&mut svc, id, 10, 100, Side::Home);
    assert_eq!(r, Err(PredictionMarketError::MarketAlreadyResolved));
}

#[test]
fn zero_wager_fails() {
    let mut svc = MarketService::new();
    let id = new_market(&mut svc, "game-1");
    assert_eq!(bet(&mut svc, id, 10, 0, Side::Home), Err(PredictionMarketError::InvalidAmount));
}

#[test]
fn wager_into_wrong_vault_fails() {
    let mut svc = MarketService::new();
    let id = new_market(&mut svc, "game-1");
    let r = svc.place_bet(id, &PlaceBet { user: 10, market_vault: VAULT + 1, now: 50 }, 100, Side::Home);
    assert_eq!(r, Err(PredictionMarketError::InvalidVault));
}

#[test]
fn oversized_wager_fails_and_mutates_nothing() {
    let mut svc = MarketService::new();
    let id = new_market(&mut svc, "game-1");
    bet(&mut svc, id, 10, 500, Side::Home).unwrap();
    // scaling this amount by the fee rate exceeds the 64-bit range
    let r = bet(&mut svc, id, 10, u64::MAX / 50, Side::Home);
    assert_eq!(r, Err(PredictionMarketError::MathOverflow));
    assert_eq!(svc.market(id).pool_home, 500);
    assert_eq!(svc.market(id).fees_collected, 5);
    assert_eq!(svc.position(id, 10).unwrap().stake_home, 500);
}

#[test]
fn resolve_before_resolution_time_fails() {
    let mut svc = MarketService::new();
    let id = new_market(&mut svc, "game-1");
    let r = svc.resolve_market(
        id,
        &ResolveMarket { oracle_feed: FEED, now: RESOLUTION },
        &OracleReading { mantissa: 1, scale: 0 },
    );
    assert_eq!(r, Err(PredictionMarketError::TooEarlyToResolve));
    assert!(!svc.market(id).resolved);
}

#[test]
fn resolve_from_wrong_feed_fails() {
    let mut svc = MarketService::new();
    let id = new_market(&mut svc, "game-1");
    let r = svc.resolve_market(
        id,
        &ResolveMarket { oracle_feed: FEED + 9, now: RESOLUTION + 1 },
        &OracleReading { mantissa: 1, scale: 0 },
    );
    assert_eq!(r, Err(PredictionMarketError::InvalidFeed));
    assert!(!svc.market(id).resolved);
}

#[test]
fn resolve_with_unfinished_reading_fails() {
    let mut svc = MarketService::new();
    let id = new_market(&mut svc, "game-1");
    assert_eq!(resolve(&mut svc, id, -1, 0), Err(PredictionMarketError::MatchNotFinished));
    assert!(!svc.market(id).resolved);
    assert_eq!(svc.market(id).outcome, Outcome::Pending);
}

#[test]
fn resolve_with_invalid_reading_fails() {
    let mut svc = MarketService::new();
    let id = new_market(&mut svc, "game-1");
    assert_eq!(resolve(&mut svc, id, 5, 0), Err(PredictionMarketError::InvalidOracleValue));
    assert!(!svc.market(id).resolved);
    assert_eq!(resolve(&mut svc, id, 7, 40), Err(PredictionMarketError::InvalidOracleValue));
    assert!(!svc.market(id).resolved);
}

#[test]
fn resolve_records_each_outcome() {
    let mut svc = MarketService::new();
    let home = new_market(&mut svc, "game-h");
    let away = new_market(&mut svc, "game-a");
    let draw = new_market(&mut svc, "game-d");
    // 1.5 truncates to the home-win code
    resolve(&mut svc, home, 15, 1).unwrap();
    assert!(svc.market(home).resolved);
    assert_eq!(svc.market(home).outcome, Outcome::Home);
    assert_eq!(svc.market(home).final_result_value, 1);
    resolve(&mut svc, away, 0, 0).unwrap();
    assert_eq!(svc.market(away).outcome, Outcome::Away);
    assert_eq!(svc.market(away).final_result_value, 0);
    resolve(&mut svc, draw, 2000, 3).unwrap();
    assert_eq!(svc.market(draw).outcome, Outcome::Draw);
    assert_eq!(svc.market(draw).final_result_value, 2);
}

#[test]
fn resolving_twice_fails_and_changes_nothing() {
    let mut svc = MarketService::new();
    let id = new_market(&mut svc, "game-1");
    bet(&mut svc, id, 10, 300, Side::Home).unwrap();
    resolve(&mut svc, id, 1, 0).unwrap();
    let r = resolve(&mut svc, id, 2, 0);
    assert_eq!(r, Err(PredictionMarketError::MarketAlreadyResolved));
    let m = svc.market(id);
    assert_eq!(m.outcome, Outcome::Home);
    assert_eq!(m.final_result_value, 1);
    assert_eq!(m.pool_home, 300);
}

#[test]
fn home_win_pays_proportionally() {
    let mut svc = MarketService::new();
    let id = new_market(&mut svc, "game-1");
    bet(&mut svc, id, 10, 270, Side::Home).unwrap();
    bet(&mut svc, id, 11, 30, Side::Home).unwrap();
    bet(&mut svc, id, 12, 100, Side::Away).unwrap();
    resolve(&mut svc, id, 1, 0).unwrap();
    // pool: home 300, away 100, draw 0; total 400
    assert_eq!(claim(&mut svc, id, 11), Ok(30 * 400 / 300));
    assert_eq!(claim(&mut svc, id, 11).unwrap_err(), PredictionMarketError::NoWinningsToClaim);
    assert_eq!(claim(&mut svc, id, 10), Ok(360));
    // the away staker forfeits in full
    assert_eq!(claim(&mut svc, id, 12), Err(PredictionMarketError::NoWinningsToClaim));
}

#[test]
fn draw_pays_draw_stakers_only() {
    let mut svc = MarketService::new();
    let id = new_market(&mut svc, "game-1");
    bet(&mut svc, id, 10, 100, Side::Home).unwrap();
    bet(&mut svc, id, 11, 100, Side::Away).unwrap();
    bet(&mut svc, id, 12, 50, Side::Draw).unwrap();
    resolve(&mut svc, id, 2, 0).unwrap();
    // pool: home 100, away 100, draw 50; total 250
    assert_eq!(claim(&mut svc, id, 12), Ok(50 * 250 / 50));
    assert_eq!(claim(&mut svc, id, 10), Err(PredictionMarketError::NoWinningsToClaim));
}

#[test]
fn claim_before_resolution_fails() {
    let mut svc = MarketService::new();
    let id = new_market(&mut svc, "game-1");
    bet(&mut svc, id, 10, 100, Side::Home).unwrap();
    assert_eq!(claim(&mut svc, id, 10), Err(PredictionMarketError::MarketNotResolved));
    assert_eq!(svc.position(id, 10).unwrap().stake_home, 100);
}

#[test]
fn claim_pays_once_and_clears_the_position() {
    let mut svc = MarketService::new();
    let id = new_market(&mut svc, "game-1");
    bet(&mut svc, id, 10, 300, Side::Home).unwrap();
    bet(&mut svc, id, 11, 100, Side::Away).unwrap();
    resolve(&mut svc, id, 1, 0).unwrap();
    assert_eq!(claim(&mut svc, id, 10), Ok(400));
    let p = svc.position(id, 10).unwrap();
    assert_eq!((p.stake_home, p.stake_away, p.stake_draw), (0, 0, 0));
    assert_eq!(claim(&mut svc, id, 10), Err(PredictionMarketError::NoWinningsToClaim));
}

#[test]
fn claim_without_position_fails() {
    let mut svc = MarketService::new();
    let id = new_market(&mut svc, "game-1");
    bet(&mut svc, id, 10, 300, Side::Home).unwrap();
    resolve(&mut svc, id, 1, 0).unwrap();
    assert_eq!(claim(&mut svc, id, 99), Err(PredictionMarketError::NoWinningsToClaim));
    assert!(svc.position(id, 99).is_none());
}

#[test]
fn draw_with_empty_draw_pool_fails_with_overflow_guard() {
    let mut svc = MarketService::new();
    let id = new_market(&mut svc, "game-1");
    bet(&mut svc, id, 10, 100, Side::Home).unwrap();
    resolve(&mut svc, id, 2, 0).unwrap();
    assert_eq!(claim(&mut svc, id, 10), Err(PredictionMarketError::MathOverflow));
    // the guard aborts the claim without touching the stake
    assert_eq!(svc.position(id, 10).unwrap().stake_home, 100);
}
