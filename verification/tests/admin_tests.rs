use prediction_market::claim_winnings::{claim_winnings, ClaimWinnings};
use prediction_market::collect_fees::CollectFees;
use prediction_market::create_market::{create_market, CreateMarket};
use prediction_market::errors::PredictionMarketError;
use prediction_market::oracle::OracleReading;
use prediction_market::place_bet::PlaceBet;
use prediction_market::resolve_market::ResolveMarket;
use prediction_market::service::MarketService;
use prediction_market::state::{Position, Side};
use prediction_market::update_feed::UpdateOracleFeed;

const AUTHORITY: u64 = 1;
const FEED: u64 = 2;
const VAULT: u64 = 3;
const START: i64 = 100;
const END: i64 = 200;
const RESOLUTION: i64 = 300;

fn new_market(svc: &mut MarketService, game_key: &str) -> usize {
    svc.create_football_market(
        &CreateMarket { authority: AUTHORITY, oracle_feed: FEED, vault: VAULT },
        String::from("who wins?"),
        String::from("home side"),
        String::from("away side"),
        String::from(game_key),
        START,
        END,
        RESOLUTION,
    )
}

fn bet(svc: &mut MarketService, id: usize, user: u64, amount: u64, side: Side) -> Result<u64, PredictionMarketError> {
    svc.place_bet(id, &PlaceBet { user, market_vault: VAULT, now: 50 }, amount, side)
}

#[test]
fn fees_go_only_to_the_authority() {
    let mut svc = MarketService::new();
    let id = new_market(&mut svc, "game-1");
    bet(&mut svc, id, 10, 10000, Side::Home).unwrap();
    let r = svc.collect_fees(id, &CollectFees { authority: 99 });
    assert_eq!(r, Err(PredictionMarketError::UnauthorizedFeeCollector));
    assert_eq!(svc.market(id).fees_collected, 100);
}

#[test]
fn collecting_from_an_empty_accrual_fails() {
    let mut svc = MarketService::new();
    let id = new_market(&mut svc, "game-1");
    let r = svc.collect_fees(id, &CollectFees { authority: AUTHORITY });
    assert_eq!(r, Err(PredictionMarketError::NoFeesToCollect));
}

#[test]
fn collecting_zeroes_the_accrual() {
    let mut svc = MarketService::new();
    let id = new_market(&mut svc, "game-1");
    bet(&mut svc, id, 10, 10000, Side::Home).unwrap();
    bet(&mut svc, id, 11, 20000, Side::Away).unwrap();
    let r = svc.collect_fees(id, &CollectFees { authority: AUTHORITY });
    assert_eq!(r, Ok(300));
    assert_eq!(svc.market(id).fees_collected, 0);
    // pools are untouched by the withdrawal
    assert_eq!(svc.market(id).pool_home, 10000);
    assert_eq!(svc.market(id).pool_away, 20000);
    let r = svc.collect_fees(id, &CollectFees { authority: AUTHORITY });
    assert_eq!(r, Err(PredictionMarketError::NoFeesToCollect));
}

#[test]
fn fees_survive_resolution_and_remain_collectable() {
    let mut svc = MarketService::new();
    let id = new_market(&mut svc, "game-1");
    bet(&mut svc, id, 10, 10000, Side::Home).unwrap();
    svc.resolve_market(
        id,
        &ResolveMarket { oracle_feed: FEED, now: RESOLUTION + 1 },
        &OracleReading { mantissa: 1, scale: 0 },
    )
    .unwrap();
    let r = svc.collect_fees(id, &CollectFees { authority: AUTHORITY });
    assert_eq!(r, Ok(100));
}

#[test]
fn feed_update_is_barred_once_started() {
    let mut svc = MarketService::new();
    let id = new_market(&mut svc, "game-1");
    let r = svc.update_oracle_feed(
        id,
        &UpdateOracleFeed { authority: AUTHORITY, new_oracle_feed: 55, now: START },
    );
    assert_eq!(r, Err(PredictionMarketError::MarketAlreadyStarted));
    assert_eq!(svc.market(id).oracle_feed, FEED);
}

#[test]
fn feed_update_needs_the_authority() {
    let mut svc = MarketService::new();
    let id = new_market(&mut svc, "game-1");
    let r = svc.update_oracle_feed(
        id,
        &UpdateOracleFeed { authority: 99, new_oracle_feed: 55, now: 50 },
    );
    assert_eq!(r, Err(PredictionMarketError::UnauthorizedUpdater));
    assert_eq!(svc.market(id).oracle_feed, FEED);
}

#[test]
fn feed_update_redirects_resolution() {
    let mut svc = MarketService::new();
    let id = new_market(&mut svc, "game-1");
    svc.update_oracle_feed(
        id,
        &UpdateOracleFeed { authority: AUTHORITY, new_oracle_feed: 55, now: 50 },
    )
    .unwrap();
    assert_eq!(svc.market(id).oracle_feed, 55);
    // the old feed is no longer accepted
    let r = svc.resolve_market(
        id,
        &ResolveMarket { oracle_feed: FEED, now: RESOLUTION + 1 },
        &OracleReading { mantissa: 1, scale: 0 },
    );
    assert_eq!(r, Err(PredictionMarketError::InvalidFeed));
    let r = svc.resolve_market(
        id,
        &ResolveMarket { oracle_feed: 55, now: RESOLUTION + 1 },
        &OracleReading { mantissa: 1, scale: 0 },
    );
    assert_eq!(r, Ok(()));
}

#[test]
fn claim_handler_refuses_a_foreign_position() {
    let accounts = CreateMarket { authority: AUTHORITY, oracle_feed: FEED, vault: VAULT };
    let market = create_market(
        &accounts,
        String::from("who wins?"),
        String::from("home side"),
        String::from("away side"),
        String::from("game-1"),
        START,
        END,
        RESOLUTION,
    );
    let mut position = Position::zeroed(10, 0);
    let r = claim_winnings(&market, &mut position, &ClaimWinnings { user: 11 });
    assert_eq!(r, Err(PredictionMarketError::InvalidVault));
}
