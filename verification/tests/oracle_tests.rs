use prediction_market::errors::PredictionMarketError;
use prediction_market::oracle::{interpret_reading, OracleReading};

fn reading(mantissa: i128, scale: u32) -> OracleReading {
    OracleReading { mantissa, scale }
}

#[test]
fn unfinished_code_is_rejected() {
    assert_eq!(
        interpret_reading(&reading(-1, 0)),
        Err(PredictionMarketError::MatchNotFinished)
    );
}

#[test]
fn unfinished_code_with_scale_is_rejected() {
    // -100 / 10^2 == -1
    assert_eq!(
        interpret_reading(&reading(-100, 2)),
        Err(PredictionMarketError::MatchNotFinished)
    );
}

#[test]
fn out_of_range_code_is_rejected() {
    assert_eq!(
        interpret_reading(&reading(5, 0)),
        Err(PredictionMarketError::InvalidOracleValue)
    );
}

#[test]
fn negative_code_is_rejected() {
    // -2.5 truncates toward zero to -2
    assert_eq!(
        interpret_reading(&reading(-25, 1)),
        Err(PredictionMarketError::InvalidOracleValue)
    );
}

#[test]
fn away_win_code() {
    assert_eq!(interpret_reading(&reading(0, 0)), Ok(0));
}

#[test]
fn home_win_code() {
    assert_eq!(interpret_reading(&reading(1, 0)), Ok(1));
}

#[test]
fn draw_code() {
    assert_eq!(interpret_reading(&reading(2, 0)), Ok(2));
}

#[test]
fn scaled_decimal_truncates() {
    // 1.5 truncates to 1
    assert_eq!(interpret_reading(&reading(15, 1)), Ok(1));
    // 2.999 truncates to 2
    assert_eq!(interpret_reading(&reading(2999, 3)), Ok(2));
    // 0.9 truncates to 0
    assert_eq!(interpret_reading(&reading(9, 1)), Ok(0));
}

#[test]
fn oversized_scale_is_rejected() {
    // 10^39 exceeds the 128-bit range, so the conversion itself fails
    assert_eq!(
        interpret_reading(&reading(1, 39)),
        Err(PredictionMarketError::InvalidOracleValue)
    );
    assert_eq!(
        interpret_reading(&reading(1, u32::MAX)),
        Err(PredictionMarketError::InvalidOracleValue)
    );
}

#[test]
fn extreme_mantissa_is_rejected() {
    assert_eq!(
        interpret_reading(&reading(i128::MIN, 0)),
        Err(PredictionMarketError::InvalidOracleValue)
    );
    assert_eq!(
        interpret_reading(&reading(i128::MAX, 0)),
        Err(PredictionMarketError::InvalidOracleValue)
    );
}
