//! Interpretation of a reading from the external data feed. The feed reports
//! a decimal number as an integer mantissa with a base-ten scale; the engine
//! truncates it to a signed integer code and accepts only the codes that name
//! a finished event: `0` for an away win, `1` for a home win, `2` for a draw.
//! This mapping is the single source of truth for a market's outcome.

use vstd::prelude::*;
use vstd::arithmetic::div_mod::{lemma_div_nonincreasing, lemma_div_of0, lemma_div_pos_is_pos};

use crate::errors::PredictionMarketError;
use crate::state::Outcome;

verus! {

/// One reading of the external feed: the decimal `mantissa / 10^scale`.
#[derive(Clone, Copy, Debug, PartialEq, Eq, Structural)]
pub struct OracleReading {
    /// The integer mantissa of the reported decimal.
    pub mantissa: i128,
    /// The base-ten scale the mantissa is divided by.
    pub scale: u32,
}

/// Ten to the power `e`.
pub open spec fn pow10(e: nat) -> int
    decreases e,
{
    if e == 0 {
        1
    } else {
        10 * pow10((e - 1) as nat)
    }
}

/// Division truncated toward zero, for a positive divisor: the value the
/// platform's integer division of the mantissa computes.
pub open spec fn truncated_div(x: int, d: int) -> int {
    if x >= 0 {
        x / d
    } else {
        -((-x) / d)
    }
}

/// The signed integer code a reading converts to, or `None` where the scale
/// is too large for the conversion to be carried out in the feed's own
/// 128-bit arithmetic.
pub open spec fn spec_oracle_code(reading: OracleReading) -> Option<int> {
    if pow10(reading.scale as nat) > i128::MAX {
        None
    } else {
        Some(truncated_div(reading.mantissa as int, pow10(reading.scale as nat)))
    }
}

/// The outcome a code names: `0` an away win, `1` a home win, `2` a draw.
pub open spec fn outcome_for_code(code: int) -> Option<Outcome> {
    if code == 0 {
        Some(Outcome::Away)
    } else if code == 1 {
        Some(Outcome::Home)
    } else if code == 2 {
        Some(Outcome::Draw)
    } else {
        None
    }
}

/// How interpreting a reading ends: the code `-1` means the event has not
/// finished, any code without an outcome is invalid, and so is a reading
/// whose conversion fails.
pub open spec fn spec_interpret(reading: OracleReading) -> Result<i64, PredictionMarketError> {
    match spec_oracle_code(reading) {
        None => Err(PredictionMarketError::InvalidOracleValue),
        Some(code) => {
            if code == -1 {
                Err(PredictionMarketError::MatchNotFinished)
            } else if outcome_for_code(code) is Some {
                Ok(code as i64)
            } else {
                Err(PredictionMarketError::InvalidOracleValue)
            }
        },
    }
}

/// Powers of ten never shrink as the exponent grows.
proof fn lemma_pow10_increases(e1: nat, e2: nat)
    requires
        e1 <= e2,
    ensures
        0 < pow10(e1) <= pow10(e2),
    decreases e2,
{
    if e2 > 0 {
        if e1 == e2 {
            lemma_pow10_increases((e1 - 1) as nat, (e2 - 1) as nat);
        } else {
            lemma_pow10_increases(e1, (e2 - 1) as nat);
        }
    }
}

/// Computes `10^scale`, or reports that it exceeds the 128-bit range.
fn pow10_i128(scale: u32) -> (r: Option<i128>)
    ensures
        match r {
            Some(p) => p == pow10(scale as nat),
            None => pow10(scale as nat) > i128::MAX,
        },
{
    let mut acc: i128 = 1;
    let mut i: u32 = 0;
    while i < scale
        invariant
            i <= scale,
            1 <= acc,
            acc == pow10(i as nat),
        decreases scale - i,
    {
        match acc.checked_mul(10) {
            Some(next) => {
                acc = next;
                i = i + 1;
            },
            None => {
                proof {
                    assert(pow10((i + 1) as nat) == 10 * pow10(i as nat));
                    lemma_pow10_increases((i + 1) as nat, scale as nat);
                }
                return None;
            },
        }
    }
    Some(acc)
}

/// Converts a reading to its signed integer code and accepts only a code
/// that reports a finished event with a definite outcome. Returns the code
/// on success; fails with `MatchNotFinished` on the not-yet-finished code
/// `-1` and with `InvalidOracleValue` on a failed conversion or any other
/// code outside the outcome mapping.
pub fn interpret_reading(reading: &OracleReading) -> (r: Result<i64, PredictionMarketError>)
    ensures
        r == spec_interpret(*reading),
{
    let p = match pow10_i128(reading.scale) {
        Some(p) => p,
        None => {
            return Err(PredictionMarketError::InvalidOracleValue);
        },
    };
    proof {
        lemma_pow10_increases(0, reading.scale as nat);
        if reading.mantissa >= 0 {
            lemma_div_nonincreasing(reading.mantissa as int, p as int);
            lemma_div_pos_is_pos(reading.mantissa as int, p as int);
        } else {
            lemma_div_nonincreasing(-(reading.mantissa as int), p as int);
            lemma_div_pos_is_pos(-(reading.mantissa as int), p as int);
        }
        lemma_div_of0(p as int);
    }
    let code = match reading.mantissa.checked_div(p) {
        Some(code) => code,
        None => {
            // Unreachable: the divisor is positive and the quotient's
            // magnitude never exceeds the mantissa's.
            return Err(PredictionMarketError::InvalidOracleValue);
        },
    };
    if code == -1 {
        Err(PredictionMarketError::MatchNotFinished)
    } else if code == 0 || code == 1 || code == 2 {
        Ok(code as i64)
    } else {
        Err(PredictionMarketError::InvalidOracleValue)
    }
}

} // verus!
