//! Admissibility of a price observation: freshness, sign, and the width of its
//! confidence interval against the caller's tolerance.

use vstd::prelude::*;
use crate::error::TeraniumError;

verus! {

/// Basis points to the whole.
pub const BPS_DENOM: i128 = 10_000;

/// The longest time, in seconds, that may lie between the publication of a
/// price and its use.
pub const MAX_STALENESS_SECONDS: i64 = 60;

/// One reading of the price feed: the price is `price * 10^expo`, known to
/// within `conf * 10^expo`, as published at `publish_time`.
#[derive(Debug, Clone, Copy, PartialEq, Eq, Structural)]
pub struct OracleObservation {
    pub price: i64,
    pub conf: u64,
    pub expo: i32,
    pub publish_time: i64,
}

/// Whether a price published at `publish_time` is too old at `now`: its age is
/// above the staleness window, or lies so far in the future that the age does
/// not fit 64 bits.
pub open spec fn is_stale(publish_time: i64, now: i64) -> bool {
    now - publish_time > MAX_STALENESS_SECONDS || now - publish_time < i64::MIN
}

/// Whether the confidence is narrow enough: as a share of the price it is at
/// most `max_slippage_bps` basis points.
pub open spec fn confidence_within(price: i64, conf: u64, max_slippage_bps: u16) -> bool {
    conf * BPS_DENOM <= price * max_slippage_bps
}

/// The verdict on a reading. The tests are made in this order, and the first
/// that fails names the error: a price is there; it is fresh; it is positive;
/// its confidence is within the tolerance.
pub open spec fn validate_observation_spec(
    observation: Option<OracleObservation>,
    now: i64,
    max_slippage_bps: u16,
) -> Result<OracleObservation, TeraniumError> {
    match observation {
        None => Err(TeraniumError::OracleNoPrice),
        Some(reading) => if is_stale(reading.publish_time, now) {
            Err(TeraniumError::OracleStale)
        } else if reading.price <= 0 {
            Err(TeraniumError::OracleInvalidPrice)
        } else if !confidence_within(reading.price, reading.conf, max_slippage_bps) {
            Err(TeraniumError::OracleSlippageExceeded)
        } else {
            Ok(reading)
        },
    }
}

/// Decides whether a reading of the price feed may be used at time `now` under
/// the tolerance `max_slippage_bps`, and returns it if so.
///
/// The confidence of a reading is unsigned, so no reading is rejected for a
/// negative confidence.
pub fn validate_observation(
    observation: Option<OracleObservation>,
    now: i64,
    max_slippage_bps: u16,
) -> (r: Result<OracleObservation, TeraniumError>)
    ensures
        r == validate_observation_spec(observation, now, max_slippage_bps),
{
    let reading = match observation {
        Some(reading) => reading,
        None => {
            return Err(TeraniumError::OracleNoPrice);
        },
    };
    let age = match now.checked_sub(reading.publish_time) {
        Some(age) => age,
        None => {
            return Err(TeraniumError::OracleStale);
        },
    };
    if age > MAX_STALENESS_SECONDS {
        return Err(TeraniumError::OracleStale);
    }
    if reading.price <= 0 {
        return Err(TeraniumError::OracleInvalidPrice);
    }
    let price: i128 = reading.price as i128;
    let conf: i128 = reading.conf as i128;
    let max_bps: i128 = max_slippage_bps as i128;
    assert(0 <= price * max_bps <= 0x7fff_ffff_ffff_ffff * 0xffff) by (nonlinear_arith)
        requires
            0 < price <= 0x7fff_ffff_ffff_ffff,
            0 <= max_bps <= 0xffff,
    ;
    if conf * BPS_DENOM > price * max_bps {
        return Err(TeraniumError::OracleSlippageExceeded);
    }
    Ok(reading)
}

/// The staleness window is closed at 60 seconds: a reading older than that is
/// rejected as stale whatever else it holds, and one of exactly that age is
/// never rejected as stale.
pub proof fn lemma_staleness_window(
    reading: OracleObservation,
    now: i64,
    max_slippage_bps: u16,
)
    ensures
        now - reading.publish_time > 60 ==> validate_observation_spec(
            Some(reading),
            now,
            max_slippage_bps,
        ) == Err::<OracleObservation, TeraniumError>(TeraniumError::OracleStale),
        now - reading.publish_time == 60 ==> validate_observation_spec(
            Some(reading),
            now,
            max_slippage_bps,
        ) != Err::<OracleObservation, TeraniumError>(TeraniumError::OracleStale),
        now - reading.publish_time == 60 && reading.price > 0 && confidence_within(
            reading.price,
            reading.conf,
            max_slippage_bps,
        ) ==> validate_observation_spec(Some(reading), now, max_slippage_bps) == Ok::<
            OracleObservation,
            TeraniumError,
        >(reading),
{
}

/// The confidence bound is closed: a fresh reading with a positive price is
/// rejected for its confidence exactly when `conf * 10000` is above
/// `price * max_slippage_bps`, and accepted when the two are equal.
pub proof fn lemma_confidence_bound(reading: OracleObservation, now: i64, max_slippage_bps: u16)
    requires
        !is_stale(reading.publish_time, now),
        reading.price > 0,
    ensures
        reading.conf * 10000 > reading.price * max_slippage_bps ==> validate_observation_spec(
            Some(reading),
            now,
            max_slippage_bps,
        ) == Err::<OracleObservation, TeraniumError>(TeraniumError::OracleSlippageExceeded),
        reading.conf * 10000 <= reading.price * max_slippage_bps ==> validate_observation_spec(
            Some(reading),
            now,
            max_slippage_bps,
        ) == Ok::<OracleObservation, TeraniumError>(reading),
{
}

/// No reading is rejected for a negative confidence or for an overflow: the
/// confidence of a reading is unsigned, and both sides of the confidence bound
/// fit 128 bits.
pub proof fn lemma_confidence_is_never_negative(
    observation: Option<OracleObservation>,
    now: i64,
    max_slippage_bps: u16,
)
    ensures
        validate_observation_spec(observation, now, max_slippage_bps) != Err::<
            OracleObservation,
            TeraniumError,
        >(TeraniumError::OracleInvalidConfidence),
        validate_observation_spec(observation, now, max_slippage_bps) != Err::<
            OracleObservation,
            TeraniumError,
        >(TeraniumError::MathOverflow),
{
}

} // verus!
