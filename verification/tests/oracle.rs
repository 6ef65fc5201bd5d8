use teranium::{validate_observation, OracleObservation, TeraniumError};

fn reading(price: i64, conf: u64, publish_time: i64) -> OracleObservation {
    OracleObservation {
        price,
        conf,
        expo: -6,
        publish_time,
    }
}

#[test]
fn missing_price_is_reported() {
    assert_eq!(
        validate_observation(None, 1_000, 100),
        Err(TeraniumError::OracleNoPrice)
    );
}

#[test]
fn fresh_reading_is_returned_unchanged() {
    let r = reading(2_000_000, 1_000, 990);
    assert_eq!(validate_observation(Some(r), 1_000, 100), Ok(r));
}

#[test]
fn age_of_sixty_is_accepted() {
    let r = reading(2_000_000, 0, 940);
    assert_eq!(validate_observation(Some(r), 1_000, 0), Ok(r));
}

#[test]
fn age_of_sixty_one_is_stale() {
    let r = reading(2_000_000, 0, 939);
    assert_eq!(
        validate_observation(Some(r), 1_000, 0),
        Err(TeraniumError::OracleStale)
    );
}

#[test]
fn much_older_reading_is_stale() {
    let r = reading(2_000_000, 0, 0);
    assert_eq!(
        validate_observation(Some(r), 1_000_000, 10_000),
        Err(TeraniumError::OracleStale)
    );
}

#[test]
fn reading_from_the_near_future_is_accepted() {
    let r = reading(2_000_000, 0, 1_500);
    assert_eq!(validate_observation(Some(r), 1_000, 0), Ok(r));
}

#[test]
fn age_that_does_not_fit_is_stale() {
    let future = reading(2_000_000, 0, i64::MAX);
    assert_eq!(
        validate_observation(Some(future), -2, 10_000),
        Err(TeraniumError::OracleStale)
    );
    let past = reading(2_000_000, 0, i64::MIN);
    assert_eq!(
        validate_observation(Some(past), 0, 10_000),
        Err(TeraniumError::OracleStale)
    );
}

#[test]
fn largest_age_that_fits_from_the_future_is_accepted() {
    let r = reading(2_000_000, 0, i64::MAX);
    assert_eq!(validate_observation(Some(r), -1, 0), Ok(r));
}

#[test]
fn zero_price_is_invalid() {
    assert_eq!(
        validate_observation(Some(reading(0, 0, 1_000)), 1_000, 10_000),
        Err(TeraniumError::OracleInvalidPrice)
    );
}

#[test]
fn negative_price_is_invalid() {
    assert_eq!(
        validate_observation(Some(reading(-1, 0, 1_000)), 1_000, 10_000),
        Err(TeraniumError::OracleInvalidPrice)
    );
    assert_eq!(
        validate_observation(Some(reading(i64::MIN, 0, 1_000)), 1_000, 10_000),
        Err(TeraniumError::OracleInvalidPrice)
    );
}

#[test]
fn staleness_is_tested_before_the_price() {
    assert_eq!(
        validate_observation(Some(reading(-5, 0, 0)), 1_000, 10_000),
        Err(TeraniumError::OracleStale)
    );
}

#[test]
fn confidence_at_the_bound_is_accepted() {
    // 200 * 10000 == 2_000_000 * 1
    let r = reading(2_000_000, 200, 1_000);
    assert_eq!(validate_observation(Some(r), 1_000, 1), Ok(r));
}

#[test]
fn confidence_above_the_bound_is_rejected() {
    // 201 * 10000 > 2_000_000 * 1
    let r = reading(2_000_000, 201, 1_000);
    assert_eq!(
        validate_observation(Some(r), 1_000, 1),
        Err(TeraniumError::OracleSlippageExceeded)
    );
}

#[test]
fn zero_tolerance_accepts_only_zero_confidence() {
    let exact = reading(2_000_000, 0, 1_000);
    assert_eq!(validate_observation(Some(exact), 1_000, 0), Ok(exact));
    let wide = reading(2_000_000, 1, 1_000);
    assert_eq!(
        validate_observation(Some(wide), 1_000, 0),
        Err(TeraniumError::OracleSlippageExceeded)
    );
}

#[test]
fn full_tolerance_accepts_confidence_up_to_the_price() {
    let r = reading(2_000_000, 2_000_000, 1_000);
    assert_eq!(validate_observation(Some(r), 1_000, 10_000), Ok(r));
    let wide = reading(2_000_000, 2_000_001, 1_000);
    assert_eq!(
        validate_observation(Some(wide), 1_000, 10_000),
        Err(TeraniumError::OracleSlippageExceeded)
    );
}

#[test]
fn extreme_values_do_not_overflow() {
    let r = reading(i64::MAX, u64::MAX, 1_000);
    assert_eq!(
        validate_observation(Some(r), 1_000, 10_000),
        Err(TeraniumError::OracleSlippageExceeded)
    );
    // u64::MAX * 10000 is below i64::MAX * 65535.
    assert_eq!(validate_observation(Some(r), 1_000, u16::MAX), Ok(r));
}

#[test]
fn no_reading_is_rejected_for_its_confidence_sign() {
    let prices = [i64::MIN, -1, 0, 1, 2_000_000, i64::MAX];
    let confs = [0, 1, 200, u64::MAX / 2, u64::MAX];
    let times = [i64::MIN, 0, 939, 940, 1_000, 1_500, i64::MAX];
    let tolerances = [0, 1, 10_000, u16::MAX];
    for price in prices {
        for conf in confs {
            for publish_time in times {
                for tolerance in tolerances {
                    let r = validate_observation(
                        Some(reading(price, conf, publish_time)),
                        1_000,
                        tolerance,
                    );
                    assert_ne!(r, Err(TeraniumError::OracleInvalidConfidence));
                    assert_ne!(r, Err(TeraniumError::MathOverflow));
                    if let Ok(accepted) = r {
                        assert!(accepted.price > 0);
                        assert!(1_000 - accepted.publish_time <= 60);
                    }
                }
            }
        }
    }
}

#[test]
fn fixed_constants() {
    assert_eq!(teranium::BPS_DENOM, 10_000);
    assert_eq!(teranium::MAX_STALENESS_SECONDS, 60);
    assert_eq!(teranium::MAX_POW10_EXPONENT, 38);
}
