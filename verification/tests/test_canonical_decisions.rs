use pyxirr::periodic::canonical::{
    canonical_search, scan_step, sign_changes, validate_finite, CanonicalSearch, ScanStep,
};
use pyxirr::utils::non_zero_range;
use pyxirr::{InvalidPaymentsError, Sign};

fn sign_of(value: f64) -> Sign {
    if value.is_nan() {
        Sign::NotANumber
    } else if value == 0.0 {
        Sign::Zero
    } else if value == f64::INFINITY {
        Sign::PositiveInfinity
    } else if value == f64::NEG_INFINITY {
        Sign::NegativeInfinity
    } else if value < 0.0 {
        Sign::Negative
    } else {
        Sign::Positive
    }
}

fn signs(values: &[f64]) -> Vec<Sign> {
    values.iter().map(|v| sign_of(*v)).collect()
}

#[test]
fn sign_changes_of_a_conventional_flow_is_one() {
    assert_eq!(sign_changes(&signs(&[-100.0, 39.0, 59.0, 55.0, 20.0])), 1);
    assert_eq!(sign_changes(&signs(&[-100.0, 0.0, 0.0, 74.0])), 1);
}

#[test]
fn sign_changes_counts_every_turn_and_skips_zeros() {
    assert_eq!(sign_changes(&signs(&[-100.0, 230.0, -132.0])), 2);
    assert_eq!(sign_changes(&signs(&[-50.0, 200.0, -180.0, 40.0])), 3);
    assert_eq!(sign_changes(&signs(&[-1.0, 0.0, 0.0, 1.0, 0.0, -1.0])), 2);
    assert_eq!(sign_changes(&signs(&[0.0, 0.0])), 0);
    assert_eq!(sign_changes(&signs(&[])), 0);
    assert_eq!(sign_changes(&signs(&[100.0, 50.0, 25.0])), 0);
}

#[test]
fn sign_changes_reads_nan_as_not_below_zero() {
    assert_eq!(sign_changes(&signs(&[-1.0, f64::NAN])), 1);
    assert_eq!(sign_changes(&signs(&[1.0, f64::NAN])), 0);
}

#[test]
fn sign_changes_are_unchanged_by_trimming() {
    let values = [0.0, 0.0, -100.0, 230.0, 0.0, -132.0, 0.0];
    let all = signs(&values);
    let span = non_zero_range(&all);
    assert_eq!(sign_changes(&all[span]), sign_changes(&all));
}

#[test]
fn validate_finite_refuses_what_is_not_a_number() {
    assert_eq!(validate_finite(&signs(&[-100.0, 200.0])), Ok(()));
    assert_eq!(validate_finite(&signs(&[f64::NAN, 200.0])), Err(InvalidPaymentsError::NotFinite));
    assert_eq!(
        validate_finite(&signs(&[-100.0, f64::INFINITY])),
        Err(InvalidPaymentsError::NotFinite)
    );
    assert_eq!(
        validate_finite(&signs(&[f64::NEG_INFINITY, 100.0])),
        Err(InvalidPaymentsError::NotFinite)
    );
}

#[test]
fn canonical_search_refuses_a_flow_of_one_sign() {
    assert_eq!(
        canonical_search(&signs(&[-100.0, -50.0, -25.0]), true),
        Err(InvalidPaymentsError::OneSign)
    );
    assert_eq!(
        canonical_search(&signs(&[100.0, 50.0, 25.0]), true),
        Err(InvalidPaymentsError::OneSign)
    );
}

#[test]
fn canonical_search_refuses_amounts_that_are_not_numbers_first() {
    assert_eq!(
        canonical_search(&signs(&[f64::NAN, 100.0, 200.0]), true),
        Err(InvalidPaymentsError::NotFinite)
    );
    assert_eq!(
        canonical_search(&signs(&[-100.0, f64::INFINITY]), true),
        Err(InvalidPaymentsError::NotFinite)
    );
    assert_eq!(
        canonical_search(&signs(&[100.0, f64::NEG_INFINITY]), false),
        Err(InvalidPaymentsError::NotFinite)
    );
}

#[test]
fn canonical_search_picks_the_search_a_flow_needs() {
    assert_eq!(
        canonical_search(&signs(&[-1.0, 0.0, 0.0, 1000.0]), false),
        Ok(CanonicalSearch::OutOfBand)
    );
    assert_eq!(
        canonical_search(&signs(&[-100.0, 39.0, 59.0, 55.0, 20.0]), true),
        Ok(CanonicalSearch::SingleCrossing)
    );
    assert_eq!(
        canonical_search(&signs(&[-100.0, 230.0, -132.0]), true),
        Ok(CanonicalSearch::Sweep)
    );
}

#[test]
fn scan_step_splits_only_while_depth_allows() {
    assert_eq!(scan_step(3, true, true), ScanStep::SplitAtTurn);
    assert_eq!(scan_step(1, true, false), ScanStep::SplitAtTurn);
    assert_eq!(scan_step(0, true, true), ScanStep::NoCrossing);
    assert_eq!(scan_step(0, true, false), ScanStep::Refine);
    assert_eq!(scan_step(2, false, true), ScanStep::NoCrossing);
    assert_eq!(scan_step(2, false, false), ScanStep::Refine);
}
