use taxglide_bridge::error::CliError;
use taxglide_bridge::validate::{
    validate_deduction_params, validate_income_params, MAX_REASONABLE_AMOUNT,
};

fn err(text: &str) -> Result<(), CliError> {
    Err(CliError::InvalidParameters(text.to_string()))
}

#[test]
fn the_bound_is_two_billion() {
    assert_eq!(MAX_REASONABLE_AMOUNT, 2_000_000_000);
}

#[test]
fn income_in_range_is_accepted() {
    assert_eq!(validate_income_params(None, None, None), Ok(()));
    assert_eq!(validate_income_params(Some(0), None, None), Ok(()));
    assert_eq!(validate_income_params(Some(80000), Some(1), Some(2)), Ok(()));
    assert_eq!(validate_income_params(Some(1_999_999_999), None, None), Ok(()));
    assert_eq!(validate_income_params(Some(2_000_000_000), None, None), Ok(()));
    assert_eq!(
        validate_income_params(None, Some(2_000_000_000), Some(1_999_999_999)),
        Ok(())
    );
}

#[test]
fn negative_income_is_rejected() {
    assert_eq!(
        validate_income_params(Some(-1), None, None),
        err("Income cannot be negative. Even tax authorities aren't that generous!")
    );
    assert_eq!(
        validate_income_params(None, Some(i32::MIN), None),
        err("Cantonal income cannot be negative. Even tax authorities aren't that generous!")
    );
    assert_eq!(
        validate_income_params(None, None, Some(-5)),
        err("Federal income cannot be negative. Even tax authorities aren't that generous!")
    );
}

#[test]
fn income_above_the_bound_is_rejected() {
    assert_eq!(
        validate_income_params(Some(2_000_000_001), None, None),
        err("ðŸ¤‘ You're too freaking rich, just pay your taxes! (Income exceeds system limits)")
    );
    assert_eq!(
        validate_income_params(None, Some(i32::MAX), None),
        err("ðŸ¤‘ You're too freaking rich, just pay your taxes! (Cantonal income exceeds system limits)")
    );
    assert_eq!(
        validate_income_params(None, None, Some(2_000_000_001)),
        err("ðŸ¤‘ You're too freaking rich, just pay your taxes! (Federal income exceeds system limits)")
    );
}

#[test]
fn the_first_income_field_out_of_range_is_named() {
    assert_eq!(
        validate_income_params(Some(-1), Some(-1), Some(i32::MAX)),
        err("Income cannot be negative. Even tax authorities aren't that generous!")
    );
    assert_eq!(
        validate_income_params(Some(5), Some(i32::MAX), Some(-1)),
        err("ðŸ¤‘ You're too freaking rich, just pay your taxes! (Cantonal income exceeds system limits)")
    );
}

#[test]
fn deduction_in_range_is_accepted() {
    assert_eq!(validate_deduction_params(0, None), Ok(()));
    assert_eq!(validate_deduction_params(2_000_000_000, Some(1)), Ok(()));
    assert_eq!(validate_deduction_params(1_999_999_999, Some(2_000_000_000)), Ok(()));
}

#[test]
fn a_step_of_zero_is_in_range() {
    assert_eq!(validate_deduction_params(1000, Some(0)), Ok(()));
    assert_eq!(validate_deduction_params(0, Some(0)), Ok(()));
    assert_eq!(validate_deduction_params(1000, Some(1_999_999_999)), Ok(()));
}

#[test]
fn deduction_out_of_range_is_rejected() {
    assert_eq!(
        validate_deduction_params(-1, None),
        err("Max deduction cannot be negative. That would be... weird.")
    );
    assert_eq!(
        validate_deduction_params(2_000_000_001, Some(-1)),
        err("ðŸ¤‘ You're too freaking rich, just pay your taxes! (Max deduction exceeds system limits)")
    );
}

#[test]
fn step_out_of_range_is_rejected() {
    assert_eq!(
        validate_deduction_params(100, Some(-1)),
        err("Deduction step must be positive. Zero steps won't get you anywhere!")
    );
    assert_eq!(
        validate_deduction_params(100, Some(i32::MIN)),
        err("Deduction step must be positive. Zero steps won't get you anywhere!")
    );
    assert_eq!(
        validate_deduction_params(100, Some(2_000_000_001)),
        err("ðŸ¤‘ Deduction step is ridiculously large. Just pay your taxes!")
    );
}
