//! The parameter validator: amounts that would not fit the engine's numeric
//! fields are turned away before any process is started.

use crate::error::{CliError, CliErrorView};
use vstd::prelude::*;

verus! {

/// Largest amount, in francs, that a request may carry in an income or
/// deduction field. It lies below `i32::MAX`, so an accepted amount always
/// fits the engine's 32-bit fields.
pub const MAX_REASONABLE_AMOUNT: i32 = 2_000_000_000;

pub const INCOME_NEGATIVE: &'static str =
    "Income cannot be negative. Even tax authorities aren't that generous!";

pub const INCOME_TOO_LARGE: &'static str =
    "ðŸ¤‘ You're too freaking rich, just pay your taxes! (Income exceeds system limits)";

pub const INCOME_SG_NEGATIVE: &'static str =
    "Cantonal income cannot be negative. Even tax authorities aren't that generous!";

pub const INCOME_SG_TOO_LARGE: &'static str =
    "ðŸ¤‘ You're too freaking rich, just pay your taxes! (Cantonal income exceeds system limits)";

pub const INCOME_FED_NEGATIVE: &'static str =
    "Federal income cannot be negative. Even tax authorities aren't that generous!";

pub const INCOME_FED_TOO_LARGE: &'static str =
    "ðŸ¤‘ You're too freaking rich, just pay your taxes! (Federal income exceeds system limits)";

pub const DEDUCTION_NEGATIVE: &'static str =
    "Max deduction cannot be negative. That would be... weird.";

pub const DEDUCTION_TOO_LARGE: &'static str =
    "ðŸ¤‘ You're too freaking rich, just pay your taxes! (Max deduction exceeds system limits)";

/// The complaint about a step below zero. A step of zero is in range and
/// draws no complaint.
pub const STEP_NEGATIVE: &'static str =
    "Deduction step must be positive. Zero steps won't get you anywhere!";

pub const STEP_TOO_LARGE: &'static str =
    "ðŸ¤‘ Deduction step is ridiculously large. Just pay your taxes!";

/// An amount is in range when it is neither negative nor above the bound.
pub open spec fn amount_in_range(v: int) -> bool {
    0 <= v <= MAX_REASONABLE_AMOUNT as int
}

/// An optional amount is acceptable when it is absent or in range.
pub open spec fn optional_amount_ok(v: Option<i32>) -> bool {
    match v {
        Some(x) => amount_in_range(x as int),
        None => true,
    }
}

/// The income fields of a request are acceptable when each one that is
/// present is in range.
pub open spec fn income_params_ok(
    income: Option<i32>,
    income_sg: Option<i32>,
    income_fed: Option<i32>,
) -> bool {
    optional_amount_ok(income) && optional_amount_ok(income_sg) && optional_amount_ok(income_fed)
}

/// A deduction bound and its optional step are acceptable when both are in
/// range. A step is held to the same range as every other amount, so a step
/// of zero is acceptable.
pub open spec fn deduction_params_ok(max_deduction: i32, d_step: Option<i32>) -> bool {
    amount_in_range(max_deduction as int) && optional_amount_ok(d_step)
}

/// The complaint about one optional amount, if there is one.
pub open spec fn amount_complaint(
    v: Option<i32>,
    negative: Seq<char>,
    too_large: Seq<char>,
) -> Option<Seq<char>> {
    match v {
        Some(x) => if x < 0 {
            Some(negative)
        } else if x > MAX_REASONABLE_AMOUNT {
            Some(too_large)
        } else {
            None
        },
        None => None,
    }
}

/// The first complaint about the three income fields, taken in the order
/// combined, cantonal, federal.
pub open spec fn income_complaint(
    income: Option<i32>,
    income_sg: Option<i32>,
    income_fed: Option<i32>,
) -> Option<Seq<char>> {
    let a = amount_complaint(income, INCOME_NEGATIVE@, INCOME_TOO_LARGE@);
    let b = amount_complaint(income_sg, INCOME_SG_NEGATIVE@, INCOME_SG_TOO_LARGE@);
    let c = amount_complaint(income_fed, INCOME_FED_NEGATIVE@, INCOME_FED_TOO_LARGE@);
    if a is Some {
        a
    } else if b is Some {
        b
    } else {
        c
    }
}

/// The first complaint about a deduction bound and its optional step; the
/// bound is looked at first.
pub open spec fn deduction_complaint(max_deduction: i32, d_step: Option<i32>) -> Option<Seq<char>> {
    if max_deduction < 0 {
        Some(DEDUCTION_NEGATIVE@)
    } else if max_deduction > MAX_REASONABLE_AMOUNT {
        Some(DEDUCTION_TOO_LARGE@)
    } else {
        amount_complaint(d_step, STEP_NEGATIVE@, STEP_TOO_LARGE@)
    }
}

/// What the validator answers, given the complaint it has: a rejection with
/// the complaint as its text, or acceptance where there is no complaint.
pub open spec fn verdict(complaint: Option<Seq<char>>, r: Result<(), CliError>) -> bool {
    match complaint {
        Some(text) => r matches Err(e) && e@ == CliErrorView::InvalidParameters(text),
        None => r is Ok,
    }
}

fn rejected(text: &str) -> (r: Result<(), CliError>)
    ensures
        r matches Err(e) && e@ == CliErrorView::InvalidParameters(text@),
{
    Err(CliError::InvalidParameters(text.to_owned()))
}

fn check_amount(v: Option<i32>, negative: &str, too_large: &str) -> (r: Result<(), CliError>)
    ensures
        verdict(amount_complaint(v, negative@, too_large@), r),
{
    match v {
        Some(x) => {
            if x < 0 {
                rejected(negative)
            } else if x > MAX_REASONABLE_AMOUNT {
                rejected(too_large)
            } else {
                Ok(())
            }
        },
        None => Ok(()),
    }
}

/// Checks the income fields of a request.
///
/// Each field that is present must lie in `0..=MAX_REASONABLE_AMOUNT`. The
/// fields are examined in the order combined, cantonal, federal, and the
/// rejection names the first one that is out of range.
pub fn validate_income_params(
    income: Option<i32>,
    income_sg: Option<i32>,
    income_fed: Option<i32>,
) -> (r: Result<(), CliError>)
    ensures
        r is Ok <==> income_params_ok(income, income_sg, income_fed),
        verdict(income_complaint(income, income_sg, income_fed), r),
{
    let a = check_amount(income, INCOME_NEGATIVE, INCOME_TOO_LARGE);
    if a.is_err() {
        return a;
    }
    let b = check_amount(income_sg, INCOME_SG_NEGATIVE, INCOME_SG_TOO_LARGE);
    if b.is_err() {
        return b;
    }
    check_amount(income_fed, INCOME_FED_NEGATIVE, INCOME_FED_TOO_LARGE)
}

/// Checks a deduction bound and its optional scan step.
///
/// The bound must lie in `0..=MAX_REASONABLE_AMOUNT`, and so must the step if
/// there is one. The bound is examined first.
pub fn validate_deduction_params(max_deduction: i32, d_step: Option<i32>) -> (r: Result<
    (),
    CliError,
>)
    ensures
        r is Ok <==> deduction_params_ok(max_deduction, d_step),
        verdict(deduction_complaint(max_deduction, d_step), r),
{
    if max_deduction < 0 {
        return rejected(DEDUCTION_NEGATIVE);
    }
    if max_deduction > MAX_REASONABLE_AMOUNT {
        return rejected(DEDUCTION_TOO_LARGE);
    }
    check_amount(d_step, STEP_NEGATIVE, STEP_TOO_LARGE)
}

/// Every amount in `0..=MAX_REASONABLE_AMOUNT` is accepted in each income
/// field, as a deduction bound and as a step, zero, the bound itself and the
/// value just below it included; every negative amount and every amount
/// above the bound is rejected in each of them.
pub proof fn lemma_amount_bounds(v: i32)
    ensures
        amount_in_range(v as int) <==> income_params_ok(Some(v), None, None),
        amount_in_range(v as int) <==> income_params_ok(None, Some(v), None),
        amount_in_range(v as int) <==> income_params_ok(None, None, Some(v)),
        amount_in_range(v as int) <==> deduction_params_ok(v, None),
        amount_in_range(v as int) <==> deduction_params_ok(0, Some(v)),
        amount_in_range(MAX_REASONABLE_AMOUNT as int),
        amount_in_range(MAX_REASONABLE_AMOUNT as int - 1),
        amount_in_range(0),
        !amount_in_range(MAX_REASONABLE_AMOUNT as int + 1),
        !amount_in_range(-1),
{
}

} // verus!
