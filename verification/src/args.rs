//! The argument builder: from a typed request to the ordered argument
//! vector the engine is started with.
//!
//! Every vector begins with the operation's name, `--json` and
//! `--year <year>`. A field that is absent leaves no trace in the vector.

use crate::cli_types::{
    CalcParams, CalcParamsView, CompareBracketsParams, CompareBracketsParamsView, IncomeView,
    OptimizeParams, OptimizeParamsView, ScanParams, ScanParamsView, ValidateParams,
};
use crate::text::{decimal, i32_to_string, texts};
use vstd::prelude::*;

verus! {

/// A flag followed by its value.
pub open spec fn flag_value(flag: Seq<char>, value: Seq<char>) -> Seq<Seq<char>> {
    seq![flag, value]
}

/// The opening of every argument vector.
pub open spec fn head_args(operation: Seq<char>, year: i32) -> Seq<Seq<char>> {
    seq![operation, "--json"@, "--year"@, decimal(year as int)]
}

/// The income part of an argument vector. The combined amount wins when it
/// is present; the split pair is used only when the combined amount is
/// absent and both halves are present; otherwise nothing is emitted.
pub open spec fn income_args(v: IncomeView) -> Seq<Seq<char>> {
    match v.income {
        Some(x) => flag_value("--income"@, decimal(x as int)),
        None => match (v.income_sg, v.income_fed) {
            (Some(a), Some(b)) => flag_value("--income-sg"@, decimal(a as int)) + flag_value(
                "--income-fed"@,
                decimal(b as int),
            ),
            _ => seq![],
        },
    }
}

/// An optional number: flag and value when present, nothing when absent.
pub open spec fn optional_number(flag: Seq<char>, v: Option<i32>) -> Seq<Seq<char>> {
    match v {
        Some(x) => flag_value(flag, decimal(x as int)),
        None => seq![],
    }
}

/// An optional text: flag and value when present, nothing when absent.
pub open spec fn optional_text(flag: Seq<char>, v: Option<Seq<char>>) -> Seq<Seq<char>> {
    match v {
        Some(x) => flag_value(flag, x),
        None => seq![],
    }
}

/// A flag without a value, emitted only when `on` holds.
pub open spec fn switch(flag: Seq<char>, on: bool) -> Seq<Seq<char>> {
    if on {
        seq![flag]
    } else {
        seq![]
    }
}

/// One `flag value` pair per element, in the order of the elements.
pub open spec fn repeated(flag: Seq<char>, values: Seq<Seq<char>>) -> Seq<Seq<char>>
    decreases values.len(),
{
    if values.len() == 0 {
        seq![]
    } else {
        repeated(flag, values.drop_last()) + flag_value(flag, values.last())
    }
}

/// The `--pick` pairs followed by the `--skip` pairs.
pub open spec fn selector_args(pick: Seq<Seq<char>>, skip: Seq<Seq<char>>) -> Seq<Seq<char>> {
    repeated("--pick"@, pick) + repeated("--skip"@, skip)
}

/// The argument vector of a calculation.
pub open spec fn calc_args(p: CalcParamsView) -> Seq<Seq<char>> {
    head_args("calc"@, p.year) + income_args(p.income) + optional_text(
        "--filing-status"@,
        p.filing_status,
    ) + selector_args(p.pick, p.skip)
}

/// The argument vector of an optimisation. `--disable-adaptive` is a plain
/// switch: it is emitted only for an explicit `true`.
pub open spec fn optimize_args(p: OptimizeParamsView) -> Seq<Seq<char>> {
    head_args("optimize"@, p.year) + flag_value(
        "--max-deduction"@,
        decimal(p.max_deduction as int),
    ) + income_args(p.income) + optional_number("--step"@, p.step) + optional_text(
        "--filing-status"@,
        p.filing_status,
    ) + optional_text("--tolerance-bp"@, p.tolerance_bp) + switch(
        "--disable-adaptive"@,
        p.disable_adaptive == Some(true),
    ) + selector_args(p.pick, p.skip)
}

/// The argument vector of a scan. The engine includes the local marginal
/// rate unless told otherwise, so only an explicit `false` is emitted, as
/// the negated flag.
pub open spec fn scan_args(p: ScanParamsView) -> Seq<Seq<char>> {
    head_args("scan"@, p.year) + flag_value("--max-deduction"@, decimal(p.max_deduction as int))
        + income_args(p.income) + optional_number("--d-step"@, p.d_step) + optional_text(
        "--filing-status"@,
        p.filing_status,
    ) + switch("--no-include-local-marginal"@, p.include_local_marginal == Some(false))
        + selector_args(p.pick, p.skip)
}

/// The argument vector of a bracket comparison.
pub open spec fn compare_brackets_args(p: CompareBracketsParamsView) -> Seq<Seq<char>> {
    head_args("compare-brackets"@, p.year) + income_args(p.income) + optional_number(
        "--deduction"@,
        p.deduction,
    ) + optional_text("--filing-status"@, p.filing_status)
}

/// The argument vector of a configuration check.
pub open spec fn validate_args(year: i32) -> Seq<Seq<char>> {
    head_args("validate"@, year)
}

/// The argument vector of the version query that opens a session.
pub open spec fn version_args() -> Seq<Seq<char>> {
    seq!["version"@, "--json"@, "--schema-version"@]
}

fn push_text(args: &mut Vec<String>, text: &str)
    ensures
        texts(final(args)@) == texts(old(args)@) + seq![text@],
{
    args.push(text.to_owned());
    assert(texts(args@) =~= texts(old(args)@) + seq![text@]);
}

fn push_flag_value(args: &mut Vec<String>, flag: &str, value: &str)
    ensures
        texts(final(args)@) == texts(old(args)@) + flag_value(flag@, value@),
{
    push_text(args, flag);
    push_text(args, value);
    assert(texts(args@) =~= texts(old(args)@) + flag_value(flag@, value@));
}

fn push_number(args: &mut Vec<String>, flag: &str, value: i32)
    ensures
        texts(final(args)@) == texts(old(args)@) + flag_value(flag@, decimal(value as int)),
{
    let number = i32_to_string(value);
    push_flag_value(args, flag, number.as_str());
}

fn push_head(args: &mut Vec<String>, operation: &str, year: i32)
    ensures
        texts(final(args)@) == texts(old(args)@) + head_args(operation@, year),
{
    push_text(args, operation);
    push_text(args, "--json");
    push_number(args, "--year", year);
    assert(texts(args@) =~= texts(old(args)@) + head_args(operation@, year));
}

fn push_income(
    args: &mut Vec<String>,
    income: Option<i32>,
    income_sg: Option<i32>,
    income_fed: Option<i32>,
)
    ensures
        texts(final(args)@) == texts(old(args)@) + income_args(
            IncomeView { income, income_sg, income_fed },
        ),
{
    match income {
        Some(x) => {
            push_number(args, "--income", x);
        },
        None => {
            match (income_sg, income_fed) {
                (Some(a), Some(b)) => {
                    push_number(args, "--income-sg", a);
                    push_number(args, "--income-fed", b);
                    assert(texts(args@) =~= texts(old(args)@) + income_args(
                        IncomeView { income, income_sg, income_fed },
                    ));
                },
                _ => {
                    assert(texts(args@) =~= texts(old(args)@) + income_args(
                        IncomeView { income, income_sg, income_fed },
                    ));
                },
            }
        },
    }
}

fn push_optional_number(args: &mut Vec<String>, flag: &str, value: Option<i32>)
    ensures
        texts(final(args)@) == texts(old(args)@) + optional_number(flag@, value),
{
    match value {
        Some(x) => {
            push_number(args, flag, x);
        },
        None => {
            assert(texts(args@) =~= texts(old(args)@) + optional_number(flag@, value));
        },
    }
}

fn push_optional_text(args: &mut Vec<String>, flag: &str, value: &Option<String>)
    ensures
        texts(final(args)@) == texts(old(args)@) + optional_text(
            flag@,
            crate::text::opt_text(*value),
        ),
{
    match value {
        Some(x) => {
            push_flag_value(args, flag, x.as_str());
        },
        None => {
            assert(texts(args@) =~= texts(old(args)@) + optional_text(
                flag@,
                crate::text::opt_text(*value),
            ));
        },
    }
}

fn push_switch(args: &mut Vec<String>, flag: &str, on: bool)
    ensures
        texts(final(args)@) == texts(old(args)@) + switch(flag@, on),
{
    if on {
        push_text(args, flag);
    } else {
        assert(texts(args@) =~= texts(old(args)@) + switch(flag@, on));
    }
}

fn push_repeated(args: &mut Vec<String>, flag: &str, values: &Vec<String>)
    ensures
        texts(final(args)@) == texts(old(args)@) + repeated(flag@, texts(values@)),
{
    let mut i: usize = 0;
    assert(texts(args@) =~= texts(old(args)@) + repeated(flag@, texts(values@).take(0)));
    while i < values.len()
        invariant
            i <= values.len(),
            texts(args@) == texts(old(args)@) + repeated(flag@, texts(values@).take(i as int)),
        decreases values.len() - i,
    {
        let ghost before = texts(values@).take(i as int);
        let ghost after = texts(values@).take(i + 1);
        push_flag_value(args, flag, values[i].as_str());
        proof {
            assert(after.drop_last() =~= before);
            assert(after.last() == values@[i as int]@);
            assert(texts(args@) =~= texts(old(args)@) + repeated(flag@, after));
        }
        i = i + 1;
    }
    assert(texts(values@).take(values.len() as int) =~= texts(values@));
}

fn push_selectors(args: &mut Vec<String>, pick: &Vec<String>, skip: &Vec<String>)
    ensures
        texts(final(args)@) == texts(old(args)@) + selector_args(texts(pick@), texts(skip@)),
{
    push_repeated(args, "--pick", pick);
    push_repeated(args, "--skip", skip);
    assert(texts(args@) =~= texts(old(args)@) + selector_args(texts(pick@), texts(skip@)));
}

/// Renders a calculation request.
pub fn build_calc_args(params: &CalcParams) -> (args: Vec<String>)
    ensures
        texts(args@) == calc_args(params@),
{
    let mut args: Vec<String> = Vec::new();
    push_head(&mut args, "calc", params.year);
    push_income(&mut args, params.income, params.income_sg, params.income_fed);
    push_optional_text(&mut args, "--filing-status", &params.filing_status);
    push_selectors(&mut args, &params.pick, &params.skip);
    assert(texts(args@) =~= calc_args(params@));
    args
}

/// Renders an optimisation request.
pub fn build_optimize_args(params: &OptimizeParams) -> (args: Vec<String>)
    ensures
        texts(args@) == optimize_args(params@),
{
    let mut args: Vec<String> = Vec::new();
    push_head(&mut args, "optimize", params.year);
    push_number(&mut args, "--max-deduction", params.max_deduction);
    push_income(&mut args, params.income, params.income_sg, params.income_fed);
    push_optional_number(&mut args, "--step", params.step);
    push_optional_text(&mut args, "--filing-status", &params.filing_status);
    push_optional_text(&mut args, "--tolerance-bp", &params.tolerance_bp);
    let disable = match params.disable_adaptive {
        Some(b) => b,
        None => false,
    };
    push_switch(&mut args, "--disable-adaptive", disable);
    push_selectors(&mut args, &params.pick, &params.skip);
    assert(texts(args@) =~= optimize_args(params@));
    args
}

/// Renders a scan request.
pub fn build_scan_args(params: &ScanParams) -> (args: Vec<String>)
    ensures
        texts(args@) == scan_args(params@),
{
    let mut args: Vec<String> = Vec::new();
    push_head(&mut args, "scan", params.year);
    push_number(&mut args, "--max-deduction", params.max_deduction);
    push_income(&mut args, params.income, params.income_sg, params.income_fed);
    push_optional_number(&mut args, "--d-step", params.d_step);
    push_optional_text(&mut args, "--filing-status", &params.filing_status);
    let suppress = match params.include_local_marginal {
        Some(b) => !b,
        None => false,
    };
    push_switch(&mut args, "--no-include-local-marginal", suppress);
    push_selectors(&mut args, &params.pick, &params.skip);
    assert(texts(args@) =~= scan_args(params@));
    args
}

/// Renders a bracket comparison request.
pub fn build_compare_brackets_args(params: &CompareBracketsParams) -> (args: Vec<String>)
    ensures
        texts(args@) == compare_brackets_args(params@),
{
    let mut args: Vec<String> = Vec::new();
    push_head(&mut args, "compare-brackets", params.year);
    push_income(&mut args, params.income, params.income_sg, params.income_fed);
    push_optional_number(&mut args, "--deduction", params.deduction);
    push_optional_text(&mut args, "--filing-status", &params.filing_status);
    assert(texts(args@) =~= compare_brackets_args(params@));
    args
}

/// Renders a configuration check.
pub fn build_validate_args(params: &ValidateParams) -> (args: Vec<String>)
    ensures
        texts(args@) == validate_args(params.year),
{
    let mut args: Vec<String> = Vec::new();
    push_head(&mut args, "validate", params.year);
    assert(texts(args@) =~= validate_args(params.year));
    args
}

/// Renders the version query.
pub fn build_version_args() -> (args: Vec<String>)
    ensures
        texts(args@) == version_args(),
{
    let mut args: Vec<String> = Vec::new();
    push_text(&mut args, "version");
    push_text(&mut args, "--json");
    push_text(&mut args, "--schema-version");
    assert(texts(args@) =~= version_args());
    args
}

/// An optional text as a sequence of at most one element.
pub open spec fn optional_value(v: Option<Seq<char>>) -> Seq<Seq<char>> {
    match v {
        Some(x) => seq![x],
        None => seq![],
    }
}

/// The texts of a calculation request that go into the vector as they are.
pub open spec fn calc_free_texts(p: CalcParamsView) -> Seq<Seq<char>> {
    optional_value(p.filing_status) + p.pick + p.skip
}

/// The texts of an optimisation request that go into the vector as they are.
pub open spec fn optimize_free_texts(p: OptimizeParamsView) -> Seq<Seq<char>> {
    optional_value(p.filing_status) + optional_value(p.tolerance_bp) + p.pick
        + p.skip
}

/// The texts of a scan request that go into the vector as they are.
pub open spec fn scan_free_texts(p: ScanParamsView) -> Seq<Seq<char>> {
    optional_value(p.filing_status) + p.pick + p.skip
}

/// The texts of a bracket comparison request that go into the vector as they
/// are.
pub open spec fn compare_brackets_free_texts(p: CompareBracketsParamsView) -> Seq<Seq<char>> {
    optional_value(p.filing_status)
}

/// One of the three flags that announce an income.
pub open spec fn is_income_flag(t: Seq<char>) -> bool {
    t == "--income"@ || t == "--income-sg"@ || t == "--income-fed"@
}

/// None of the texts is an income flag.
pub open spec fn no_income_flag_among(free: Seq<Seq<char>>) -> bool {
    forall|i: int| 0 <= i < free.len() ==> !is_income_flag(#[trigger] free[i])
}

/// The two income modes exclude each other in a vector: with a combined
/// income the split flags do not occur, and without one the combined flag
/// does not occur.
pub open spec fn income_modes_exclusive(v: IncomeView, args: Seq<Seq<char>>) -> bool {
    &&& v.income is Some ==> !args.contains("--income-sg"@) && !args.contains("--income-fed"@)
    &&& v.income is None ==> !args.contains("--income"@)
}

proof fn lemma_number_is_no_flag(v: int)
    ensures
        !is_income_flag(decimal(v)),
{
    crate::text::lemma_decimal_ends_with_digit(v);
    reveal_strlit("--income");
    reveal_strlit("--income-sg");
    reveal_strlit("--income-fed");
    assert("--income"@.last() == 'e');
    assert("--income-sg"@.last() == 'g');
    assert("--income-fed"@.last() == 'd');
}

proof fn lemma_fixed_tokens_are_no_flags()
    ensures
        !is_income_flag("calc"@),
        !is_income_flag("optimize"@),
        !is_income_flag("scan"@),
        !is_income_flag("compare-brackets"@),
        !is_income_flag("--json"@),
        !is_income_flag("--year"@),
        !is_income_flag("--max-deduction"@),
        !is_income_flag("--step"@),
        !is_income_flag("--d-step"@),
        !is_income_flag("--deduction"@),
        !is_income_flag("--filing-status"@),
        !is_income_flag("--tolerance-bp"@),
        !is_income_flag("--disable-adaptive"@),
        !is_income_flag("--no-include-local-marginal"@),
        !is_income_flag("--pick"@),
        !is_income_flag("--skip"@),
        "--income"@ != "--income-sg"@,
        "--income"@ != "--income-fed"@,
{
    reveal_strlit("--income");
    reveal_strlit("--income-sg");
    reveal_strlit("--income-fed");
    reveal_strlit("calc");
    reveal_strlit("optimize");
    reveal_strlit("scan");
    reveal_strlit("compare-brackets");
    reveal_strlit("--json");
    reveal_strlit("--year");
    reveal_strlit("--max-deduction");
    reveal_strlit("--step");
    reveal_strlit("--d-step");
    reveal_strlit("--deduction");
    reveal_strlit("--filing-status");
    reveal_strlit("--tolerance-bp");
    reveal_strlit("--disable-adaptive");
    reveal_strlit("--no-include-local-marginal");
    reveal_strlit("--pick");
    reveal_strlit("--skip");
    assert("--income"@.len() == 8 && "--income-sg"@.len() == 11 && "--income-fed"@.len() == 12);
    assert("calc"@.len() == 4 && "scan"@.len() == 4);
    assert("optimize"@[0] != "--income"@[0]);
    assert("--d-step"@[2] != "--income"@[2]);
    assert("--deduction"@[2] != "--income-sg"@[2]);
}

proof fn lemma_income_args_exclusive(v: IncomeView)
    ensures
        income_modes_exclusive(v, income_args(v)),
        forall|i: int|
            0 <= i < income_args(v).len() && is_income_flag(#[trigger] income_args(v)[i]) ==> {
                &&& v.income is Some ==> income_args(v)[i] == "--income"@
                &&& v.income is None ==> income_args(v)[i] != "--income"@
            },
{
    lemma_fixed_tokens_are_no_flags();
    match v.income {
        Some(x) => {
            lemma_number_is_no_flag(x as int);
        },
        None => {
            match (v.income_sg, v.income_fed) {
                (Some(a), Some(b)) => {
                    lemma_number_is_no_flag(a as int);
                    lemma_number_is_no_flag(b as int);
                },
                _ => {},
            }
        },
    }
}

proof fn lemma_repeated_tokens(flag: Seq<char>, values: Seq<Seq<char>>)
    ensures
        forall|i: int|
            0 <= i < repeated(flag, values).len() ==> (#[trigger] repeated(flag, values)[i])
                == flag || values.contains(repeated(flag, values)[i]),
    decreases values.len(),
{
    if values.len() > 0 {
        lemma_repeated_tokens(flag, values.drop_last());
        let shorter = repeated(flag, values.drop_last());
        let all = repeated(flag, values);
        assert forall|i: int| 0 <= i < all.len() implies (#[trigger] all[i]) == flag
            || values.contains(all[i]) by {
            if i < shorter.len() {
                assert(all[i] == shorter[i]);
                if shorter[i] != flag {
                    let k = choose|k: int|
                        0 <= k < values.drop_last().len() && values.drop_last()[k] == shorter[i];
                    assert(values[k] == shorter[i]);
                }
            } else if i == shorter.len() {
                assert(all[i] == flag);
            } else {
                assert(all[i] == values.last());
                assert(values[values.len() - 1] == all[i]);
            }
        }
    }
}

/// What stands in a vector besides its income part: tokens that are no
/// income flags.
proof fn lemma_rest_has_no_flags(rest: Seq<Seq<char>>, free: Seq<Seq<char>>)
    requires
        no_income_flag_among(free),
        forall|i: int|
            0 <= i < rest.len() ==> !is_income_flag(#[trigger] rest[i]) || free.contains(rest[i]),
    ensures
        no_income_flag_among(rest),
{
    assert forall|i: int| 0 <= i < rest.len() implies !is_income_flag(#[trigger] rest[i]) by {
        if free.contains(rest[i]) {
            let k = choose|k: int| 0 <= k < free.len() && free[k] == rest[i];
            assert(!is_income_flag(free[k]));
        }
    }
}

proof fn lemma_exclusive_in_context(
    v: IncomeView,
    before: Seq<Seq<char>>,
    after: Seq<Seq<char>>,
)
    requires
        no_income_flag_among(before),
        no_income_flag_among(after),
    ensures
        income_modes_exclusive(v, before + income_args(v) + after),
{
    lemma_income_args_exclusive(v);
    let mid = income_args(v);
    let all = before + mid + after;
    assert forall|i: int| 0 <= i < all.len() && is_income_flag(#[trigger] all[i]) implies {
        &&& v.income is Some ==> all[i] == "--income"@
        &&& v.income is None ==> all[i] != "--income"@
    } by {
        if i < before.len() {
            assert(all[i] == before[i]);
        } else if i < before.len() + mid.len() {
            assert(all[i] == mid[i - before.len()]);
        } else {
            assert(all[i] == after[i - before.len() - mid.len()]);
        }
    }
    lemma_fixed_tokens_are_no_flags();
    if v.income is Some {
        if all.contains("--income-sg"@) {
            let k = choose|k: int| 0 <= k < all.len() && all[k] == "--income-sg"@;
            assert(is_income_flag(all[k]));
        }
        if all.contains("--income-fed"@) {
            let k = choose|k: int| 0 <= k < all.len() && all[k] == "--income-fed"@;
            assert(is_income_flag(all[k]));
        }
    } else {
        if all.contains("--income"@) {
            let k = choose|k: int| 0 <= k < all.len() && all[k] == "--income"@;
            assert(is_income_flag(all[k]));
        }
    }
}

proof fn lemma_selectors_have_no_flags(pick: Seq<Seq<char>>, skip: Seq<Seq<char>>)
    requires
        no_income_flag_among(pick),
        no_income_flag_among(skip),
    ensures
        no_income_flag_among(selector_args(pick, skip)),
{
    lemma_fixed_tokens_are_no_flags();
    lemma_repeated_tokens("--pick"@, pick);
    lemma_repeated_tokens("--skip"@, skip);
    let a = repeated("--pick"@, pick);
    let b = repeated("--skip"@, skip);
    let all = selector_args(pick, skip);
    assert forall|i: int| 0 <= i < all.len() implies !is_income_flag(#[trigger] all[i]) by {
        if i < a.len() {
            assert(all[i] == a[i]);
            if a[i] != "--pick"@ {
                let k = choose|k: int| 0 <= k < pick.len() && pick[k] == a[i];
                assert(!is_income_flag(pick[k]));
            }
        } else {
            assert(all[i] == b[i - a.len()]);
            if b[i - a.len()] != "--skip"@ {
                let k = choose|k: int| 0 <= k < skip.len() && skip[k] == b[i - a.len()];
                assert(!is_income_flag(skip[k]));
            }
        }
    }
}

proof fn lemma_free_parts(a: Seq<Seq<char>>, b: Seq<Seq<char>>)
    requires
        no_income_flag_among(a + b),
    ensures
        no_income_flag_among(a),
        no_income_flag_among(b),
{
    assert forall|i: int| 0 <= i < a.len() implies !is_income_flag(#[trigger] a[i]) by {
        assert((a + b)[i] == a[i]);
    }
    assert forall|i: int| 0 <= i < b.len() implies !is_income_flag(#[trigger] b[i]) by {
        assert((a + b)[i + a.len()] == b[i]);
    }
}

proof fn lemma_optional_text_has_no_flag(flag: Seq<char>, v: Option<Seq<char>>)
    requires
        !is_income_flag(flag),
        no_income_flag_among(optional_value(v)),
    ensures
        no_income_flag_among(optional_text(flag, v)),
{
    match v {
        Some(x) => {
            assert(optional_value(v)[0] == x);
        },
        None => {},
    }
}

proof fn lemma_optional_number_has_no_flag(flag: Seq<char>, v: Option<i32>)
    requires
        !is_income_flag(flag),
    ensures
        no_income_flag_among(optional_number(flag, v)),
{
    match v {
        Some(x) => {
            lemma_number_is_no_flag(x as int);
        },
        None => {},
    }
}

proof fn lemma_head_has_no_flags(operation: Seq<char>, year: i32)
    requires
        !is_income_flag(operation),
    ensures
        no_income_flag_among(head_args(operation, year)),
{
    lemma_fixed_tokens_are_no_flags();
    lemma_number_is_no_flag(year as int);
}

proof fn lemma_joined_has_no_flags(a: Seq<Seq<char>>, b: Seq<Seq<char>>)
    requires
        no_income_flag_among(a),
        no_income_flag_among(b),
    ensures
        no_income_flag_among(a + b),
{
    assert forall|i: int| 0 <= i < (a + b).len() implies !is_income_flag(#[trigger] (a + b)[i]) by {
        if i < a.len() {
            assert((a + b)[i] == a[i]);
        } else {
            assert((a + b)[i] == b[i - a.len()]);
        }
    }
}

/// The vector of a request is a function of the fields the builder reads:
/// two requests that agree on them, of whatever kind, give the same ordered
/// vector.
pub proof fn lemma_args_depend_on_fields_only(
    calc: (CalcParams, CalcParams),
    optimize: (OptimizeParams, OptimizeParams),
    scan: (ScanParams, ScanParams),
    compare: (CompareBracketsParams, CompareBracketsParams),
    validate: (ValidateParams, ValidateParams),
)
    ensures
        calc.0@ == calc.1@ ==> calc_args(calc.0@) == calc_args(calc.1@),
        optimize.0@ == optimize.1@ ==> optimize_args(optimize.0@) == optimize_args(optimize.1@),
        scan.0@ == scan.1@ ==> scan_args(scan.0@) == scan_args(scan.1@),
        compare.0@ == compare.1@ ==> compare_brackets_args(compare.0@) == compare_brackets_args(
            compare.1@,
        ),
        validate.0.year == validate.1.year ==> validate_args(validate.0.year) == validate_args(
            validate.1.year,
        ),
{
}

/// In the vector of a calculation the two income modes exclude each other,
/// as long as no text of the request is itself an income flag.
pub proof fn lemma_calc_income_modes_exclusive(p: CalcParamsView)
    requires
        no_income_flag_among(calc_free_texts(p)),
    ensures
        income_modes_exclusive(p.income, calc_args(p)),
{
    lemma_fixed_tokens_are_no_flags();
    let status = optional_value(p.filing_status);
    lemma_free_parts(status + p.pick, p.skip);
    lemma_free_parts(status, p.pick);
    lemma_head_has_no_flags("calc"@, p.year);
    lemma_optional_text_has_no_flag("--filing-status"@, p.filing_status);
    lemma_selectors_have_no_flags(p.pick, p.skip);
    let before = head_args("calc"@, p.year);
    let after = optional_text("--filing-status"@, p.filing_status) + selector_args(p.pick, p.skip);
    lemma_joined_has_no_flags(
        optional_text("--filing-status"@, p.filing_status),
        selector_args(p.pick, p.skip),
    );
    lemma_exclusive_in_context(p.income, before, after);
    assert(calc_args(p) =~= before + income_args(p.income) + after);
}

/// In the vector of an optimisation the two income modes exclude each other,
/// as long as no text of the request is itself an income flag.
pub proof fn lemma_optimize_income_modes_exclusive(p: OptimizeParamsView)
    requires
        no_income_flag_among(optimize_free_texts(p)),
    ensures
        income_modes_exclusive(p.income, optimize_args(p)),
{
    lemma_fixed_tokens_are_no_flags();
    let status = optional_value(p.filing_status);
    let tolerance = optional_value(p.tolerance_bp);
    lemma_free_parts(status + tolerance + p.pick, p.skip);
    lemma_free_parts(status + tolerance, p.pick);
    lemma_free_parts(status, tolerance);
    lemma_head_has_no_flags("optimize"@, p.year);
    lemma_number_is_no_flag(p.max_deduction as int);
    lemma_optional_number_has_no_flag("--step"@, p.step);
    lemma_optional_text_has_no_flag("--filing-status"@, p.filing_status);
    lemma_optional_text_has_no_flag("--tolerance-bp"@, p.tolerance_bp);
    lemma_selectors_have_no_flags(p.pick, p.skip);
    let before = head_args("optimize"@, p.year) + flag_value(
        "--max-deduction"@,
        decimal(p.max_deduction as int),
    );
    lemma_joined_has_no_flags(
        head_args("optimize"@, p.year),
        flag_value("--max-deduction"@, decimal(p.max_deduction as int)),
    );
    let a1 = optional_number("--step"@, p.step);
    let a2 = a1 + optional_text("--filing-status"@, p.filing_status);
    let a3 = a2 + optional_text("--tolerance-bp"@, p.tolerance_bp);
    let a4 = a3 + switch("--disable-adaptive"@, p.disable_adaptive == Some(true));
    let after = a4 + selector_args(p.pick, p.skip);
    lemma_joined_has_no_flags(a1, optional_text("--filing-status"@, p.filing_status));
    lemma_joined_has_no_flags(a2, optional_text("--tolerance-bp"@, p.tolerance_bp));
    lemma_joined_has_no_flags(a3, switch("--disable-adaptive"@, p.disable_adaptive == Some(true)));
    lemma_joined_has_no_flags(a4, selector_args(p.pick, p.skip));
    lemma_exclusive_in_context(p.income, before, after);
    assert(optimize_args(p) =~= before + income_args(p.income) + after);
}

/// In the vector of a scan the two income modes exclude each other, as long
/// as no text of the request is itself an income flag.
pub proof fn lemma_scan_income_modes_exclusive(p: ScanParamsView)
    requires
        no_income_flag_among(scan_free_texts(p)),
    ensures
        income_modes_exclusive(p.income, scan_args(p)),
{
    lemma_fixed_tokens_are_no_flags();
    let status = optional_value(p.filing_status);
    lemma_free_parts(status + p.pick, p.skip);
    lemma_free_parts(status, p.pick);
    lemma_head_has_no_flags("scan"@, p.year);
    lemma_number_is_no_flag(p.max_deduction as int);
    lemma_optional_number_has_no_flag("--d-step"@, p.d_step);
    lemma_optional_text_has_no_flag("--filing-status"@, p.filing_status);
    lemma_selectors_have_no_flags(p.pick, p.skip);
    let before = head_args("scan"@, p.year) + flag_value(
        "--max-deduction"@,
        decimal(p.max_deduction as int),
    );
    lemma_joined_has_no_flags(
        head_args("scan"@, p.year),
        flag_value("--max-deduction"@, decimal(p.max_deduction as int)),
    );
    let a1 = optional_number("--d-step"@, p.d_step);
    let a2 = a1 + optional_text("--filing-status"@, p.filing_status);
    let a3 = a2 + switch(
        "--no-include-local-marginal"@,
        p.include_local_marginal == Some(false),
    );
    let after = a3 + selector_args(p.pick, p.skip);
    lemma_joined_has_no_flags(a1, optional_text("--filing-status"@, p.filing_status));
    lemma_joined_has_no_flags(
        a2,
        switch("--no-include-local-marginal"@, p.include_local_marginal == Some(false)),
    );
    lemma_joined_has_no_flags(a3, selector_args(p.pick, p.skip));
    lemma_exclusive_in_context(p.income, before, after);
    assert(scan_args(p) =~= before + income_args(p.income) + after);
}

/// In the vector of a bracket comparison the two income modes exclude each
/// other, as long as no text of the request is itself an income flag.
pub proof fn lemma_compare_brackets_income_modes_exclusive(p: CompareBracketsParamsView)
    requires
        no_income_flag_among(compare_brackets_free_texts(p)),
    ensures
        income_modes_exclusive(p.income, compare_brackets_args(p)),
{
    lemma_fixed_tokens_are_no_flags();
    lemma_head_has_no_flags("compare-brackets"@, p.year);
    lemma_optional_number_has_no_flag("--deduction"@, p.deduction);
    lemma_optional_text_has_no_flag("--filing-status"@, p.filing_status);
    let before = head_args("compare-brackets"@, p.year);
    let after = optional_number("--deduction"@, p.deduction) + optional_text(
        "--filing-status"@,
        p.filing_status,
    );
    lemma_joined_has_no_flags(
        optional_number("--deduction"@, p.deduction),
        optional_text("--filing-status"@, p.filing_status),
    );
    lemma_exclusive_in_context(p.income, before, after);
    assert(compare_brackets_args(p) =~= before + income_args(p.income) + after);
}

} // verus!
