use taxglide_bridge::args::{
    build_calc_args, build_compare_brackets_args, build_optimize_args, build_scan_args,
    build_validate_args, build_version_args,
};
use taxglide_bridge::cli_types::{
    CalcParams, CompareBracketsParams, OptimizeParams, ScanParams, ValidateParams,
};

fn calc_params(year: i32) -> CalcParams {
    CalcParams {
        year,
        income: None,
        income_sg: None,
        income_fed: None,
        filing_status: None,
        pick: Vec::new(),
        skip: Vec::new(),
        canton: None,
        municipality: None,
    }
}

fn optimize_params(year: i32, max_deduction: i32) -> OptimizeParams {
    OptimizeParams {
        year,
        income: None,
        income_sg: None,
        income_fed: None,
        max_deduction,
        step: None,
        filing_status: None,
        pick: Vec::new(),
        skip: Vec::new(),
        tolerance_bp: None,
        disable_adaptive: None,
        canton: None,
        municipality: None,
    }
}

fn scan_params(year: i32, max_deduction: i32) -> ScanParams {
    ScanParams {
        year,
        income: None,
        income_sg: None,
        income_fed: None,
        max_deduction,
        d_step: None,
        filing_status: None,
        pick: Vec::new(),
        skip: Vec::new(),
        include_local_marginal: None,
        canton: None,
        municipality: None,
    }
}

fn compare_params(year: i32) -> CompareBracketsParams {
    CompareBracketsParams {
        year,
        income: None,
        income_sg: None,
        income_fed: None,
        deduction: None,
        filing_status: None,
        canton: None,
        municipality: None,
    }
}

fn words(list: &[&str]) -> Vec<String> {
    list.iter().map(|s| s.to_string()).collect()
}

#[test]
fn calc_with_combined_income() {
    let mut p = calc_params(2024);
    p.income = Some(80000);
    assert_eq!(
        build_calc_args(&p),
        vec!["calc", "--json", "--year", "2024", "--income", "80000"]
    );
}

#[test]
fn calc_with_split_income() {
    let mut p = calc_params(2024);
    p.income_sg = Some(50000);
    p.income_fed = Some(60000);
    assert_eq!(
        build_calc_args(&p),
        vec![
            "calc",
            "--json",
            "--year",
            "2024",
            "--income-sg",
            "50000",
            "--income-fed",
            "60000"
        ]
    );
}

#[test]
fn combined_income_wins_over_split_income() {
    let mut p = calc_params(2024);
    p.income = Some(80000);
    p.income_sg = Some(50000);
    p.income_fed = Some(60000);
    let args = build_calc_args(&p);
    assert_eq!(args, vec!["calc", "--json", "--year", "2024", "--income", "80000"]);
    assert!(!args.contains(&"--income-sg".to_string()));
    assert!(!args.contains(&"--income-fed".to_string()));
}

#[test]
fn split_income_never_brings_the_combined_flag() {
    let mut p = scan_params(2025, 10000);
    p.income_sg = Some(1);
    p.income_fed = Some(2);
    let args = build_scan_args(&p);
    assert!(!args.contains(&"--income".to_string()));
    assert!(args.contains(&"--income-sg".to_string()));
    assert!(args.contains(&"--income-fed".to_string()));
}

#[test]
fn half_a_split_income_is_not_emitted() {
    let mut p = calc_params(2024);
    p.income_sg = Some(50000);
    assert_eq!(build_calc_args(&p), vec!["calc", "--json", "--year", "2024"]);
    let mut q = calc_params(2024);
    q.income_fed = Some(60000);
    assert_eq!(build_calc_args(&q), vec!["calc", "--json", "--year", "2024"]);
}

#[test]
fn calc_with_filing_status_and_selectors_in_order() {
    let mut p = calc_params(2023);
    p.income = Some(0);
    p.filing_status = Some("married_joint".to_string());
    p.pick = words(&["FEUER", "KIRCHE"]);
    p.skip = words(&["B", "A"]);
    p.canton = Some("sg".to_string());
    p.municipality = Some("st_gallen".to_string());
    assert_eq!(
        build_calc_args(&p),
        vec![
            "calc",
            "--json",
            "--year",
            "2023",
            "--income",
            "0",
            "--filing-status",
            "married_joint",
            "--pick",
            "FEUER",
            "--pick",
            "KIRCHE",
            "--skip",
            "B",
            "--skip",
            "A"
        ]
    );
}

#[test]
fn numbers_are_rendered_in_decimal() {
    let mut p = calc_params(-7);
    p.income = Some(i32::MAX);
    assert_eq!(
        build_calc_args(&p),
        vec!["calc", "--json", "--year", "-7", "--income", "2147483647"]
    );
    let mut q = calc_params(i32::MIN);
    q.income = Some(-10);
    assert_eq!(
        build_calc_args(&q),
        vec!["calc", "--json", "--year", "-2147483648", "--income", "-10"]
    );
}

#[test]
fn same_request_gives_the_same_vector() {
    let mut p = optimize_params(2024, 20000);
    p.income = Some(90000);
    p.pick = words(&["X"]);
    let q = p.clone();
    assert_eq!(build_optimize_args(&p), build_optimize_args(&q));
    assert_eq!(build_optimize_args(&p), build_optimize_args(&p));
}

#[test]
fn optimize_with_every_option() {
    let mut p = optimize_params(2024, 20000);
    p.income_sg = Some(70000);
    p.income_fed = Some(75000);
    p.step = Some(100);
    p.filing_status = Some("single".to_string());
    p.tolerance_bp = Some("12.5".to_string());
    p.disable_adaptive = Some(true);
    p.pick = words(&["P"]);
    p.skip = words(&["S"]);
    assert_eq!(
        build_optimize_args(&p),
        vec![
            "optimize",
            "--json",
            "--year",
            "2024",
            "--max-deduction",
            "20000",
            "--income-sg",
            "70000",
            "--income-fed",
            "75000",
            "--step",
            "100",
            "--filing-status",
            "single",
            "--tolerance-bp",
            "12.5",
            "--disable-adaptive",
            "--pick",
            "P",
            "--skip",
            "S"
        ]
    );
}

#[test]
fn optimize_without_options() {
    let mut p = optimize_params(2024, 0);
    p.income = Some(1);
    p.disable_adaptive = Some(false);
    assert_eq!(
        build_optimize_args(&p),
        vec!["optimize", "--json", "--year", "2024", "--max-deduction", "0", "--income", "1"]
    );
    p.disable_adaptive = None;
    assert_eq!(
        build_optimize_args(&p),
        vec!["optimize", "--json", "--year", "2024", "--max-deduction", "0", "--income", "1"]
    );
}

#[test]
fn scan_suppresses_local_marginal_only_on_explicit_false() {
    let mut p = scan_params(2024, 5000);
    p.income = Some(80000);
    p.include_local_marginal = Some(false);
    assert_eq!(
        build_scan_args(&p),
        vec![
            "scan",
            "--json",
            "--year",
            "2024",
            "--max-deduction",
            "5000",
            "--income",
            "80000",
            "--no-include-local-marginal"
        ]
    );
    p.include_local_marginal = Some(true);
    let with_true = build_scan_args(&p);
    assert_eq!(
        with_true,
        vec!["scan", "--json", "--year", "2024", "--max-deduction", "5000", "--income", "80000"]
    );
    p.include_local_marginal = None;
    let with_none = build_scan_args(&p);
    assert_eq!(with_none, with_true);
    assert!(!with_none.iter().any(|a| a.contains("include-local-marginal")));
}

#[test]
fn scan_with_step_and_selectors() {
    let mut p = scan_params(2024, 5000);
    p.income = Some(80000);
    p.d_step = Some(250);
    p.filing_status = Some("single".to_string());
    p.include_local_marginal = Some(false);
    p.pick = words(&["A"]);
    assert_eq!(
        build_scan_args(&p),
        vec![
            "scan",
            "--json",
            "--year",
            "2024",
            "--max-deduction",
            "5000",
            "--income",
            "80000",
            "--d-step",
            "250",
            "--filing-status",
            "single",
            "--no-include-local-marginal",
            "--pick",
            "A"
        ]
    );
}

#[test]
fn compare_brackets_with_deduction() {
    let mut p = compare_params(2024);
    p.income = Some(80000);
    p.deduction = Some(3000);
    p.filing_status = Some("single".to_string());
    assert_eq!(
        build_compare_brackets_args(&p),
        vec![
            "compare-brackets",
            "--json",
            "--year",
            "2024",
            "--income",
            "80000",
            "--deduction",
            "3000",
            "--filing-status",
            "single"
        ]
    );
    let mut q = compare_params(2024);
    q.income_sg = Some(1);
    q.income_fed = Some(2);
    assert_eq!(
        build_compare_brackets_args(&q),
        vec![
            "compare-brackets",
            "--json",
            "--year",
            "2024",
            "--income-sg",
            "1",
            "--income-fed",
            "2"
        ]
    );
}

#[test]
fn validate_and_version_vectors() {
    assert_eq!(
        build_validate_args(&ValidateParams { year: 2025 }),
        vec!["validate", "--json", "--year", "2025"]
    );
    assert_eq!(build_version_args(), vec!["version", "--json", "--schema-version"]);
}
