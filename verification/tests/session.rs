use serde_json::Value;
use taxglide_bridge::cli_integration::{CliIntegration, CommandRequest};
use taxglide_bridge::cli_types::{
    CalcParams, CompareBracketsParams, Instant, OptimizeParams, ScanParams, ValidateParams,
    ValidateResult, VersionInfo,
};
use taxglide_bridge::error::CliError;
use taxglide_bridge::invoker::{Invocation, ProcessOutcome};
use taxglide_bridge::resolver::{Candidate, EngineMode};
use taxglide_bridge::session::{
    compare_brackets, finish_operation, finish_validate_config, get_cli_status, get_version_info, init_cli,
    is_cli_ready, optimize, prepare_init, report_failure, require_ready, scan, validate_config,
    CliState, CliStatusInfo, Operation,
};

fn found() -> Vec<Candidate> {
    vec![Candidate {
        path: "/app/taxglide.exe".to_string(),
        mode: EngineMode::CompiledExecutable,
        exists: true,
    }]
}

fn version_text(schema: &str) -> String {
    format!(
        r#"{{"success": true, "schema_version": "{0}", "timestamp": "2024-03-01T12:00:00Z", "data": {{"version": "0.9.1", "platform": "win32", "schema_version": "{0}", "build_date": "2024-03-01T12:00:00Z"}}}}"#,
        schema
    )
}

fn answered(text: &str) -> ProcessOutcome {
    ProcessOutcome::Exited {
        success: true,
        code: Some(0),
        stdout_lines: text.lines().map(|l| format!("{}\n", l)).collect(),
        stderr_lines: Vec::new(),
    }
}

fn version_info(schema: &str) -> VersionInfo {
    VersionInfo {
        version: "0.9.1".to_string(),
        platform: "win32".to_string(),
        schema_version: schema.to_string(),
        build_date: Instant { secs: 1709294400, nanos: 0 },
    }
}

fn ready_state() -> CliState {
    let mut state = CliState::new();
    let cli = prepare_init(&found()).unwrap();
    init_cli(&mut state, cli, &answered(&version_text("1.0"))).unwrap();
    state
}

fn calc_request(income: Option<i32>) -> CalcParams {
    CalcParams {
        year: 2024,
        income,
        income_sg: None,
        income_fed: None,
        filing_status: None,
        pick: Vec::new(),
        skip: Vec::new(),
        canton: None,
        municipality: None,
    }
}

fn optimize_request(income: Option<i32>, max_deduction: i32, step: Option<i32>) -> OptimizeParams {
    OptimizeParams {
        year: 2024,
        income,
        income_sg: None,
        income_fed: None,
        max_deduction,
        step,
        filing_status: None,
        pick: Vec::new(),
        skip: Vec::new(),
        tolerance_bp: None,
        disable_adaptive: None,
        canton: None,
        municipality: None,
    }
}

fn scan_request(income: Option<i32>, max_deduction: i32, d_step: Option<i32>) -> ScanParams {
    ScanParams {
        year: 2024,
        income,
        income_sg: None,
        income_fed: None,
        max_deduction,
        d_step,
        filing_status: None,
        pick: Vec::new(),
        skip: Vec::new(),
        include_local_marginal: None,
        canton: None,
        municipality: None,
    }
}

fn compare_request(income: Option<i32>, deduction: Option<i32>) -> CompareBracketsParams {
    CompareBracketsParams {
        year: 2024,
        income,
        income_sg: None,
        income_fed: None,
        deduction,
        filing_status: None,
        canton: None,
        municipality: None,
    }
}

fn words(list: &[&str]) -> Vec<String> {
    list.iter().map(|s| s.to_string()).collect()
}

#[test]
fn a_new_session_is_not_ready() {
    let state = CliState::new();
    assert_eq!(is_cli_ready(&state), Ok(false));
    assert_eq!(get_version_info(&state), Ok(None));
    assert_eq!(
        get_cli_status(&state),
        Ok(CliStatusInfo {
            initialized: false,
            version_info: None,
            error: Some("CLI not initialized".to_string())
        })
    );
    assert!(state.cli().is_none());
}

#[test]
fn a_failed_search_fails_the_initialization() {
    assert_eq!(
        prepare_init(&vec![Candidate {
            path: "/x/taxglide.exe".to_string(),
            mode: EngineMode::CompiledExecutable,
            exists: false
        }]),
        Err("Failed to create CLI integration: CLI executable not found: Cannot find CLI executable. Searched for: \"/x/taxglide.exe\"".to_string())
    );
}

#[test]
fn a_compatible_engine_makes_the_session_ready() {
    let mut state = CliState::new();
    let cli = prepare_init(&found()).unwrap();
    let request = cli.compatibility_request();
    assert_eq!(
        request,
        CommandRequest { args: words(&["version", "--json", "--schema-version"]), timeout_secs: 10 }
    );
    assert_eq!(
        init_cli(&mut state, cli, &answered(&version_text("1.0"))),
        Ok(version_info("1.0"))
    );
    assert_eq!(is_cli_ready(&state), Ok(true));
    assert_eq!(get_version_info(&state), Ok(Some(version_info("1.0"))));
    assert_eq!(
        get_cli_status(&state),
        Ok(CliStatusInfo {
            initialized: true,
            version_info: Some(version_info("1.0")),
            error: None
        })
    );
    assert_eq!(state.cli().unwrap().location().path, "/app/taxglide.exe");
}

#[test]
fn another_schema_version_never_makes_the_session_ready() {
    let mut state = CliState::new();
    let cli = prepare_init(&found()).unwrap();
    assert_eq!(
        init_cli(&mut state, cli, &answered(&version_text("2.0"))),
        Err("CLI compatibility check failed: Schema version mismatch: expected 1.0, got 2.0"
            .to_string())
    );
    assert_eq!(is_cli_ready(&state), Ok(false));
    assert_eq!(get_version_info(&state), Ok(None));
}

#[test]
fn a_mismatch_is_a_schema_mismatch_and_caches_nothing() {
    let mut cli = CliIntegration::new(&found()).unwrap();
    assert_eq!(
        cli.check_compatibility(&answered(&version_text("1.1"))),
        Err(CliError::SchemaMismatch { expected: "1.0".to_string(), actual: "1.1".to_string() })
    );
    assert_eq!(cli.get_version_info(), None);
    assert_eq!(cli.check_compatibility(&answered(&version_text("1.0"))), Ok(version_info("1.0")));
    assert_eq!(cli.get_version_info(), Some(&version_info("1.0")));
    assert_eq!(
        cli.check_compatibility(&ProcessOutcome::TimedOut),
        Err(CliError::Timeout { seconds: 10 })
    );
    assert_eq!(cli.get_version_info(), Some(&version_info("1.0")));
}

#[test]
fn a_failed_initialization_leaves_a_ready_session_as_it_was() {
    let mut state = ready_state();
    let before = ready_state();
    let cli = prepare_init(&found()).unwrap();
    assert_eq!(
        init_cli(&mut state, cli, &ProcessOutcome::TimedOut),
        Err("CLI compatibility check failed: Process timeout after 10 seconds".to_string())
    );
    assert_eq!(state, before);
    let cli = prepare_init(&found()).unwrap();
    let failure = r#"{"success": false, "schema_version": "1.0", "timestamp": "2024-03-01T12:00:00Z", "error": {"code": "E", "message": "broken"}}"#;
    assert_eq!(
        init_cli(&mut state, cli, &answered(failure)),
        Err("CLI compatibility check failed: CLI returned error: E - broken".to_string())
    );
    assert_eq!(state, before);
}

#[test]
fn an_initialization_may_be_repeated() {
    let mut state = ready_state();
    let other = vec![Candidate {
        path: "/dev/main.py".to_string(),
        mode: EngineMode::InterpretedScript,
        exists: true,
    }];
    let cli = prepare_init(&other).unwrap();
    assert!(init_cli(&mut state, cli, &answered(&version_text("1.0"))).is_ok());
    assert_eq!(state.cli().unwrap().location().path, "/dev/main.py");
    assert_eq!(state.cli().unwrap().location().mode, EngineMode::InterpretedScript);
}

#[test]
fn operations_fail_at_once_before_initialization() {
    let state = CliState::new();
    let not_ready = Err("CLI not initialized. Call init_cli first.".to_string());
    assert_eq!(taxglide_bridge::session::calc(&state, &calc_request(Some(1))), not_ready);
    assert_eq!(optimize(&state, &optimize_request(Some(1), 10, None)), not_ready);
    assert_eq!(scan(&state, &scan_request(Some(1), 10, None)), not_ready);
    assert_eq!(compare_brackets(&state, &compare_request(Some(1), None)), not_ready);
    assert_eq!(validate_config(&state, &ValidateParams { year: 2024 }), not_ready);
    assert_eq!(taxglide_bridge::session::calc(&state, &calc_request(None)), not_ready);
}

#[test]
fn the_validator_speaks_first() {
    let state = CliState::new();
    assert_eq!(
        taxglide_bridge::session::calc(&state, &calc_request(Some(-1))),
        Err("Income cannot be negative. Even tax authorities aren't that generous!".to_string())
    );
    let ready = ready_state();
    assert_eq!(
        optimize(&ready, &optimize_request(Some(1), -1, None)),
        Err("Max deduction cannot be negative. That would be... weird.".to_string())
    );
    assert_eq!(
        scan(&ready, &scan_request(Some(1), 10, Some(-1))),
        Err("Deduction step must be positive. Zero steps won't get you anywhere!".to_string())
    );
    assert_eq!(
        compare_brackets(&ready, &compare_request(Some(1), Some(-2))),
        Err("Max deduction cannot be negative. That would be... weird.".to_string())
    );
    assert_eq!(
        optimize(&ready, &optimize_request(Some(-1), -1, None)),
        Err("Income cannot be negative. Even tax authorities aren't that generous!".to_string())
    );
}

#[test]
fn a_request_without_income_is_rejected() {
    let ready = ready_state();
    let text = "Invalid parameters: Must provide either income or both income_sg and income_fed";
    assert_eq!(taxglide_bridge::session::calc(&ready, &calc_request(None)), Err(format!("Calculation failed: {}", text)));
    assert_eq!(
        optimize(&ready, &optimize_request(None, 10, None)),
        Err(format!("Optimization failed: {}", text))
    );
    assert_eq!(scan(&ready, &scan_request(None, 10, None)), Err(format!("Scan failed: {}", text)));
    assert_eq!(
        compare_brackets(&ready, &compare_request(None, None)),
        Err(format!("Compare brackets failed: {}", text))
    );
    let mut half = calc_request(None);
    half.income_sg = Some(1);
    assert_eq!(taxglide_bridge::session::calc(&ready, &half), Err(format!("Calculation failed: {}", text)));
    assert_eq!(
        ready.cli().unwrap().calc(&half),
        Err(CliError::InvalidParameters(
            "Must provide either income or both income_sg and income_fed".to_string()
        ))
    );
}

#[test]
fn a_ready_session_yields_requests_with_their_budgets() {
    let ready = ready_state();
    assert_eq!(
        taxglide_bridge::session::calc(&ready, &calc_request(Some(80000))),
        Ok(CommandRequest {
            args: words(&["calc", "--json", "--year", "2024", "--income", "80000"]),
            timeout_secs: 30
        })
    );
    assert_eq!(
        optimize(&ready, &optimize_request(Some(80000), 5000, Some(100))),
        Ok(CommandRequest {
            args: words(&[
                "optimize",
                "--json",
                "--year",
                "2024",
                "--max-deduction",
                "5000",
                "--income",
                "80000",
                "--step",
                "100"
            ]),
            timeout_secs: 60
        })
    );
    assert_eq!(
        scan(&ready, &scan_request(Some(80000), 5000, None)),
        Ok(CommandRequest {
            args: words(&[
                "scan",
                "--json",
                "--year",
                "2024",
                "--max-deduction",
                "5000",
                "--income",
                "80000"
            ]),
            timeout_secs: 60
        })
    );
    assert_eq!(
        compare_brackets(&ready, &compare_request(Some(80000), Some(1000))),
        Ok(CommandRequest {
            args: words(&[
                "compare-brackets",
                "--json",
                "--year",
                "2024",
                "--income",
                "80000",
                "--deduction",
                "1000"
            ]),
            timeout_secs: 30
        })
    );
    assert_eq!(
        validate_config(&ready, &ValidateParams { year: 2024 }),
        Ok(CommandRequest {
            args: words(&["validate", "--json", "--year", "2024"]),
            timeout_secs: 30
        })
    );
}

#[test]
fn an_operation_ends_with_data_or_one_line_of_text() {
    let request = CommandRequest { args: Vec::new(), timeout_secs: 30 };
    let good = r#"{"success": true, "schema_version": "1.0", "timestamp": "2024-03-01T12:00:00Z", "data": {"total": 5}}"#;
    let data: Value = serde_json::from_str(r#"{"total": 5}"#).unwrap();
    assert_eq!(finish_operation(Operation::Calc, &request, &answered(good)), Ok(data));
    assert_eq!(
        finish_operation(Operation::Calc, &request, &ProcessOutcome::TimedOut),
        Err("Calculation failed: Process timeout after 30 seconds".to_string())
    );
    let failure = r#"{"success": false, "schema_version": "1.0", "timestamp": "2024-03-01T12:00:00Z", "error": {"code": "E_YEAR", "message": "no such year"}}"#;
    assert_eq!(
        finish_operation(Operation::Scan, &request, &answered(failure)),
        Err("Scan failed: CLI returned error: E_YEAR - no such year".to_string())
    );
    assert_eq!(
        finish_operation(
            Operation::Optimize,
            &request,
            &ProcessOutcome::Exited {
                success: false,
                code: Some(2),
                stdout_lines: Vec::new(),
                stderr_lines: vec!["usage: ...\n".to_string()]
            }
        ),
        Err("Optimization failed: Process execution failed: usage: ...".to_string())
    );
    assert_eq!(
        finish_operation(Operation::ValidateConfig, &request, &answered("{}")),
        Err("Validation failed: JSON parsing error: envelope field `success` is missing or not a boolean".to_string())
    );
}

#[test]
fn every_operation_has_its_own_words() {
    let e = CliError::IoError("x".to_string());
    let words = [
        (Operation::Calc, "Calculation failed: "),
        (Operation::Optimize, "Optimization failed: "),
        (Operation::Scan, "Scan failed: "),
        (Operation::CompareBrackets, "Compare brackets failed: "),
        (Operation::ValidateConfig, "Validation failed: "),
        (Operation::GetAvailableLocations, "Get locations failed: "),
        (Operation::ListYears, "List years failed: "),
        (Operation::GetConfigSummary, "Get config summary failed: "),
        (Operation::CreateYear, "Create year failed: "),
        (Operation::UpdateFederalBrackets, "Update federal brackets failed: "),
        (Operation::CreateCanton, "Create canton failed: "),
        (Operation::UpdateCanton, "Update canton failed: "),
        (Operation::DeleteCanton, "Delete canton failed: "),
        (Operation::CreateMunicipality, "Create municipality failed: "),
        (Operation::UpdateMunicipality, "Update municipality failed: "),
        (Operation::GetFederalSegments, "Get federal segments failed: "),
        (Operation::GetCanton, "Get canton failed: "),
    ];
    for (op, prefix) in words {
        assert_eq!(report_failure(op, &e), format!("{}IO error: x", prefix));
    }
    let request = CommandRequest { args: Vec::new(), timeout_secs: 30 };
    assert_eq!(
        finish_operation(Operation::ListYears, &request, &ProcessOutcome::TimedOut),
        Err("List years failed: Process timeout after 30 seconds".to_string())
    );
}

#[test]
fn the_guard_answers_for_a_session_that_is_not_ready() {
    let state = CliState::new();
    assert_eq!(
        require_ready(&state).map(|_| ()),
        Err("CLI not initialized. Call init_cli first.".to_string())
    );
    let ready = ready_state();
    assert_eq!(require_ready(&ready).unwrap().location().path, "/app/taxglide.exe");
}

#[test]
fn a_zero_step_passes_the_validator() {
    let ready = ready_state();
    assert_eq!(
        scan(&ready, &scan_request(Some(1), 10, Some(0))),
        Ok(CommandRequest {
            args: words(&[
                "scan",
                "--json",
                "--year",
                "2024",
                "--max-deduction",
                "10",
                "--income",
                "1",
                "--d-step",
                "0"
            ]),
            timeout_secs: 60
        })
    );
    assert!(optimize(&ready, &optimize_request(Some(1), 10, Some(0))).is_ok());
}

#[test]
fn the_handle_says_what_to_start() {
    let ready = ready_state();
    let cli = ready.cli().unwrap();
    let request = cli.compatibility_request();
    assert_eq!(
        cli.invocation(Some("/venv/python".to_string()), &request),
        Invocation {
            program: "/app/taxglide.exe".to_string(),
            args: words(&["version", "--json", "--schema-version"])
        }
    );
    let script = CliIntegration::new(&vec![Candidate {
        path: "/dev/main.py".to_string(),
        mode: EngineMode::InterpretedScript,
        exists: true,
    }])
    .unwrap();
    assert_eq!(
        script.invocation(None, &request),
        Invocation {
            program: "python".to_string(),
            args: words(&["/dev/main.py", "version", "--json", "--schema-version"])
        }
    );
    assert_eq!(
        script.invocation(Some("/dev/.venv/Scripts/python.exe".to_string()), &request),
        Invocation {
            program: "/dev/.venv/Scripts/python.exe".to_string(),
            args: words(&["/dev/main.py", "version", "--json", "--schema-version"])
        }
    );
}

#[test]
fn a_configuration_check_ends_with_its_answer() {
    let request = CommandRequest { args: Vec::new(), timeout_secs: 30 };
    let good = r#"{"success": true, "schema_version": "1.0", "timestamp": "2024-03-01T12:00:00Z", "data": {"status": "ok", "year": 2024, "message": "fine"}}"#;
    assert_eq!(
        finish_validate_config(&request, &answered(good)),
        Ok(ValidateResult { status: "ok".to_string(), year: 2024, message: "fine".to_string() })
    );
    let odd = r#"{"success": true, "schema_version": "1.0", "timestamp": "2024-03-01T12:00:00Z", "data": {"status": "ok", "year": "2024", "message": "fine"}}"#;
    assert_eq!(
        finish_validate_config(&request, &answered(odd)),
        Err("Validation failed: JSON parsing error: validation field `year` is missing or not an integer of 32 bits".to_string())
    );
    assert_eq!(
        finish_validate_config(&request, &ProcessOutcome::TimedOut),
        Err("Validation failed: Process timeout after 30 seconds".to_string())
    );
}
