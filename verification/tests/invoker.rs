use taxglide_bridge::error::CliError;
use taxglide_bridge::invoker::{
    collect_stream, interpret_outcome, plan_invocation, Invocation, ProcessOutcome,
    QUICK_TIMEOUT_SECS, SEARCH_TIMEOUT_SECS, STANDARD_TIMEOUT_SECS,
};
use taxglide_bridge::resolver::{EngineLocation, EngineMode};

fn lines(list: &[&str]) -> Vec<String> {
    list.iter().map(|s| s.to_string()).collect()
}

fn exited(success: bool, code: Option<i32>, out: &[&str], err: &[&str]) -> ProcessOutcome {
    ProcessOutcome::Exited { success, code, stdout_lines: lines(out), stderr_lines: lines(err) }
}

#[test]
fn budgets_differ_by_cost_class() {
    assert_eq!(QUICK_TIMEOUT_SECS, 10);
    assert_eq!(STANDARD_TIMEOUT_SECS, 30);
    assert_eq!(SEARCH_TIMEOUT_SECS, 60);
}

#[test]
fn a_program_is_started_directly() {
    let location = EngineLocation {
        path: "/app/taxglide.exe".to_string(),
        mode: EngineMode::CompiledExecutable,
    };
    assert_eq!(
        plan_invocation(&location, None, &lines(&["calc", "--json"])),
        Invocation { program: "/app/taxglide.exe".to_string(), args: lines(&["calc", "--json"]) }
    );
    assert_eq!(
        plan_invocation(&location, Some("/venv/python".to_string()), &lines(&["calc"])),
        Invocation { program: "/app/taxglide.exe".to_string(), args: lines(&["calc"]) }
    );
}

#[test]
fn a_script_is_started_through_an_interpreter() {
    let location =
        EngineLocation { path: "/src/main.py".to_string(), mode: EngineMode::InterpretedScript };
    assert_eq!(
        plan_invocation(&location, Some("/src/.venv/Scripts/python.exe".to_string()), &lines(&["a", "b"])),
        Invocation {
            program: "/src/.venv/Scripts/python.exe".to_string(),
            args: lines(&["/src/main.py", "a", "b"])
        }
    );
    assert_eq!(
        plan_invocation(&location, None, &Vec::new()),
        Invocation { program: "python".to_string(), args: lines(&["/src/main.py"]) }
    );
}

#[test]
fn a_stream_is_joined_as_it_was_written() {
    assert_eq!(
        collect_stream(&lines(&["  {\n", "  \"a\": 1 \r\n", "}\n"])),
        "  {\n  \"a\": 1 \n}"
    );
    assert_eq!(collect_stream(&lines(&["last line without terminator"])), "last line without terminator");
    assert_eq!(collect_stream(&Vec::new()), "");
    assert_eq!(collect_stream(&lines(&["\n", "\n"])), "\n");
}

#[test]
fn a_passed_deadline_is_a_timeout_of_the_budget() {
    assert_eq!(
        interpret_outcome(&ProcessOutcome::TimedOut, 30),
        Err(CliError::Timeout { seconds: 30 })
    );
    assert_eq!(
        interpret_outcome(&ProcessOutcome::TimedOut, 0),
        Err(CliError::Timeout { seconds: 0 })
    );
}

#[test]
fn a_failure_to_start_is_an_io_error() {
    assert_eq!(
        interpret_outcome(&ProcessOutcome::IoFailed { message: "No such file".to_string() }, 10),
        Err(CliError::IoError("No such file".to_string()))
    );
}

#[test]
fn a_failed_exit_carries_the_error_stream() {
    assert_eq!(
        interpret_outcome(
            &exited(false, Some(2), &["{\"ignored\": true}\n"], &["Traceback:\n", "  boom  \n"]),
            30
        ),
        Err(CliError::ProcessFailed("Traceback:\n  boom  ".to_string()))
    );
    assert_eq!(
        interpret_outcome(&exited(false, Some(2), &[], &["\tusage: x\r\n", "\r\n", " y"]), 30),
        Err(CliError::ProcessFailed("\tusage: x\n\n y".to_string()))
    );
    assert_eq!(
        interpret_outcome(&exited(false, Some(1), &[], &["\n"]), 30),
        Err(CliError::ProcessFailed("".to_string()))
    );
}

#[test]
fn a_failed_exit_without_error_stream_names_the_code() {
    assert_eq!(
        interpret_outcome(&exited(false, Some(3), &["out\n"], &[]), 30),
        Err(CliError::ProcessFailed("CLI command failed with exit code: 3".to_string()))
    );
    assert_eq!(
        interpret_outcome(&exited(false, None, &[], &[]), 30),
        Err(CliError::ProcessFailed("CLI command failed with exit code: -1".to_string()))
    );
}

#[test]
fn blank_output_of_a_good_exit_is_a_failure() {
    let empty = Err(CliError::ProcessFailed("CLI returned empty output".to_string()));
    assert_eq!(interpret_outcome(&exited(true, Some(0), &[], &[]), 30), empty);
    assert_eq!(interpret_outcome(&exited(true, Some(0), &["\n", "  \n"], &["warn\n"]), 30), empty);
    assert_eq!(interpret_outcome(&exited(true, Some(0), &[" \t\r\n", "\u{a0}"], &[]), 30), empty);
}

#[test]
fn output_of_a_good_exit_is_handed_on() {
    assert_eq!(
        interpret_outcome(&exited(true, Some(0), &["{\"a\":\n", " 1}\n"], &["warning\n"]), 30),
        Ok("{\"a\":\n 1}".to_string())
    );
}
