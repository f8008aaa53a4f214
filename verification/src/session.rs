//! The session coordinator, and the operations a front-end calls.
//!
//! A session is `Uninitialized` until an initialization has resolved the
//! engine and the engine has passed the compatibility check; then it is
//! `Ready`. Only `init_cli` changes a session, and it needs exclusive access
//! to do so. Every other operation reads the session through a shared
//! reference, so any number of them may run side by side.
//!
//! Each operation has two halves, as in `cli_integration`: the first yields
//! the request to run, the second reads how the process ended. Every failure
//! reaches the front-end as one line of text.

use crate::args::{calc_args, compare_brackets_args, optimize_args, scan_args, validate_args};
use crate::cli_integration::{
    command_result, compatibility, copy_version_info, executed_reply, executed_validation,
    has_income, validate_result, CliIntegration, CommandRequest, NO_INCOME,
};
use crate::cli_types::{
    CalcParams, CompareBracketsParams, OptimizeParams, ScanParams, ValidateParams,
    ValidateResult, ValidateResultView, VersionInfo, VersionInfoView, SCHEMA_VERSION,
};
use crate::codec::decoded_version;
use crate::error::{message_of, CliError, CliErrorView};
use crate::invoker::{
    ProcessOutcome, ProcessOutcomeView, QUICK_TIMEOUT_SECS, SEARCH_TIMEOUT_SECS,
    STANDARD_TIMEOUT_SECS,
};
use crate::resolver::{discovery, Candidate};
use crate::text::texts;
use crate::validate::{
    deduction_complaint, income_complaint, validate_deduction_params, validate_income_params,
};
use serde_json::Value;
use vstd::prelude::*;

verus! {

pub const NOT_INITIALIZED: &'static str = "CLI not initialized. Call init_cli first.";

pub const NOT_INITIALIZED_STATUS: &'static str = "CLI not initialized";

pub const CREATE_FAILED: &'static str = "Failed to create CLI integration: ";

pub const COMPATIBILITY_FAILED: &'static str = "CLI compatibility check failed: ";

/// The operations a front-end can ask of a ready session.
///
/// For the first five this crate builds the request to run. For the others,
/// which read and edit the engine's configuration, it fixes what all
/// operations share: the answer of a session that is not ready, and the words
/// a failure is reported with.
#[derive(Debug, Clone, Copy, PartialEq, Eq, Structural)]
pub enum Operation {
    Calc,
    Optimize,
    Scan,
    CompareBrackets,
    ValidateConfig,
    GetAvailableLocations,
    ListYears,
    GetConfigSummary,
    CreateYear,
    UpdateFederalBrackets,
    CreateCanton,
    UpdateCanton,
    DeleteCanton,
    CreateMunicipality,
    UpdateMunicipality,
    GetFederalSegments,
    GetCanton,
}

/// The words that open the report of a failed operation.
pub open spec fn failure_prefix(op: Operation) -> Seq<char> {
    match op {
        Operation::Calc => "Calculation failed: "@,
        Operation::Optimize => "Optimization failed: "@,
        Operation::Scan => "Scan failed: "@,
        Operation::CompareBrackets => "Compare brackets failed: "@,
        Operation::ValidateConfig => "Validation failed: "@,
        Operation::GetAvailableLocations => "Get locations failed: "@,
        Operation::ListYears => "List years failed: "@,
        Operation::GetConfigSummary => "Get config summary failed: "@,
        Operation::CreateYear => "Create year failed: "@,
        Operation::UpdateFederalBrackets => "Update federal brackets failed: "@,
        Operation::CreateCanton => "Create canton failed: "@,
        Operation::UpdateCanton => "Update canton failed: "@,
        Operation::DeleteCanton => "Delete canton failed: "@,
        Operation::CreateMunicipality => "Create municipality failed: "@,
        Operation::UpdateMunicipality => "Update municipality failed: "@,
        Operation::GetFederalSegments => "Get federal segments failed: "@,
        Operation::GetCanton => "Get canton failed: "@,
    }
}

/// The report of a failed operation: the operation's words, then the
/// failure's own text, in which its kind stays recognisable.
pub open spec fn failure_report(op: Operation, e: CliErrorView) -> Seq<char> {
    failure_prefix(op) + message_of(e)
}

/// Renders the report of a failed operation.
pub fn report_failure(op: Operation, e: &CliError) -> (r: String)
    ensures
        r@ == failure_report(op, e@),
{
    let prefix = match op {
        Operation::Calc => "Calculation failed: ",
        Operation::Optimize => "Optimization failed: ",
        Operation::Scan => "Scan failed: ",
        Operation::CompareBrackets => "Compare brackets failed: ",
        Operation::ValidateConfig => "Validation failed: ",
        Operation::GetAvailableLocations => "Get locations failed: ",
        Operation::ListYears => "List years failed: ",
        Operation::GetConfigSummary => "Get config summary failed: ",
        Operation::CreateYear => "Create year failed: ",
        Operation::UpdateFederalBrackets => "Update federal brackets failed: ",
        Operation::CreateCanton => "Create canton failed: ",
        Operation::UpdateCanton => "Update canton failed: ",
        Operation::DeleteCanton => "Delete canton failed: ",
        Operation::CreateMunicipality => "Create municipality failed: ",
        Operation::UpdateMunicipality => "Update municipality failed: ",
        Operation::GetFederalSegments => "Get federal segments failed: ",
        Operation::GetCanton => "Get canton failed: ",
    };
    let text = e.to_message();
    crate::error::prefixed(prefix, text.as_str())
}

/// The one engine handle that all callers share, absent until an
/// initialization has succeeded.
#[derive(Debug, PartialEq, Eq)]
pub struct CliState {
    cli: Option<CliIntegration>,
}

/// What a front-end is told about the state of a session.
#[derive(Debug, Clone, PartialEq, Eq)]
pub struct CliStatusInfo {
    pub initialized: bool,
    pub version_info: Option<VersionInfo>,
    pub error: Option<String>,
}

impl CliState {
    /// The engine handle of a ready session.
    pub closed spec fn handle(&self) -> Option<CliIntegration> {
        self.cli
    }

    /// A session is ready when it holds an engine handle.
    pub open spec fn is_ready(&self) -> bool {
        self.handle() is Some
    }

    /// The version record a session exposes.
    pub open spec fn version(&self) -> Option<VersionInfo> {
        match self.handle() {
            Some(cli) => cli.cached(),
            None => None,
        }
    }

    /// A ready session holds a version record: a handle enters a session
    /// only with the record of the compatibility check it passed.
    #[verifier::type_invariant]
    spec fn checked(&self) -> bool {
        match self.cli {
            Some(cli) => cli.cached() is Some,
            None => true,
        }
    }

    /// A session that is not initialized.
    pub fn new() -> (r: Self)
        ensures
            !r.is_ready(),
    {
        CliState { cli: None }
    }

    /// The engine handle, if the session is ready.
    pub fn cli(&self) -> (r: Option<&CliIntegration>)
        ensures
            match r {
                Some(cli) => self.handle() == Some(*cli),
                None => self.handle() is None,
            },
    {
        self.cli.as_ref()
    }
}

/// First half of an initialization: resolves the engine among the probed
/// candidates. The handle it yields is not part of any session yet.
pub fn prepare_init(candidates: &Vec<Candidate>) -> (r: Result<CliIntegration, String>)
    ensures
        match discovery(candidates@) {
            Ok(found) => r matches Ok(cli) && cli.path() == found.0 && cli.mode() == found.1
                && cli.cached() is None,
            Err(e) => r matches Err(text) && text@ == CREATE_FAILED@ + message_of(e),
        },
{
    match CliIntegration::new(candidates) {
        Ok(cli) => Ok(cli),
        Err(e) => {
            let text = e.to_message();
            Err(crate::error::prefixed(CREATE_FAILED, text.as_str()))
        },
    }
}

/// Whether a session is ready after an initialization: it is where the
/// initialization succeeded, and otherwise where it was ready before.
pub open spec fn ready_after_init(was_ready: bool, succeeded: bool) -> bool {
    was_ready || succeeded
}

/// What an initialization ends with: the version record of a compatible
/// engine, or the report of why the compatibility check failed.
pub open spec fn initialization(outcome: ProcessOutcomeView) -> Result<VersionInfoView, Seq<char>> {
    match compatibility(outcome) {
        Ok(info) => Ok(info),
        Err(e) => Err(COMPATIBILITY_FAILED@ + message_of(e)),
    }
}

pub open spec fn init_result(r: Result<VersionInfo, String>) -> Result<VersionInfoView, Seq<char>> {
    match r {
        Ok(info) => Ok(info@),
        Err(text) => Err(text@),
    }
}

/// Second half of an initialization: reads how the version query ended and,
/// if the engine is compatible, makes the session ready with the new handle.
///
/// On success the session holds the handle with the version record that is
/// returned, whatever it held before. On every failure the session stays
/// exactly as it was: a session that was not ready is not made ready.
pub fn init_cli(state: &mut CliState, cli: CliIntegration, outcome: &ProcessOutcome) -> (r: Result<
    VersionInfo,
    String,
>)
    ensures
        init_result(r) == initialization(outcome@),
        final(state).is_ready() == ready_after_init(old(state).is_ready(), r is Ok),
        match r {
            Ok(info) => {
                &&& final(state).handle() matches Some(held)
                &&& held.path() == cli.path()
                &&& held.mode() == cli.mode()
                &&& held.cached() == Some(info)
            },
            Err(_) => *final(state) == *old(state),
        },
{
    let mut cli = cli;
    match cli.check_compatibility(outcome) {
        Ok(info) => {
            state.cli = Some(cli);
            Ok(info)
        },
        Err(e) => {
            let text = e.to_message();
            Err(crate::error::prefixed(COMPATIBILITY_FAILED, text.as_str()))
        },
    }
}

/// The version record of a session. A ready session always has one, and it
/// names the schema version of this crate; a session that is not initialized
/// has none. This never fails.
pub fn get_version_info(state: &CliState) -> (r: Result<Option<VersionInfo>, String>)
    ensures
        r == Ok::<Option<VersionInfo>, String>(state.version()),
        state.version() is Some <==> state.is_ready(),
        state.version() matches Some(info) ==> info.schema_version@ == SCHEMA_VERSION@,
{
    proof {
        use_type_invariant(state);
    }
    match state.cli() {
        Some(cli) => match cli.get_version_info() {
            Some(info) => Ok(Some(copy_version_info(info))),
            None => Ok(None),
        },
        None => Ok(None),
    }
}

/// Whether the session is ready. This never fails.
pub fn is_cli_ready(state: &CliState) -> (r: Result<bool, String>)
    ensures
        r == Ok::<bool, String>(state.is_ready()),
{
    Ok(state.cli().is_some())
}

/// The state of the session for display. This never fails.
pub fn get_cli_status(state: &CliState) -> (r: Result<CliStatusInfo, String>)
    ensures
        r matches Ok(status) && status.initialized == state.is_ready() && status.version_info
            == state.version() && match status.error {
            Some(text) => !state.is_ready() && text@ == NOT_INITIALIZED_STATUS@,
            None => state.is_ready(),
        },
        state.version() is Some <==> state.is_ready(),
{
    proof {
        use_type_invariant(state);
    }
    match state.cli() {
        Some(cli) => {
            let version_info = match cli.get_version_info() {
                Some(info) => Some(copy_version_info(info)),
                None => None,
            };
            Ok(CliStatusInfo { initialized: true, version_info, error: None })
        },
        None => Ok(
            CliStatusInfo {
                initialized: false,
                version_info: None,
                error: Some(NOT_INITIALIZED_STATUS.to_owned()),
            },
        ),
    }
}

/// The engine handle of a ready session. A session that is not ready
/// answers every operation at once with the same text, whatever the
/// operation.
pub fn require_ready(state: &CliState) -> (r: Result<&CliIntegration, String>)
    ensures
        match r {
            Ok(cli) => state.handle() == Some(*cli),
            Err(text) => !state.is_ready() && text@ == NOT_INITIALIZED@,
        },
{
    match state.cli() {
        Some(cli) => Ok(cli),
        None => Err(NOT_INITIALIZED.to_owned()),
    }
}

/// What the first half of an operation yields.
///
/// The checks come in a fixed order, and the first that fails decides: the
/// parameter validator's complaint, passed on as it is; then the session
/// that is not ready; then the request without income, reported as a failure
/// of the operation. Otherwise the operation yields the request to run.
pub open spec fn operation_request(
    op: Operation,
    complaint: Option<Seq<char>>,
    ready: bool,
    income_given: bool,
    args: Seq<Seq<char>>,
    timeout_secs: u64,
    r: Result<CommandRequest, String>,
) -> bool {
    match complaint {
        Some(text) => r matches Err(t) && t@ == text,
        None => if !ready {
            r matches Err(t) && t@ == NOT_INITIALIZED@
        } else if !income_given {
            r matches Err(t) && t@ == failure_report(
                op,
                CliErrorView::InvalidParameters(NO_INCOME@),
            )
        } else {
            r matches Ok(request) && texts(request.args@) == args && request.timeout_secs
                == timeout_secs
        },
    }
}

/// The first complaint of two, in order.
pub open spec fn first_complaint(a: Option<Seq<char>>, b: Option<Seq<char>>) -> Option<
    Seq<char>,
> {
    if a is Some {
        a
    } else {
        b
    }
}

/// The text of a rejection by the parameter validator: the complaint itself,
/// which names the field and says what is wrong with it.
fn rejection_text(e: CliError) -> (r: String)
    ensures
        e@ matches CliErrorView::InvalidParameters(text) ==> r@ == text,
{
    match e {
        CliError::InvalidParameters(text) => text,
        other => other.to_message(),
    }
}

fn reported(op: Operation, r: Result<CommandRequest, CliError>) -> (out: Result<
    CommandRequest,
    String,
>)
    ensures
        match r {
            Ok(request) => out == Ok::<CommandRequest, String>(request),
            Err(e) => out matches Err(t) && t@ == failure_report(op, e@),
        },
{
    match r {
        Ok(request) => Ok(request),
        Err(e) => Err(report_failure(op, &e)),
    }
}

/// First half of a calculation.
pub fn calc(state: &CliState, params: &CalcParams) -> (r: Result<CommandRequest, String>)
    ensures
        operation_request(
            Operation::Calc,
            income_complaint(params.income, params.income_sg, params.income_fed),
            state.is_ready(),
            has_income(params@.income),
            calc_args(params@),
            STANDARD_TIMEOUT_SECS,
            r,
        ),
{
    match validate_income_params(params.income, params.income_sg, params.income_fed) {
        Err(e) => {
            return Err(rejection_text(e));
        },
        Ok(_) => {},
    }
    match require_ready(state) {
        Ok(cli) => reported(Operation::Calc, cli.calc(params)),
        Err(text) => Err(text),
    }
}

/// First half of an optimisation.
pub fn optimize(state: &CliState, params: &OptimizeParams) -> (r: Result<CommandRequest, String>)
    ensures
        operation_request(
            Operation::Optimize,
            first_complaint(
                income_complaint(params.income, params.income_sg, params.income_fed),
                deduction_complaint(params.max_deduction, params.step),
            ),
            state.is_ready(),
            has_income(params@.income),
            optimize_args(params@),
            SEARCH_TIMEOUT_SECS,
            r,
        ),
{
    match validate_income_params(params.income, params.income_sg, params.income_fed) {
        Err(e) => {
            return Err(rejection_text(e));
        },
        Ok(_) => {},
    }
    match validate_deduction_params(params.max_deduction, params.step) {
        Err(e) => {
            return Err(rejection_text(e));
        },
        Ok(_) => {},
    }
    match require_ready(state) {
        Ok(cli) => reported(Operation::Optimize, cli.optimize(params)),
        Err(text) => Err(text),
    }
}

/// First half of a scan.
pub fn scan(state: &CliState, params: &ScanParams) -> (r: Result<CommandRequest, String>)
    ensures
        operation_request(
            Operation::Scan,
            first_complaint(
                income_complaint(params.income, params.income_sg, params.income_fed),
                deduction_complaint(params.max_deduction, params.d_step),
            ),
            state.is_ready(),
            has_income(params@.income),
            scan_args(params@),
            SEARCH_TIMEOUT_SECS,
            r,
        ),
{
    match validate_income_params(params.income, params.income_sg, params.income_fed) {
        Err(e) => {
            return Err(rejection_text(e));
        },
        Ok(_) => {},
    }
    match validate_deduction_params(params.max_deduction, params.d_step) {
        Err(e) => {
            return Err(rejection_text(e));
        },
        Ok(_) => {},
    }
    match require_ready(state) {
        Ok(cli) => reported(Operation::Scan, cli.scan(params)),
        Err(text) => Err(text),
    }
}

/// The complaint about the deduction of a bracket comparison, which is
/// checked only where it is present, and without a step.
pub open spec fn comparison_complaint(deduction: Option<i32>) -> Option<Seq<char>> {
    match deduction {
        Some(d) => deduction_complaint(d, None),
        None => None,
    }
}

/// First half of a bracket comparison.
pub fn compare_brackets(state: &CliState, params: &CompareBracketsParams) -> (r: Result<
    CommandRequest,
    String,
>)
    ensures
        operation_request(
            Operation::CompareBrackets,
            first_complaint(
                income_complaint(params.income, params.income_sg, params.income_fed),
                comparison_complaint(params.deduction),
            ),
            state.is_ready(),
            has_income(params@.income),
            compare_brackets_args(params@),
            STANDARD_TIMEOUT_SECS,
            r,
        ),
{
    match validate_income_params(params.income, params.income_sg, params.income_fed) {
        Err(e) => {
            return Err(rejection_text(e));
        },
        Ok(_) => {},
    }
    match params.deduction {
        Some(d) => {
            match validate_deduction_params(d, None) {
                Err(e) => {
                    return Err(rejection_text(e));
                },
                Ok(_) => {},
            }
        },
        None => {},
    }
    match require_ready(state) {
        Ok(cli) => reported(Operation::CompareBrackets, cli.compare_brackets(params)),
        Err(text) => Err(text),
    }
}

/// First half of a configuration check.
pub fn validate_config(state: &CliState, params: &ValidateParams) -> (r: Result<
    CommandRequest,
    String,
>)
    ensures
        operation_request(
            Operation::ValidateConfig,
            None,
            state.is_ready(),
            true,
            validate_args(params.year),
            STANDARD_TIMEOUT_SECS,
            r,
        ),
{
    match require_ready(state) {
        Ok(cli) => reported(Operation::ValidateConfig, cli.validate(params)),
        Err(text) => Err(text),
    }
}

/// What the second half of an operation ends with, given what the engine
/// call ended with: the answer as it is, or the operation's report of the
/// failure.
pub open spec fn operation_end<T>(op: Operation, end: Result<T, CliErrorView>) -> Result<
    T,
    Seq<char>,
> {
    match end {
        Ok(answer) => Ok(answer),
        Err(e) => Err(failure_report(op, e)),
    }
}

pub open spec fn data_end(r: Result<Value, String>) -> Result<Value, Seq<char>> {
    match r {
        Ok(data) => Ok(data),
        Err(text) => Err(text@),
    }
}

pub open spec fn validation_end(r: Result<ValidateResult, String>) -> Result<
    ValidateResultView,
    Seq<char>,
> {
    match r {
        Ok(answer) => Ok(answer@),
        Err(text) => Err(text@),
    }
}

/// Second half of every operation: reads how the process ended. The data of
/// the engine's answer comes back as it was sent; a failure comes back as
/// the operation's report of it.
pub fn finish_operation(op: Operation, request: &CommandRequest, outcome: &ProcessOutcome) -> (r:
    Result<Value, String>)
    ensures
        data_end(r) == operation_end(op, executed_reply(outcome@, request.timeout_secs)),
{
    match command_result(outcome, request.timeout_secs) {
        Ok(data) => Ok(data),
        Err(e) => Err(report_failure(op, &e)),
    }
}

/// Second half of a configuration check: reads how the process ended as the
/// check's answer, or as the report of its failure.
pub fn finish_validate_config(request: &CommandRequest, outcome: &ProcessOutcome) -> (r: Result<
    ValidateResult,
    String,
>)
    ensures
        validation_end(r) == operation_end(
            Operation::ValidateConfig,
            executed_validation(outcome@, request.timeout_secs),
        ),
{
    match validate_result(outcome, request.timeout_secs) {
        Ok(answer) => Ok(answer),
        Err(e) => Err(report_failure(Operation::ValidateConfig, &e)),
    }
}

/// An engine that answers the version query with another schema version
/// than this crate's fails the compatibility check with a schema mismatch,
/// whatever else its answer holds. The initialization that rests on the
/// check fails too, so it makes no session ready: `init_cli` turns a session
/// ready only where it succeeds.
pub proof fn lemma_schema_mismatch_never_ready(
    outcome: ProcessOutcomeView,
    text: Seq<char>,
    info: VersionInfoView,
)
    requires
        crate::invoker::interpretation(outcome, QUICK_TIMEOUT_SECS) == Ok::<
            Seq<char>,
            CliErrorView,
        >(text),
        decoded_version(text) == Ok::<VersionInfoView, CliErrorView>(info),
        info.schema_version != SCHEMA_VERSION@,
    ensures
        compatibility(outcome) == Err::<VersionInfoView, CliErrorView>(
            CliErrorView::SchemaMismatch {
                expected: SCHEMA_VERSION@,
                actual: info.schema_version,
            },
        ),
        initialization(outcome) is Err,
        ready_after_init(false, initialization(outcome) is Ok) == false,
{
}

} // verus!
