//! The handle on a resolved engine: what to ask it, with which time budget,
//! and what its answers mean.
//!
//! A call has two halves. The first turns a typed request into a
//! `CommandRequest`; the second reads how the process ended. Running the
//! process between the two is the caller's work.

use crate::args::{
    build_calc_args, build_compare_brackets_args, build_optimize_args, build_scan_args,
    build_validate_args, build_version_args, calc_args, compare_brackets_args, optimize_args,
    scan_args, validate_args, version_args,
};
use crate::cli_types::{
    CalcParams, CliResponse, CompareBracketsParams, IncomeView, OptimizeParams, ResponseView,
    ScanParams, ValidateParams, ValidateResult, ValidateResultView, VersionInfo,
    VersionInfoView, SCHEMA_VERSION,
};
use crate::codec::{
    data_result, decode_envelope, decode_reply, decode_validate_reply, decode_version_reply,
    decoded_envelope, decoded_reply, decoded_validation, decoded_version, response_result,
    validation_result, version_result,
};
use crate::error::{CliError, CliErrorView};
use crate::invoker::{
    interpret_outcome, interpretation, invocation_args, invocation_program, plan_invocation,
    Invocation, ProcessOutcome, ProcessOutcomeView, QUICK_TIMEOUT_SECS, SEARCH_TIMEOUT_SECS,
    STANDARD_TIMEOUT_SECS,
};
use crate::resolver::{
    discover_cli_executable, discovery, Candidate, EngineLocation, EngineMode,
};
use crate::text::{opt_text, texts};
use serde_json::Value;
use vstd::prelude::*;

verus! {

pub const NO_INCOME: &'static str = "Must provide either income or both income_sg and income_fed";

/// The arguments of one engine call and the seconds it may take.
#[derive(Debug, Clone, PartialEq, Eq)]
pub struct CommandRequest {
    pub args: Vec<String>,
    pub timeout_secs: u64,
}

/// A request carries an income when the combined amount is present, or both
/// halves of the split amount are.
pub open spec fn has_income(v: IncomeView) -> bool {
    v.income is Some || (v.income_sg is Some && v.income_fed is Some)
}

/// What the first half of a call yields: the request with the given
/// arguments and budget, or the rejection of a request without income.
pub open spec fn request_for(
    income_given: bool,
    args: Seq<Seq<char>>,
    timeout_secs: u64,
    r: Result<CommandRequest, CliError>,
) -> bool {
    if income_given {
        r matches Ok(request) && texts(request.args@) == args && request.timeout_secs
            == timeout_secs
    } else {
        r matches Err(e) && e@ == CliErrorView::InvalidParameters(NO_INCOME@)
    }
}

/// The schema check: a version record passes when it names exactly the
/// schema version of this crate.
pub open spec fn schema_checked(info: VersionInfoView) -> Result<VersionInfoView, CliErrorView> {
    if info.schema_version == SCHEMA_VERSION@ {
        Ok(info)
    } else {
        Err(
            CliErrorView::SchemaMismatch {
                expected: SCHEMA_VERSION@,
                actual: info.schema_version,
            },
        )
    }
}

/// The envelope an engine call ends with: a process that did not end well
/// fails the call, otherwise its output is decoded.
pub open spec fn executed_envelope(outcome: ProcessOutcomeView, timeout_secs: u64) -> Result<
    ResponseView<Value>,
    CliErrorView,
> {
    match interpretation(outcome, timeout_secs) {
        Ok(text) => decoded_envelope(text),
        Err(e) => Err(e),
    }
}

/// The data an engine call ends with.
pub open spec fn executed_reply(outcome: ProcessOutcomeView, timeout_secs: u64) -> Result<
    Value,
    CliErrorView,
> {
    match interpretation(outcome, timeout_secs) {
        Ok(text) => decoded_reply(text),
        Err(e) => Err(e),
    }
}

/// The answer a configuration check ends with.
pub open spec fn executed_validation(outcome: ProcessOutcomeView, timeout_secs: u64) -> Result<
    ValidateResultView,
    CliErrorView,
> {
    match interpretation(outcome, timeout_secs) {
        Ok(text) => decoded_validation(text),
        Err(e) => Err(e),
    }
}

/// The version record a compatibility check ends with: the record the engine
/// answers the version query with, if it passes the schema check.
pub open spec fn compatibility(outcome: ProcessOutcomeView) -> Result<
    VersionInfoView,
    CliErrorView,
> {
    match interpretation(outcome, QUICK_TIMEOUT_SECS) {
        Ok(text) => match decoded_version(text) {
            Ok(info) => schema_checked(info),
            Err(e) => Err(e),
        },
        Err(e) => Err(e),
    }
}

/// Reads how an engine call ended as the data it answers with.
pub fn command_result(outcome: &ProcessOutcome, timeout_secs: u64) -> (r: Result<Value, CliError>)
    ensures
        data_result(r) == executed_reply(outcome@, timeout_secs),
{
    match interpret_outcome(outcome, timeout_secs) {
        Ok(text) => decode_reply(text.as_str()),
        Err(e) => Err(e),
    }
}

/// Reads how a configuration check ended as its answer.
pub fn validate_result(outcome: &ProcessOutcome, timeout_secs: u64) -> (r: Result<
    ValidateResult,
    CliError,
>)
    ensures
        validation_result(r) == executed_validation(outcome@, timeout_secs),
{
    match interpret_outcome(outcome, timeout_secs) {
        Ok(text) => decode_validate_reply(text.as_str()),
        Err(e) => Err(e),
    }
}

/// Holds a version record to the schema version of this crate.
pub fn check_schema(info: VersionInfo) -> (r: Result<VersionInfo, CliError>)
    ensures
        version_result(r) == schema_checked(info@),
{
    let expected = SCHEMA_VERSION.to_owned();
    if info.schema_version == expected {
        Ok(info)
    } else {
        Err(CliError::SchemaMismatch { expected, actual: info.schema_version })
    }
}

/// A copy of a version record.
pub fn copy_version_info(info: &VersionInfo) -> (r: VersionInfo)
    ensures
        r == *info,
{
    VersionInfo {
        version: info.version.clone(),
        platform: info.platform.clone(),
        schema_version: info.schema_version.clone(),
        build_date: info.build_date,
    }
}

/// The handle on a resolved engine, with the version record of the last
/// compatibility check that passed.
#[derive(Debug, PartialEq, Eq)]
pub struct CliIntegration {
    cli_path: EngineLocation,
    version_info: Option<VersionInfo>,
}

impl CliIntegration {
    /// Path of the engine.
    pub closed spec fn path(&self) -> Seq<char> {
        self.cli_path.path@
    }

    /// How the engine is started.
    pub closed spec fn mode(&self) -> EngineMode {
        self.cli_path.mode
    }

    /// The cached version record.
    pub closed spec fn cached(&self) -> Option<VersionInfo> {
        self.version_info
    }

    /// A cached version record names the schema version of this crate: only
    /// a record that passed the schema check is ever cached.
    #[verifier::type_invariant]
    spec fn compatible(&self) -> bool {
        match self.version_info {
            Some(info) => info.schema_version@ == SCHEMA_VERSION@,
            None => true,
        }
    }

    /// Resolves the engine among the probed candidates. The handle starts
    /// without a version record.
    pub fn new(candidates: &Vec<Candidate>) -> (r: Result<Self, CliError>)
        ensures
            match discovery(candidates@) {
                Ok(found) => r matches Ok(cli) && cli.path() == found.0 && cli.mode() == found.1
                    && cli.cached() is None,
                Err(e) => r matches Err(x) && x@ == e,
            },
    {
        match discover_cli_executable(candidates) {
            Ok(cli_path) => Ok(CliIntegration { cli_path, version_info: None }),
            Err(e) => Err(e),
        }
    }

    /// Where the engine lies.
    pub fn location(&self) -> (r: &EngineLocation)
        ensures
            r.path@ == self.path(),
            r.mode == self.mode(),
    {
        &self.cli_path
    }

    /// What to start for a request: the engine itself, or for a script the
    /// interpreter with the script's path before the request's arguments.
    /// `interpreter` is the one found in an isolated environment, if any;
    /// without it a script is run by the system's interpreter.
    pub fn invocation(&self, interpreter: Option<String>, request: &CommandRequest) -> (r:
        Invocation)
        ensures
            r.program@ == invocation_program(self.path(), self.mode(), opt_text(interpreter)),
            texts(r.args@) == invocation_args(self.path(), self.mode(), texts(request.args@)),
    {
        plan_invocation(&self.cli_path, interpreter, &request.args)
    }

    /// Reads how an engine call ended as a response envelope.
    pub fn execute_command(&self, outcome: &ProcessOutcome, timeout_secs: u64) -> (r: Result<
        CliResponse<Value>,
        CliError,
    >)
        ensures
            response_result(r) == executed_envelope(outcome@, timeout_secs),
    {
        match interpret_outcome(outcome, timeout_secs) {
            Ok(text) => decode_envelope(text.as_str()),
            Err(e) => Err(e),
        }
    }

    /// The request that opens a session: the version query, with the budget
    /// of a quick call.
    pub fn compatibility_request(&self) -> (r: CommandRequest)
        ensures
            texts(r.args@) == version_args(),
            r.timeout_secs == QUICK_TIMEOUT_SECS,
    {
        CommandRequest { args: build_version_args(), timeout_secs: QUICK_TIMEOUT_SECS }
    }

    /// Reads how the version query ended, and checks the engine's schema
    /// version against this crate's.
    ///
    /// The version record is cached exactly when the check passes. On every
    /// failure the handle stays as it was.
    pub fn check_compatibility(&mut self, outcome: &ProcessOutcome) -> (r: Result<
        VersionInfo,
        CliError,
    >)
        ensures
            version_result(r) == compatibility(outcome@),
            final(self).path() == old(self).path(),
            final(self).mode() == old(self).mode(),
            match r {
                Ok(info) => final(self).cached() == Some(info) && info.schema_version@
                    == SCHEMA_VERSION@,
                Err(_) => final(self).cached() == old(self).cached(),
            },
    {
        let text = match interpret_outcome(outcome, QUICK_TIMEOUT_SECS) {
            Ok(text) => text,
            Err(e) => {
                return Err(e);
            },
        };
        let info = match decode_version_reply(text.as_str()) {
            Ok(info) => info,
            Err(e) => {
                return Err(e);
            },
        };
        match check_schema(info) {
            Ok(info) => {
                self.version_info = Some(copy_version_info(&info));
                Ok(info)
            },
            Err(e) => Err(e),
        }
    }

    /// The request for a calculation, with the standard budget.
    pub fn calc(&self, params: &CalcParams) -> (r: Result<CommandRequest, CliError>)
        ensures
            request_for(
                has_income(params@.income),
                calc_args(params@),
                STANDARD_TIMEOUT_SECS,
                r,
            ),
    {
        if params.income.is_none() && (params.income_sg.is_none() || params.income_fed.is_none()) {
            return Err(CliError::InvalidParameters(NO_INCOME.to_owned()));
        }
        Ok(CommandRequest { args: build_calc_args(params), timeout_secs: STANDARD_TIMEOUT_SECS })
    }

    /// The request for an optimisation, with the budget of a search.
    pub fn optimize(&self, params: &OptimizeParams) -> (r: Result<CommandRequest, CliError>)
        ensures
            request_for(
                has_income(params@.income),
                optimize_args(params@),
                SEARCH_TIMEOUT_SECS,
                r,
            ),
    {
        if params.income.is_none() && (params.income_sg.is_none() || params.income_fed.is_none()) {
            return Err(CliError::InvalidParameters(NO_INCOME.to_owned()));
        }
        Ok(CommandRequest { args: build_optimize_args(params), timeout_secs: SEARCH_TIMEOUT_SECS })
    }

    /// The request for a scan, with the budget of a search.
    pub fn scan(&self, params: &ScanParams) -> (r: Result<CommandRequest, CliError>)
        ensures
            request_for(has_income(params@.income), scan_args(params@), SEARCH_TIMEOUT_SECS, r),
    {
        if params.income.is_none() && (params.income_sg.is_none() || params.income_fed.is_none()) {
            return Err(CliError::InvalidParameters(NO_INCOME.to_owned()));
        }
        Ok(CommandRequest { args: build_scan_args(params), timeout_secs: SEARCH_TIMEOUT_SECS })
    }

    /// The request for a bracket comparison, with the standard budget.
    pub fn compare_brackets(&self, params: &CompareBracketsParams) -> (r: Result<
        CommandRequest,
        CliError,
    >)
        ensures
            request_for(
                has_income(params@.income),
                compare_brackets_args(params@),
                STANDARD_TIMEOUT_SECS,
                r,
            ),
    {
        if params.income.is_none() && (params.income_sg.is_none() || params.income_fed.is_none()) {
            return Err(CliError::InvalidParameters(NO_INCOME.to_owned()));
        }
        Ok(
            CommandRequest {
                args: build_compare_brackets_args(params),
                timeout_secs: STANDARD_TIMEOUT_SECS,
            },
        )
    }

    /// The request for a configuration check, with the standard budget. It
    /// is never rejected.
    pub fn validate(&self, params: &ValidateParams) -> (r: Result<CommandRequest, CliError>)
        ensures
            request_for(true, validate_args(params.year), STANDARD_TIMEOUT_SECS, r),
    {
        Ok(
            CommandRequest {
                args: build_validate_args(params),
                timeout_secs: STANDARD_TIMEOUT_SECS,
            },
        )
    }

    /// The version record of the last compatibility check that passed, if
    /// there was one. Such a record always names the schema version of this
    /// crate.
    pub fn get_version_info(&self) -> (r: Option<&VersionInfo>)
        ensures
            match r {
                Some(info) => self.cached() == Some(*info) && info.schema_version@
                    == SCHEMA_VERSION@,
                None => self.cached() is None,
            },
    {
        proof {
            use_type_invariant(self);
        }
        self.version_info.as_ref()
    }
}

} // verus!
