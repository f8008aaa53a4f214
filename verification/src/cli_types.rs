//! The data that travels between the front-end and the engine: request
//! parameters, the response envelope, and the plain result records.

use crate::text::{opt_text, texts};
use vstd::prelude::*;

verus! {

/// Schema version this crate speaks. The engine must report exactly this text.
pub const SCHEMA_VERSION: &'static str = "1.0";

/// A point in time: whole seconds since 1970-01-01T00:00:00Z, and the
/// nanoseconds into that second.
#[derive(Debug, Clone, Copy, PartialEq, Eq)]
pub struct Instant {
    pub secs: i64,
    pub nanos: u32,
}

/// The failure record the engine puts into an envelope.
#[derive(Debug, Clone, PartialEq, Eq)]
pub struct CliError {
    pub code: String,
    pub message: String,
    pub details: Option<serde_json::Value>,
}

/// The two shapes of an envelope's payload. On the wire they are told apart
/// by the key that is present: `data` or `error`.
#[derive(Debug, Clone, PartialEq, Eq)]
pub enum CliPayload<T> {
    Success { data: T },
    Error { error: CliError },
}

/// The envelope around every answer of the engine.
#[derive(Debug, Clone, PartialEq, Eq)]
pub struct CliResponse<T> {
    pub success: bool,
    pub schema_version: String,
    pub timestamp: Instant,
    pub payload: CliPayload<T>,
}

impl<T> CliResponse<T> {
    /// The `success` flag and the payload say the same thing.
    pub open spec fn consistent(&self) -> bool {
        self.success == (self.payload is Success)
    }

    /// Whether the `success` flag agrees with the shape of the payload.
    pub fn is_consistent(&self) -> (r: bool)
        ensures
            r == self.consistent(),
    {
        match &self.payload {
            CliPayload::Success { .. } => self.success,
            CliPayload::Error { .. } => !self.success,
        }
    }
}

/// What the engine reports about itself.
#[derive(Debug, Clone, PartialEq, Eq)]
pub struct VersionInfo {
    pub version: String,
    pub platform: String,
    pub schema_version: String,
    pub build_date: Instant,
}

/// An engine failure record with its texts as sequences of characters.
pub struct EngineErrorView {
    pub code: Seq<char>,
    pub message: Seq<char>,
    pub details: Option<serde_json::Value>,
}

/// A payload with its texts as sequences of characters.
pub enum PayloadView<T> {
    Success { data: T },
    Error { error: EngineErrorView },
}

/// An envelope with its texts as sequences of characters.
pub struct ResponseView<T> {
    pub success: bool,
    pub schema_version: Seq<char>,
    pub timestamp: Instant,
    pub payload: PayloadView<T>,
}

/// A version record with its texts as sequences of characters.
pub struct VersionInfoView {
    pub version: Seq<char>,
    pub platform: Seq<char>,
    pub schema_version: Seq<char>,
    pub build_date: Instant,
}

impl View for CliError {
    type V = EngineErrorView;

    open spec fn view(&self) -> EngineErrorView {
        EngineErrorView { code: self.code@, message: self.message@, details: self.details }
    }
}

impl<T> View for CliPayload<T> {
    type V = PayloadView<T>;

    open spec fn view(&self) -> PayloadView<T> {
        match *self {
            CliPayload::Success { data } => PayloadView::Success { data },
            CliPayload::Error { error } => PayloadView::Error { error: error@ },
        }
    }
}

impl<T> View for CliResponse<T> {
    type V = ResponseView<T>;

    open spec fn view(&self) -> ResponseView<T> {
        ResponseView {
            success: self.success,
            schema_version: self.schema_version@,
            timestamp: self.timestamp,
            payload: self.payload@,
        }
    }
}

impl View for VersionInfo {
    type V = VersionInfoView;

    open spec fn view(&self) -> VersionInfoView {
        VersionInfoView {
            version: self.version@,
            platform: self.platform@,
            schema_version: self.schema_version@,
            build_date: self.build_date,
        }
    }
}

/// Answer to a configuration check.
#[derive(Debug, Clone, PartialEq, Eq)]
pub struct ValidateResult {
    pub status: String,
    pub year: i32,
    pub message: String,
}

/// An answer to a configuration check with its texts as sequences of
/// characters.
pub struct ValidateResultView {
    pub status: Seq<char>,
    pub year: i32,
    pub message: Seq<char>,
}

impl View for ValidateResult {
    type V = ValidateResultView;

    open spec fn view(&self) -> ValidateResultView {
        ValidateResultView { status: self.status@, year: self.year, message: self.message@ }
    }
}

/// Request for one tax calculation.
///
/// Income is given either as one combined amount or as a cantonal and a
/// federal amount. `canton` and `municipality` travel with the request but
/// are not part of the engine's argument vector.
#[derive(Debug, Clone, PartialEq, Eq)]
pub struct CalcParams {
    pub year: i32,
    pub income: Option<i32>,
    pub income_sg: Option<i32>,
    pub income_fed: Option<i32>,
    pub filing_status: Option<String>,
    pub pick: Vec<String>,
    pub skip: Vec<String>,
    pub canton: Option<String>,
    pub municipality: Option<String>,
}

/// Request for a deduction optimisation.
///
/// `tolerance_bp` holds the tolerance in basis points as decimal text, the
/// way it is handed to the engine.
#[derive(Debug, Clone, PartialEq, Eq)]
pub struct OptimizeParams {
    pub year: i32,
    pub income: Option<i32>,
    pub income_sg: Option<i32>,
    pub income_fed: Option<i32>,
    pub max_deduction: i32,
    pub step: Option<i32>,
    pub filing_status: Option<String>,
    pub pick: Vec<String>,
    pub skip: Vec<String>,
    pub tolerance_bp: Option<String>,
    pub disable_adaptive: Option<bool>,
    pub canton: Option<String>,
    pub municipality: Option<String>,
}

/// Request for a scan over a range of deductions.
#[derive(Debug, Clone, PartialEq, Eq)]
pub struct ScanParams {
    pub year: i32,
    pub income: Option<i32>,
    pub income_sg: Option<i32>,
    pub income_fed: Option<i32>,
    pub max_deduction: i32,
    pub d_step: Option<i32>,
    pub filing_status: Option<String>,
    pub pick: Vec<String>,
    pub skip: Vec<String>,
    pub include_local_marginal: Option<bool>,
    pub canton: Option<String>,
    pub municipality: Option<String>,
}

/// Request for a comparison of tax brackets before and after a deduction.
#[derive(Debug, Clone, PartialEq, Eq)]
pub struct CompareBracketsParams {
    pub year: i32,
    pub income: Option<i32>,
    pub income_sg: Option<i32>,
    pub income_fed: Option<i32>,
    pub deduction: Option<i32>,
    pub filing_status: Option<String>,
    pub canton: Option<String>,
    pub municipality: Option<String>,
}

/// Request for a configuration check.
#[derive(Debug, Clone, Copy, PartialEq, Eq)]
pub struct ValidateParams {
    pub year: i32,
}

/// The income fields of a request, as the argument builder reads them.
pub struct IncomeView {
    pub income: Option<i32>,
    pub income_sg: Option<i32>,
    pub income_fed: Option<i32>,
}

/// What the argument builder reads of a calculation request.
pub struct CalcParamsView {
    pub year: i32,
    pub income: IncomeView,
    pub filing_status: Option<Seq<char>>,
    pub pick: Seq<Seq<char>>,
    pub skip: Seq<Seq<char>>,
}

/// What the argument builder reads of an optimisation request.
pub struct OptimizeParamsView {
    pub year: i32,
    pub income: IncomeView,
    pub max_deduction: i32,
    pub step: Option<i32>,
    pub filing_status: Option<Seq<char>>,
    pub pick: Seq<Seq<char>>,
    pub skip: Seq<Seq<char>>,
    pub tolerance_bp: Option<Seq<char>>,
    pub disable_adaptive: Option<bool>,
}

/// What the argument builder reads of a scan request.
pub struct ScanParamsView {
    pub year: i32,
    pub income: IncomeView,
    pub max_deduction: i32,
    pub d_step: Option<i32>,
    pub filing_status: Option<Seq<char>>,
    pub pick: Seq<Seq<char>>,
    pub skip: Seq<Seq<char>>,
    pub include_local_marginal: Option<bool>,
}

/// What the argument builder reads of a bracket comparison request.
pub struct CompareBracketsParamsView {
    pub year: i32,
    pub income: IncomeView,
    pub deduction: Option<i32>,
    pub filing_status: Option<Seq<char>>,
}

impl View for CalcParams {
    type V = CalcParamsView;

    open spec fn view(&self) -> CalcParamsView {
        CalcParamsView {
            year: self.year,
            income: IncomeView {
                income: self.income,
                income_sg: self.income_sg,
                income_fed: self.income_fed,
            },
            filing_status: opt_text(self.filing_status),
            pick: texts(self.pick@),
            skip: texts(self.skip@),
        }
    }
}

impl View for OptimizeParams {
    type V = OptimizeParamsView;

    open spec fn view(&self) -> OptimizeParamsView {
        OptimizeParamsView {
            year: self.year,
            income: IncomeView {
                income: self.income,
                income_sg: self.income_sg,
                income_fed: self.income_fed,
            },
            max_deduction: self.max_deduction,
            step: self.step,
            filing_status: opt_text(self.filing_status),
            pick: texts(self.pick@),
            skip: texts(self.skip@),
            tolerance_bp: opt_text(self.tolerance_bp),
            disable_adaptive: self.disable_adaptive,
        }
    }
}

impl View for ScanParams {
    type V = ScanParamsView;

    open spec fn view(&self) -> ScanParamsView {
        ScanParamsView {
            year: self.year,
            income: IncomeView {
                income: self.income,
                income_sg: self.income_sg,
                income_fed: self.income_fed,
            },
            max_deduction: self.max_deduction,
            d_step: self.d_step,
            filing_status: opt_text(self.filing_status),
            pick: texts(self.pick@),
            skip: texts(self.skip@),
            include_local_marginal: self.include_local_marginal,
        }
    }
}

impl View for CompareBracketsParams {
    type V = CompareBracketsParamsView;

    open spec fn view(&self) -> CompareBracketsParamsView {
        CompareBracketsParamsView {
            year: self.year,
            income: IncomeView {
                income: self.income,
                income_sg: self.income_sg,
                income_fed: self.income_fed,
            },
            deduction: self.deduction,
            filing_status: opt_text(self.filing_status),
        }
    }
}

/// The cantons and municipalities the engine knows, with its defaults.
#[derive(Debug, Clone, PartialEq, Eq)]
pub struct AvailableLocations {
    pub cantons: Vec<Canton>,
    pub defaults: LocationDefaults,
}

#[derive(Debug, Clone, PartialEq, Eq)]
pub struct Canton {
    pub name: String,
    pub key: String,
    pub municipalities: Vec<Municipality>,
}

#[derive(Debug, Clone, PartialEq, Eq)]
pub struct Municipality {
    pub name: String,
    pub key: String,
}

#[derive(Debug, Clone, PartialEq, Eq)]
pub struct LocationDefaults {
    pub canton: String,
    pub municipality: String,
}

/// The fiscal years for which the engine holds a configuration.
#[derive(Debug, Clone, PartialEq, Eq)]
pub struct AvailableYears {
    pub available_years: Vec<i32>,
    pub count: usize,
}

/// Summary of one year's configuration.
#[derive(Debug, Clone, PartialEq, Eq)]
pub struct ConfigSummary {
    pub year: i32,
    pub schema_version: String,
    pub country: String,
    pub currency: String,
    pub canton_count: usize,
    pub cantons: Vec<CantonSummary>,
    pub defaults: LocationDefaults,
    pub federal_filing_statuses: Vec<String>,
}

#[derive(Debug, Clone, PartialEq, Eq)]
pub struct CantonSummary {
    pub key: String,
    pub name: String,
    pub abbreviation: String,
    pub bracket_count: usize,
    pub municipality_count: usize,
    pub municipalities: Vec<MunicipalitySummary>,
}

#[derive(Debug, Clone, PartialEq, Eq)]
pub struct MunicipalitySummary {
    pub key: String,
    pub name: String,
    pub multiplier_count: usize,
}

/// Outcome of creating or updating a year.
#[derive(Debug, Clone, PartialEq, Eq)]
pub struct YearOperationResult {
    pub source_year: Option<i32>,
    pub target_year: i32,
    pub success: bool,
    pub message: String,
    pub archive_file: Option<String>,
}

/// Outcome of creating, updating or deleting a canton.
#[derive(Debug, Clone, PartialEq, Eq)]
pub struct CantonOperationResult {
    pub success: bool,
    pub canton_key: String,
    pub canton_name: String,
    pub message: String,
    pub archive_file: Option<String>,
}

/// Outcome of creating, updating or deleting a municipality.
#[derive(Debug, Clone, PartialEq, Eq)]
pub struct MunicipalityOperationResult {
    pub success: bool,
    pub canton_key: String,
    pub municipality_key: String,
    pub municipality_name: String,
    pub message: String,
    pub archive_file: Option<String>,
}

/// Outcome of replacing the federal brackets of a filing status.
#[derive(Debug, Clone, PartialEq, Eq)]
pub struct FederalBracketsOperationResult {
    pub success: bool,
    pub filing_status: String,
    pub segments_count: usize,
    pub message: String,
    pub archive_file: Option<String>,
}

/// How taxable amounts and taxes are rounded.
#[derive(Debug, Clone, PartialEq, Eq)]
pub struct RoundingConfig {
    pub taxable_step: i32,
    pub tax_round_to: i32,
    pub scope: String,
}

#[derive(Debug, Clone, Copy, PartialEq, Eq)]
pub struct ListYearsParams {
}

#[derive(Debug, Clone, Copy, PartialEq, Eq)]
pub struct ConfigSummaryParams {
    pub year: i32,
}

#[derive(Debug, Clone, Copy, PartialEq, Eq)]
pub struct CreateYearParams {
    pub source_year: i32,
    pub target_year: i32,
    pub overwrite: Option<bool>,
}

#[derive(Debug, Clone, PartialEq, Eq)]
pub struct DeleteCantonParams {
    pub year: i32,
    pub canton_key: String,
    pub confirm: Option<bool>,
}

#[derive(Debug, Clone, PartialEq, Eq)]
pub struct DeleteMunicipalityParams {
    pub year: i32,
    pub canton_key: String,
    pub municipality_key: String,
    pub confirm: Option<bool>,
}

#[derive(Debug, Clone, PartialEq, Eq)]
pub struct GetFederalSegmentsParams {
    pub year: i32,
    pub filing_status: String,
}

#[derive(Debug, Clone, PartialEq, Eq)]
pub struct GetCantonParams {
    pub year: i32,
    pub canton_key: String,
}

} // verus!
