//! The failures of the integration layer, and the text each one is reported
//! with.

use vstd::prelude::*;

verus! {

/// Everything that can go wrong between a request and its decoded answer.
#[derive(Debug, Clone, PartialEq, Eq)]
pub enum CliError {
    /// No engine program was found; the text lists every path tried.
    ExecutableNotFound(String),
    /// The engine speaks another schema version than this crate.
    SchemaMismatch { expected: String, actual: String },
    /// The engine exited abnormally, or exited normally without output.
    ProcessFailed(String),
    /// The engine did not finish within its time budget.
    Timeout { seconds: u64 },
    /// The engine's output is not a well-formed response envelope.
    JsonError(String),
    /// The engine process could not be started or read.
    IoError(String),
    /// The engine ran and reported a failure of its own.
    CliError { code: String, message: String },
    /// The request was rejected before any process was started.
    InvalidParameters(String),
}

/// A failure with its texts as sequences of characters.
pub enum CliErrorView {
    ExecutableNotFound(Seq<char>),
    SchemaMismatch { expected: Seq<char>, actual: Seq<char> },
    ProcessFailed(Seq<char>),
    Timeout { seconds: u64 },
    JsonError(Seq<char>),
    IoError(Seq<char>),
    CliError { code: Seq<char>, message: Seq<char> },
    InvalidParameters(Seq<char>),
}

impl View for CliError {
    type V = CliErrorView;

    open spec fn view(&self) -> CliErrorView {
        match *self {
            CliError::ExecutableNotFound(m) => CliErrorView::ExecutableNotFound(m@),
            CliError::SchemaMismatch { expected, actual } => CliErrorView::SchemaMismatch {
                expected: expected@,
                actual: actual@,
            },
            CliError::ProcessFailed(m) => CliErrorView::ProcessFailed(m@),
            CliError::Timeout { seconds } => CliErrorView::Timeout { seconds },
            CliError::JsonError(m) => CliErrorView::JsonError(m@),
            CliError::IoError(m) => CliErrorView::IoError(m@),
            CliError::CliError { code, message } => CliErrorView::CliError {
                code: code@,
                message: message@,
            },
            CliError::InvalidParameters(m) => CliErrorView::InvalidParameters(m@),
        }
    }
}

/// The text a failure is reported with. The leading words differ from kind to
/// kind, so the kind stays recognisable in the text.
pub open spec fn message_of(e: CliErrorView) -> Seq<char> {
    match e {
        CliErrorView::ExecutableNotFound(m) => "CLI executable not found: "@ + m,
        CliErrorView::SchemaMismatch { expected, actual } => "Schema version mismatch: expected "@
            + expected + ", got "@ + actual,
        CliErrorView::ProcessFailed(m) => "Process execution failed: "@ + m,
        CliErrorView::Timeout { seconds } => "Process timeout after "@ + crate::text::decimal(
            seconds as int,
        ) + " seconds"@,
        CliErrorView::JsonError(m) => "JSON parsing error: "@ + m,
        CliErrorView::IoError(m) => "IO error: "@ + m,
        CliErrorView::CliError { code, message } => "CLI returned error: "@ + code + " - "@
            + message,
        CliErrorView::InvalidParameters(m) => "Invalid parameters: "@ + m,
    }
}

/// A result with its texts as sequences of characters.
pub open spec fn text_result(r: Result<String, CliError>) -> Result<Seq<char>, CliErrorView> {
    match r {
        Ok(t) => Ok(t@),
        Err(e) => Err(e@),
    }
}

/// `prefix` followed by `rest`.
pub fn prefixed(prefix: &str, rest: &str) -> (r: String)
    ensures
        r@ == prefix@ + rest@,
{
    let mut out = String::from_str(prefix);
    out.append(rest);
    out
}

impl CliError {
    /// Renders the failure as text.
    pub fn to_message(&self) -> (r: String)
        ensures
            r@ == message_of(self@),
    {
        match self {
            CliError::ExecutableNotFound(m) => prefixed("CLI executable not found: ", m.as_str()),
            CliError::SchemaMismatch { expected, actual } => {
                let mut out = prefixed("Schema version mismatch: expected ", expected.as_str());
                out.append(", got ");
                out.append(actual.as_str());
                out
            },
            CliError::ProcessFailed(m) => prefixed("Process execution failed: ", m.as_str()),
            CliError::Timeout { seconds } => {
                let number = crate::text::u64_to_string(*seconds);
                let mut out = prefixed("Process timeout after ", number.as_str());
                out.append(" seconds");
                out
            },
            CliError::JsonError(m) => prefixed("JSON parsing error: ", m.as_str()),
            CliError::IoError(m) => prefixed("IO error: ", m.as_str()),
            CliError::CliError { code, message } => {
                let mut out = prefixed("CLI returned error: ", code.as_str());
                out.append(" - ");
                out.append(message.as_str());
                out
            },
            CliError::InvalidParameters(m) => prefixed("Invalid parameters: ", m.as_str()),
        }
    }
}

} // verus!
