//! The process invoker's decisions: what to start, and what the way a process
//! ended means.
//!
//! Starting the process, draining its streams and enforcing the deadline are
//! the caller's work. The caller hands over how the process ended as a
//! `ProcessOutcome`.

use crate::error::{text_result, CliError, CliErrorView};
use crate::resolver::{EngineLocation, EngineMode, SYSTEM_INTERPRETER};
use crate::text::{
    decimal, i32_to_string, is_blank, join, join_lines, opt_text, strip_terminators, texts,
    trim_text, without_terminators,
};
use vstd::prelude::*;

verus! {

/// Time budget of a quick, informational call, in seconds.
pub const QUICK_TIMEOUT_SECS: u64 = 10;

/// Time budget of a calculation or a check, in seconds.
pub const STANDARD_TIMEOUT_SECS: u64 = 30;

/// Time budget of a search over many deductions, in seconds.
pub const SEARCH_TIMEOUT_SECS: u64 = 60;

/// A program and the arguments it is started with.
#[derive(Debug, Clone, PartialEq, Eq)]
pub struct Invocation {
    pub program: String,
    pub args: Vec<String>,
}

/// How a process ended.
#[derive(Debug, Clone, PartialEq, Eq)]
pub enum ProcessOutcome {
    /// The deadline passed before the process was done.
    TimedOut,
    /// The process could not be started, read or waited for.
    IoFailed { message: String },
    /// The process exited. `code` is absent when a signal ended it. The
    /// lines are those read from the two streams, in order, as they came,
    /// each with its line terminator.
    Exited {
        success: bool,
        code: Option<i32>,
        stdout_lines: Vec<String>,
        stderr_lines: Vec<String>,
    },
}

/// A process outcome with its texts as sequences of characters.
pub enum ProcessOutcomeView {
    TimedOut,
    IoFailed { message: Seq<char> },
    Exited {
        success: bool,
        code: Option<i32>,
        stdout_lines: Seq<Seq<char>>,
        stderr_lines: Seq<Seq<char>>,
    },
}

impl View for ProcessOutcome {
    type V = ProcessOutcomeView;

    open spec fn view(&self) -> ProcessOutcomeView {
        match *self {
            ProcessOutcome::TimedOut => ProcessOutcomeView::TimedOut,
            ProcessOutcome::IoFailed { message } => ProcessOutcomeView::IoFailed {
                message: message@,
            },
            ProcessOutcome::Exited {
                success,
                code,
                stdout_lines,
                stderr_lines,
            } => ProcessOutcomeView::Exited {
                success,
                code,
                stdout_lines: texts(stdout_lines@),
                stderr_lines: texts(stderr_lines@),
            },
        }
    }
}

/// The program to start: the engine itself, or for a script the interpreter,
/// which is the one found in an isolated environment or else the system's.
pub open spec fn invocation_program(
    path: Seq<char>,
    mode: EngineMode,
    interpreter: Option<Seq<char>>,
) -> Seq<char> {
    match mode {
        EngineMode::CompiledExecutable => path,
        EngineMode::InterpretedScript => match interpreter {
            Some(p) => p,
            None => SYSTEM_INTERPRETER@,
        },
    }
}

/// The arguments to start with: for a script its path comes first.
pub open spec fn invocation_args(path: Seq<char>, mode: EngineMode, args: Seq<Seq<char>>) -> Seq<
    Seq<char>,
> {
    match mode {
        EngineMode::CompiledExecutable => args,
        EngineMode::InterpretedScript => seq![path] + args,
    }
}

/// Decides what to start for an engine call with the given arguments.
pub fn plan_invocation(
    location: &EngineLocation,
    interpreter: Option<String>,
    args: &Vec<String>,
) -> (r: Invocation)
    ensures
        r.program@ == invocation_program(location.path@, location.mode, opt_text(interpreter)),
        texts(r.args@) == invocation_args(location.path@, location.mode, texts(args@)),
{
    let mut all: Vec<String> = Vec::new();
    let program = match location.mode {
        EngineMode::CompiledExecutable => location.path.clone(),
        EngineMode::InterpretedScript => {
            all.push(location.path.clone());
            match interpreter {
                Some(p) => p,
                None => SYSTEM_INTERPRETER.to_owned(),
            }
        },
    };
    let ghost lead = texts(all@);
    let mut i: usize = 0;
    assert(texts(all@) =~= lead + texts(args@).take(0));
    while i < args.len()
        invariant
            i <= args.len(),
            texts(all@) == lead + texts(args@).take(i as int),
        decreases args.len() - i,
    {
        let ghost before = all@;
        let arg = args[i].clone();
        all.push(arg);
        proof {
            assert(texts(before) == lead + texts(args@).take(i as int));
            assert(texts(all@) =~= texts(before).push(args@[i as int]@));
            assert(texts(args@).take(i + 1) =~= texts(args@).take(i as int).push(
                args@[i as int]@,
            ));
            assert(texts(all@) =~= lead + texts(args@).take(i + 1));
        }
        i = i + 1;
    }
    assert(texts(args@).take(args.len() as int) =~= texts(args@));
    assert(texts(all@) =~= invocation_args(location.path@, location.mode, texts(args@)));
    Invocation { program, args: all }
}

/// The text of a stream as it was written: the lines, each without its line
/// terminator and otherwise untouched, joined by line feeds.
pub open spec fn stream_text(lines: Seq<Seq<char>>) -> Seq<char> {
    join_lines(without_terminators(lines))
}

/// Puts the lines of a stream together: every line without its line
/// terminator, the lines joined by line feeds.
pub fn collect_stream(lines: &Vec<String>) -> (r: String)
    ensures
        r@ == stream_text(texts(lines@)),
{
    let clean = strip_terminators(lines);
    proof {
        reveal_strlit("\n");
        assert("\n"@ =~= seq!['\n']);
    }
    join(&clean, "\n")
}

/// The exit code as reported: the code itself, or -1 where there is none.
pub open spec fn reported_code(code: Option<i32>) -> int {
    match code {
        Some(c) => c as int,
        None => -1,
    }
}

/// What an abnormal exit is reported with: the text of the error stream, or,
/// where that stream gave no line at all, the exit code.
pub open spec fn failure_text(code: Option<i32>, stderr_lines: Seq<Seq<char>>) -> Seq<char> {
    if stderr_lines.len() == 0 {
        "CLI command failed with exit code: "@ + decimal(reported_code(code))
    } else {
        stream_text(stderr_lines)
    }
}

/// What the way a process ended means for the call that started it.
///
/// - A passed deadline is a timeout of the configured budget.
/// - A failure to start or read the process is an I/O failure.
/// - An abnormal exit is a process failure that carries the error stream
///   verbatim.
/// - A normal exit with blank output is a process failure as well.
/// - Otherwise the call yields the text of the output stream.
pub open spec fn interpretation(outcome: ProcessOutcomeView, timeout_secs: u64) -> Result<
    Seq<char>,
    CliErrorView,
> {
    match outcome {
        ProcessOutcomeView::TimedOut => Err(CliErrorView::Timeout { seconds: timeout_secs }),
        ProcessOutcomeView::IoFailed { message } => Err(CliErrorView::IoError(message)),
        ProcessOutcomeView::Exited { success, code, stdout_lines, stderr_lines } => if !success {
            Err(CliErrorView::ProcessFailed(failure_text(code, stderr_lines)))
        } else if is_blank(stream_text(stdout_lines)) {
            Err(CliErrorView::ProcessFailed("CLI returned empty output"@))
        } else {
            Ok(stream_text(stdout_lines))
        },
    }
}

/// Classifies how a process ended: the text of its output stream, or the
/// failure the call ends with. `timeout_secs` is the budget the process was
/// started with.
pub fn interpret_outcome(outcome: &ProcessOutcome, timeout_secs: u64) -> (r: Result<
    String,
    CliError,
>)
    ensures
        text_result(r) == interpretation(outcome@, timeout_secs),
{
    match outcome {
        ProcessOutcome::TimedOut => Err(CliError::Timeout { seconds: timeout_secs }),
        ProcessOutcome::IoFailed { message } => Err(CliError::IoError(message.clone())),
        ProcessOutcome::Exited { success, code, stdout_lines, stderr_lines } => {
            if !*success {
                let text = if stderr_lines.len() == 0 {
                    let shown: i32 = match code {
                        Some(c) => *c,
                        None => -1,
                    };
                    let number = i32_to_string(shown);
                    crate::error::prefixed("CLI command failed with exit code: ", number.as_str())
                } else {
                    collect_stream(stderr_lines)
                };
                Err(CliError::ProcessFailed(text))
            } else {
                let text = collect_stream(stdout_lines);
                if trim_text(text.as_str()).is_empty() {
                    Err(CliError::ProcessFailed("CLI returned empty output".to_owned()))
                } else {
                    Ok(text)
                }
            }
        },
    }
}

/// An exit with a failure status and at least one line on the error stream
/// is reported as a process failure whose text is the error stream as it was
/// written: its lines joined by line feeds, with nothing but the line
/// terminators taken away. What the output stream held plays no part.
pub proof fn lemma_failed_exit_carries_stderr(
    code: Option<i32>,
    stdout_lines: Seq<Seq<char>>,
    stderr_lines: Seq<Seq<char>>,
    timeout_secs: u64,
)
    requires
        stderr_lines.len() > 0,
    ensures
        interpretation(
            ProcessOutcomeView::Exited { success: false, code, stdout_lines, stderr_lines },
            timeout_secs,
        ) == Err::<Seq<char>, CliErrorView>(
            CliErrorView::ProcessFailed(join_lines(without_terminators(stderr_lines))),
        ),
{
}

/// A passed deadline is reported as a timeout that names exactly the budget
/// the process was started with.
pub proof fn lemma_timeout_names_budget(timeout_secs: u64)
    ensures
        interpretation(ProcessOutcomeView::TimedOut, timeout_secs) == Err::<
            Seq<char>,
            CliErrorView,
        >(CliErrorView::Timeout { seconds: timeout_secs }),
{
}

} // verus!
