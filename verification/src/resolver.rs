//! Finding the engine program, and the interpreter for an engine that is a
//! script.
//!
//! The file system is probed by the caller. This module fixes where to look
//! and in what order, and picks the first place at which something was found.

use crate::error::{CliError, CliErrorView};
use crate::text::{debug_quoted, join, join_with, quote_text, texts};
use vstd::prelude::*;

verus! {

/// How the engine at a location is started.
#[derive(Debug, Clone, Copy, PartialEq, Eq, Structural)]
pub enum EngineMode {
    /// The file is a program of its own.
    CompiledExecutable,
    /// The file is a script that an interpreter runs.
    InterpretedScript,
}

/// Where the engine was found. Never changed once resolved.
#[derive(Debug, Clone, PartialEq, Eq)]
pub struct EngineLocation {
    pub path: String,
    pub mode: EngineMode,
}

/// One place to look for the engine, relative to the directory of the
/// calling program: go up `ancestors` directories, then take `file_name`.
#[derive(Debug, Clone, PartialEq, Eq)]
pub struct SearchStep {
    pub ancestors: usize,
    pub file_name: String,
    pub mode: EngineMode,
}

/// One place that was looked at, and whether a file was there.
#[derive(Debug, Clone, PartialEq, Eq)]
pub struct Candidate {
    pub path: String,
    pub mode: EngineMode,
    pub exists: bool,
}

/// A path that was probed, and whether a file was there.
#[derive(Debug, Clone, PartialEq, Eq)]
pub struct Probe {
    pub path: String,
    pub exists: bool,
}

/// Name of the packaged engine program.
pub const PRODUCTION_EXECUTABLE: &'static str = "taxglide.exe";

/// Name of the engine's script entry point.
pub const SCRIPT_ENTRY_POINT: &'static str = "main.py";

/// How far above the calling program's directory the script lies in a
/// development checkout.
pub const DEVELOPMENT_ANCESTORS: usize = 4;

/// Interpreter name used when no isolated environment is found; the system
/// resolves it through its search path.
pub const SYSTEM_INTERPRETER: &'static str = "python";

pub open spec fn is_search_step(
    s: SearchStep,
    ancestors: usize,
    file_name: Seq<char>,
    mode: EngineMode,
) -> bool {
    s.ancestors == ancestors && s.file_name@ == file_name && s.mode == mode
}

/// The places to look for the engine, in the order in which they are tried:
/// the packaged program beside the caller, the script of a development
/// checkout, and the script beside the caller.
pub fn search_steps() -> (r: Vec<SearchStep>)
    ensures
        r@.len() == 3,
        is_search_step(r@[0], 0, PRODUCTION_EXECUTABLE@, EngineMode::CompiledExecutable),
        is_search_step(
            r@[1],
            DEVELOPMENT_ANCESTORS,
            SCRIPT_ENTRY_POINT@,
            EngineMode::InterpretedScript,
        ),
        is_search_step(r@[2], 0, SCRIPT_ENTRY_POINT@, EngineMode::InterpretedScript),
{
    let mut steps: Vec<SearchStep> = Vec::new();
    steps.push(
        SearchStep {
            ancestors: 0,
            file_name: PRODUCTION_EXECUTABLE.to_owned(),
            mode: EngineMode::CompiledExecutable,
        },
    );
    steps.push(
        SearchStep {
            ancestors: DEVELOPMENT_ANCESTORS,
            file_name: SCRIPT_ENTRY_POINT.to_owned(),
            mode: EngineMode::InterpretedScript,
        },
    );
    steps.push(
        SearchStep {
            ancestors: 0,
            file_name: SCRIPT_ENTRY_POINT.to_owned(),
            mode: EngineMode::InterpretedScript,
        },
    );
    steps
}

/// The places, relative to the script's directory, at which an isolated
/// environment keeps its interpreter, in the order in which they are tried.
/// Each place is given by its path components.
pub fn interpreter_places() -> (r: Vec<Vec<String>>)
    ensures
        r@.len() == 2,
        texts(r@[0]@) == seq![".venv"@, "Scripts"@, "python.exe"@],
        texts(r@[1]@) == seq!["venv"@, "Scripts"@, "python.exe"@],
{
    let mut first: Vec<String> = Vec::new();
    first.push(".venv".to_owned());
    first.push("Scripts".to_owned());
    first.push("python.exe".to_owned());
    assert(texts(first@) =~= seq![".venv"@, "Scripts"@, "python.exe"@]);
    let mut second: Vec<String> = Vec::new();
    second.push("venv".to_owned());
    second.push("Scripts".to_owned());
    second.push("python.exe".to_owned());
    assert(texts(second@) =~= seq!["venv"@, "Scripts"@, "python.exe"@]);
    let mut places: Vec<Vec<String>> = Vec::new();
    places.push(first);
    places.push(second);
    places
}

/// Index of the first `true`, if there is one.
pub open spec fn first_true(flags: Seq<bool>) -> Option<int>
    decreases flags.len(),
{
    if flags.len() == 0 {
        None
    } else if flags[0] {
        Some(0)
    } else {
        match first_true(flags.drop_first()) {
            Some(i) => Some(i + 1),
            None => None,
        }
    }
}

/// The first match wins: `first_true` names an index that holds `true` and
/// has only `false` before it; it is `None` exactly when no index holds
/// `true`.
pub proof fn lemma_first_true(flags: Seq<bool>)
    ensures
        match first_true(flags) {
            Some(i) => 0 <= i < flags.len() && flags[i] && forall|j: int|
                0 <= j < i ==> !flags[j],
            None => forall|j: int| 0 <= j < flags.len() ==> !flags[j],
        },
    decreases flags.len(),
{
    if flags.len() > 0 && !flags[0] {
        let rest = flags.drop_first();
        lemma_first_true(rest);
        match first_true(rest) {
            Some(i) => {
                assert forall|j: int| 0 <= j < i + 1 implies !flags[j] by {
                    if j > 0 {
                        assert(flags[j] == rest[j - 1]);
                    }
                }
                assert(flags[i + 1] == rest[i]);
            },
            None => {
                assert forall|j: int| 0 <= j < flags.len() implies !flags[j] by {
                    if j > 0 {
                        assert(flags[j] == rest[j - 1]);
                    }
                }
            },
        }
    }
}

proof fn lemma_first_true_at(flags: Seq<bool>, i: int)
    requires
        0 <= i < flags.len(),
        flags[i],
        forall|j: int| 0 <= j < i ==> !flags[j],
    ensures
        first_true(flags) == Some(i),
{
    lemma_first_true(flags);
}

proof fn lemma_first_true_nowhere(flags: Seq<bool>)
    requires
        forall|j: int| 0 <= j < flags.len() ==> !flags[j],
    ensures
        first_true(flags) is None,
{
    lemma_first_true(flags);
}

pub open spec fn candidate_flags(c: Seq<Candidate>) -> Seq<bool> {
    Seq::new(c.len(), |i: int| c[i].exists)
}

/// The paths of the candidates, each between quotes.
pub open spec fn quoted_paths(c: Seq<Candidate>) -> Seq<Seq<char>> {
    Seq::new(c.len(), |i: int| debug_quoted(c[i].path@))
}

pub open spec fn probe_flags(p: Seq<Probe>) -> Seq<bool> {
    Seq::new(p.len(), |i: int| p[i].exists)
}

/// The text that reports a failed search: every path tried, in order, each
/// between quotes.
pub open spec fn not_found_text(paths: Seq<Seq<char>>) -> Seq<char> {
    "Cannot find CLI executable. Searched for: "@ + join_with(", "@, paths)
}

/// What the search yields: the first candidate at which a file was found, or
/// a failure that lists every path tried.
pub open spec fn discovery(c: Seq<Candidate>) -> Result<(Seq<char>, EngineMode), CliErrorView> {
    match first_true(candidate_flags(c)) {
        Some(i) => Ok((c[i].path@, c[i].mode)),
        None => Err(CliErrorView::ExecutableNotFound(not_found_text(quoted_paths(c)))),
    }
}

pub open spec fn location_result(r: Result<EngineLocation, CliError>) -> Result<
    (Seq<char>, EngineMode),
    CliErrorView,
> {
    match r {
        Ok(l) => Ok((l.path@, l.mode)),
        Err(e) => Err(e@),
    }
}

/// Picks the engine among the candidates, which are given in search order
/// with the outcome of each probe. The first candidate that exists wins.
pub fn discover_cli_executable(candidates: &Vec<Candidate>) -> (r: Result<
    EngineLocation,
    CliError,
>)
    ensures
        location_result(r) == discovery(candidates@),
{
    let mut paths: Vec<String> = Vec::new();
    let mut i: usize = 0;
    while i < candidates.len()
        invariant
            i <= candidates.len(),
            paths.len() == i,
            forall|j: int| 0 <= j < i ==> !candidates@[j].exists,
            forall|j: int|
                0 <= j < i ==> (#[trigger] paths@[j])@ == debug_quoted(candidates@[j].path@),
        decreases candidates.len() - i,
    {
        if candidates[i].exists {
            proof {
                lemma_first_true_at(candidate_flags(candidates@), i as int);
            }
            return Ok(
                EngineLocation { path: candidates[i].path.clone(), mode: candidates[i].mode },
            );
        }
        paths.push(quote_text(candidates[i].path.as_str()));
        i = i + 1;
    }
    proof {
        lemma_first_true_nowhere(candidate_flags(candidates@));
        assert(texts(paths@) =~= quoted_paths(candidates@));
    }
    let list = join(&paths, ", ");
    Err(
        CliError::ExecutableNotFound(
            crate::error::prefixed("Cannot find CLI executable. Searched for: ", list.as_str()),
        ),
    )
}

/// The interpreter of an isolated environment, if one of the probed places
/// holds one: the first such place, in the order given.
pub open spec fn venv_python(p: Seq<Probe>) -> Option<Seq<char>> {
    match first_true(probe_flags(p)) {
        Some(i) => Some(p[i].path@),
        None => None,
    }
}

/// Picks the interpreter among the probed places. `None` means that no
/// isolated environment was found, which is no failure: the system's
/// interpreter is used then.
pub fn find_venv_python(probes: &Vec<Probe>) -> (r: Option<String>)
    ensures
        crate::text::opt_text(r) == venv_python(probes@),
{
    let mut i: usize = 0;
    while i < probes.len()
        invariant
            i <= probes.len(),
            forall|j: int| 0 <= j < i ==> !probes@[j].exists,
        decreases probes.len() - i,
    {
        if probes[i].exists {
            proof {
                lemma_first_true_at(probe_flags(probes@), i as int);
            }
            return Some(probes[i].path.clone());
        }
        i = i + 1;
    }
    proof {
        lemma_first_true_nowhere(probe_flags(probes@));
    }
    None
}

} // verus!
