//! The external command gateway: the exact command lines the external
//! time-tracking tool is invoked with, the search-path rule for finding it,
//! and the typed outcome of one invocation.
//!
//! The library never spawns a process itself. The caller asks for the program
//! name, arguments and search path, runs the tool, and hands the captured
//! result back as a [`CommandOutcome`].

use vstd::prelude::*;
use vstd::string::*;

verus! {

/// The result of one invocation of the external tool, consumed once by the
/// controller.
#[derive(Debug, PartialEq, Eq)]
pub enum CommandOutcome {
    /// The tool ran and exited successfully; the captured standard output.
    Success(Vec<u8>),
    /// The tool ran but exited non-zero; the captured standard error.
    ProcessFailure(Vec<u8>),
    /// The tool could not be started at all; a description of the failure.
    SpawnFailure(String),
}

/// The mathematical value of a [`CommandOutcome`].
pub enum OutcomeView {
    Success(Seq<u8>),
    ProcessFailure(Seq<u8>),
    SpawnFailure(Seq<char>),
}

impl View for CommandOutcome {
    type V = OutcomeView;

    open spec fn view(&self) -> OutcomeView {
        match self {
            CommandOutcome::Success(out) => OutcomeView::Success(out@),
            CommandOutcome::ProcessFailure(err) => OutcomeView::ProcessFailure(err@),
            CommandOutcome::SpawnFailure(m) => OutcomeView::SpawnFailure(m@),
        }
    }
}

/// One invocation of the external tool that an intent asks for.
#[derive(Debug, PartialEq, Eq)]
pub enum GatewayCall {
    /// Read the currently running entry (its description only).
    FetchCurrent,
    /// Clock in a new entry with the given description.
    StartEntry(String),
    /// Clock out the running entry.
    StopEntry,
}

/// The mathematical value of a [`GatewayCall`].
pub enum CallView {
    FetchCurrent,
    StartEntry(Seq<char>),
    StopEntry,
}

impl View for GatewayCall {
    type V = CallView;

    open spec fn view(&self) -> CallView {
        match self {
            GatewayCall::FetchCurrent => CallView::FetchCurrent,
            GatewayCall::StartEntry(d) => CallView::StartEntry(d@),
            GatewayCall::StopEntry => CallView::StopEntry,
        }
    }
}

/// The argument list each call passes to the external tool: fetching asks the
/// show verb for the description field only, starting passes the description
/// to the clock-in verb, stopping is the bare clock-out verb.
pub open spec fn argv_of(c: CallView) -> Seq<Seq<char>> {
    match c {
        CallView::FetchCurrent => seq!["show"@, "--format"@, "{{.Description}}"@],
        CallView::StartEntry(d) => seq!["in"@, "-d"@, d],
        CallView::StopEntry => seq!["out"@],
    }
}

/// The name the external tool is invoked under.
pub fn gateway_program() -> (r: String)
    ensures
        r@ == "clockify-cli"@,
{
    String::from_str("clockify-cli")
}

/// The fixed directory prepended to the search path, where the tool's
/// installation convention puts the binary.
pub fn tool_bin_dir() -> (r: String)
    ensures
        r@ == "/home/linuxbrew/.linuxbrew/bin"@,
{
    String::from_str("/home/linuxbrew/.linuxbrew/bin")
}

/// The arguments for `call`, in order.
pub fn gateway_argv(call: &GatewayCall) -> (r: Vec<String>)
    ensures
        r@.len() == argv_of(call@).len(),
        forall|i: int| 0 <= i < r@.len() ==> r@[i]@ == argv_of(call@)[i],
{
    let mut args: Vec<String> = Vec::new();
    match call {
        GatewayCall::FetchCurrent => {
            args.push(String::from_str("show"));
            args.push(String::from_str("--format"));
            args.push(String::from_str("{{.Description}}"));
        },
        GatewayCall::StartEntry(d) => {
            args.push(String::from_str("in"));
            args.push(String::from_str("-d"));
            args.push(d.clone());
        },
        GatewayCall::StopEntry => {
            args.push(String::from_str("out"));
        },
    }
    args
}

/// The search-path value handed to the subprocess: the fixed tool directory,
/// a separator, then the inherited value.
pub open spec fn search_path_of(prefix: Seq<char>, inherited: Seq<char>) -> Seq<char> {
    prefix + ":"@ + inherited
}

/// The search path for one invocation, built from the inherited search-path
/// value when there is one. Without one the invocation cannot be configured,
/// and the error text names the problem so the caller can surface it as a
/// spawn failure.
pub fn build_search_path(prefix: &str, inherited: Option<String>) -> (r: Result<String, String>)
    ensures
        match inherited {
            Some(p) => r matches Ok(v) && v@ == search_path_of(prefix@, p@),
            None => r matches Err(m) && m@ == "PATH unavailable"@,
        },
{
    match inherited {
        Some(p) => {
            let mut path = String::from_str(prefix);
            path.append(":");
            path.append(p.as_str());
            Ok(path)
        },
        None => Err(String::from_str("PATH unavailable")),
    }
}

} // verus!
