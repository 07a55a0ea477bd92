//! One script execution, from what the engine reports to what the caller
//! sees.

use vstd::prelude::*;
use vstd::string::*;
use crate::logs::{clean, split_lines, split_logs, texts};

verus! {

/// The outcome of a successful execution: the script's final value as text
/// and the lines it logged, in call order.
pub struct Evaluation {
    pub result: String,
    pub logs: Vec<String>,
}

impl Evaluation {
    /// What holds of every evaluation that this library hands out: each
    /// logged line has at least one character and no newline in it.
    pub open spec fn well_formed(&self) -> bool {
        clean(texts(self.logs@))
    }
}

/// Why an execution produced no `Evaluation`.
pub enum ExecutionError {
    /// The source text did not compile.
    CompileError(String),
    /// The script threw, the engine failed while it ran, or a value could
    /// not be turned into text.
    RuntimeError(String),
}

/// What the engine reports of one script, run in an environment of its own.
pub enum EngineReport {
    /// The source text was rejected; the text is the engine's diagnostic.
    CompileFailed(String),
    /// The script raised an uncaught exception; the text is that exception.
    Threw(String),
    /// The final value or the log buffer could not be turned into text.
    ConversionFailed(String),
    /// The script ran to its end.
    Completed {
        /// The final value, as text.
        value: String,
        /// The log buffer as it stood after the run.
        logs: String,
    },
}

impl ExecutionError {
    /// Whether this is a compile error.
    pub open spec fn is_compile_error(&self) -> bool {
        self is CompileError
    }

    /// The diagnostic text that the error carries.
    pub open spec fn spec_message(&self) -> Seq<char> {
        match self {
            ExecutionError::CompileError(m) => m@,
            ExecutionError::RuntimeError(m) => m@,
        }
    }

    /// The machine-readable kind: `compile_error` or `runtime_error`.
    pub fn kind(&self) -> (k: &'static str)
        ensures
            k@ == if self.is_compile_error() {
                "compile_error"@
            } else {
                "runtime_error"@
            },
    {
        match self {
            ExecutionError::CompileError(_) => "compile_error",
            ExecutionError::RuntimeError(_) => "runtime_error",
        }
    }

    /// The human-readable message: the diagnostic text, unchanged.
    pub fn message(&self) -> (m: &str)
        ensures
            m@ == self.spec_message(),
    {
        match self {
            ExecutionError::CompileError(m) => m.as_str(),
            ExecutionError::RuntimeError(m) => m.as_str(),
        }
    }
}

/// The name under which the log primitive is bound in the environment.
pub fn log_name() -> (name: &'static str)
    ensures
        name@ == "log"@,
{
    "log"
}

/// The name of the global that holds the log buffer.
pub fn logs_name() -> (name: &'static str)
    ensures
        name@ == "logs"@,
{
    "logs"
}

/// Builds the outcome from the final value's text and the log buffer: the
/// value unchanged, the buffer cut into its non-empty lines.
pub fn assemble(value: String, logs: &str) -> (e: Evaluation)
    ensures
        e.result == value,
        texts(e.logs@) == split_lines(logs@),
        e.well_formed(),
{
    Evaluation { result: value, logs: split_logs(logs) }
}

/// Turns the engine's report into the caller-visible outcome. A completed
/// run gives an `Evaluation`; a rejected source a `CompileError`; an
/// exception or a failed conversion a `RuntimeError`, each with the
/// engine's text as its message.
pub fn post_run_js(report: EngineReport) -> (r: Result<Evaluation, ExecutionError>)
    ensures
        match report {
            EngineReport::Completed { value, logs } => r is Ok && r->Ok_0.result == value
                && texts(r->Ok_0.logs@) == split_lines(logs@) && r->Ok_0.well_formed(),
            EngineReport::CompileFailed(m) => r is Err && r->Err_0 == ExecutionError::CompileError(
                m,
            ),
            EngineReport::Threw(m) => r is Err && r->Err_0 == ExecutionError::RuntimeError(m),
            EngineReport::ConversionFailed(m) => r is Err && r->Err_0
                == ExecutionError::RuntimeError(m),
        },
{
    match report {
        EngineReport::Completed { value, logs } => Ok(assemble(value, logs.as_str())),
        EngineReport::CompileFailed(m) => Err(ExecutionError::CompileError(m)),
        EngineReport::Threw(m) => Err(ExecutionError::RuntimeError(m)),
        EngineReport::ConversionFailed(m) => Err(ExecutionError::RuntimeError(m)),
    }
}

/// The HTTP status of an outcome: 200 for an evaluation, 400 for an error.
pub fn status_code(outcome: &Result<Evaluation, ExecutionError>) -> (code: u16)
    ensures
        outcome is Ok ==> code == 200,
        outcome is Err ==> code == 400,
{
    match outcome {
        Ok(_) => 200u16,
        Err(_) => 400u16,
    }
}

} // verus!
