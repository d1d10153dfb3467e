//! Requests for, and outcomes of, one run of the external processing step.

use vstd::prelude::*;

verus! {

/// Fixed identity of the external processing step: the interpreter to start
/// and the script handed to it. Both are injected at startup so that no call
/// site bakes in a machine-specific path.
#[derive(Debug, Clone)]
pub struct ProcessorConfig {
    pub interpreter: String,
    pub script: String,
}

/// One synchronous run of the external processing step: the program to start
/// and its ordered argument list. Each entry is meant to be passed to the
/// operating system as one discrete argument token, never concatenated or
/// escaped into a shell line.
#[derive(Debug, Clone)]
pub struct InvocationRequest {
    pub program: String,
    pub args: Vec<String>,
}

/// Everything captured from one finished run: the exit code (`None` when the
/// process terminated abnormally, without reporting a code) and the raw bytes
/// of both output streams.
#[derive(Debug, Clone, PartialEq, Eq)]
pub struct InvocationOutcome {
    pub code: Option<i32>,
    pub stdout: Vec<u8>,
    pub stderr: Vec<u8>,
}

/// Mathematical image of an [`InvocationOutcome`]: the same exit code with
/// both streams as byte sequences.
pub struct OutcomeModel {
    pub code: Option<i32>,
    pub stdout: Seq<u8>,
    pub stderr: Seq<u8>,
}

impl View for InvocationOutcome {
    type V = OutcomeModel;

    open spec fn view(&self) -> OutcomeModel {
        OutcomeModel { code: self.code, stdout: self.stdout@, stderr: self.stderr@ }
    }
}

impl OutcomeModel {
    /// Termination counts as successful exactly when the process exited with
    /// code zero; an abnormal end reports no code and is never a success.
    pub open spec fn is_success(self) -> bool {
        self.code == Some(0i32)
    }
}

impl InvocationOutcome {
    /// Decide success of the captured exit status.
    pub fn is_success(&self) -> (r: bool)
        ensures
            r == self@.is_success(),
    {
        match self.code {
            Some(c) => c == 0,
            None => false,
        }
    }
}

/// Assemble the request for one run: the configured interpreter as the
/// program, then the script path, the spreadsheet path and the chosen sheet
/// name as the three positional arguments, each carried verbatim as its own
/// token.
pub fn build_request(config: &ProcessorConfig, file_path: String, sheet_name: String) -> (r:
    InvocationRequest)
    ensures
        r.program == config.interpreter,
        r.args@.len() == 3,
        r.args@[0] == config.script,
        r.args@[1] == file_path,
        r.args@[2] == sheet_name,
{
    let program = config.interpreter.clone();
    let script = config.script.clone();
    let mut args: Vec<String> = Vec::new();
    args.push(script);
    args.push(file_path);
    args.push(sheet_name);
    InvocationRequest { program, args }
}

} // verus!
