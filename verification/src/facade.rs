//! The command façade: the single request/response cycle that classifies a
//! captured outcome and decodes the payload on the success path, with one
//! error channel for every failure kind.

use vstd::prelude::*;
use crate::error::{CommandError, ErrorModel};
use crate::error::spec_execution_prefix;
use crate::invocation::{InvocationOutcome, OutcomeModel};
use crate::payload::{StructuredValue, decode_payload, decoded_document, lossy_text, models,
    spec_decode};

verus! {

/// What classifying a captured outcome yields: a successful exit passes the
/// captured standard output through untouched; any other termination is an
/// execution failure carrying the standard-error text read as lossy UTF-8.
/// Classification is binary — no partial success exists.
pub open spec fn spec_classify(o: OutcomeModel) -> Result<Seq<u8>, ErrorModel> {
    if o.is_success() {
        Ok(o.stdout)
    } else {
        Err(ErrorModel::Execution(lossy_text(o.stderr)))
    }
}

/// Classify one captured outcome, consuming it: its standard output moves on
/// to the decoder exactly when the process exited successfully.
pub fn classify(outcome: InvocationOutcome) -> (r: Result<Vec<u8>, CommandError>)
    ensures
        r matches Ok(out) ==> spec_classify(outcome@) == Ok::<Seq<u8>, ErrorModel>(out@),
        r matches Err(e) ==> spec_classify(outcome@) == Err::<Seq<u8>, ErrorModel>(e@),
{
    if outcome.is_success() {
        Ok(outcome.stdout)
    } else {
        let detail = crate::payload::utf8_lossy(&outcome.stderr);
        Err(CommandError::ExecutionFailure(detail))
    }
}

/// What settling a captured outcome yields: classification first, then, on
/// the success path alone, decoding of the passed-through standard output.
pub open spec fn spec_outcome_result(o: OutcomeModel) -> Result<StructuredValue, ErrorModel> {
    match spec_classify(o) {
        Ok(out) => spec_decode(out),
        Err(e) => Err(e),
    }
}

/// What one whole invocation yields once the launch attempt is in hand: a
/// launch that never produced an outcome is a launch failure carrying the
/// operating system's description; a captured outcome is classified and, on
/// success, decoded. Exactly one of a decoded value or one error comes out.
pub open spec fn spec_settle(launch: Result<OutcomeModel, Seq<char>>) -> Result<
    StructuredValue,
    ErrorModel,
> {
    match launch {
        Ok(o) => spec_outcome_result(o),
        Err(m) => Err(ErrorModel::Launch(m)),
    }
}

/// Mathematical image of a launch attempt: either the captured outcome or
/// the text describing why no process ever started.
pub open spec fn launch_model(launch: Result<InvocationOutcome, String>) -> Result<
    OutcomeModel,
    Seq<char>,
> {
    match launch {
        Ok(o) => Ok(o@),
        Err(m) => Err(m@),
    }
}

/// Settle one captured outcome into the command result: classify it, and
/// decode the standard output on the success path.
pub fn process_outcome(outcome: InvocationOutcome) -> (r: Result<StructuredValue, CommandError>)
    ensures
        models(r, spec_outcome_result(outcome@)),
{
    match classify(outcome) {
        Ok(stdout) => decode_payload(stdout),
        Err(e) => Err(e),
    }
}

/// Settle one whole invocation: the single decision path from the launch
/// attempt to the one value handed back across the system boundary. No state
/// survives the call, and no failure kind is ever retried.
pub fn settle(launch: Result<InvocationOutcome, String>) -> (r: Result<
    StructuredValue,
    CommandError,
>)
    ensures
        models(r, spec_settle(launch_model(launch))),
{
    match launch {
        Ok(outcome) => process_outcome(outcome),
        Err(detail) => Err(CommandError::LaunchFailure(detail)),
    }
}

/// A deterministic external step settles deterministically: two launch
/// attempts with identical captured results settle to identical command
/// results.
pub proof fn lemma_settle_deterministic(
    first: Result<OutcomeModel, Seq<char>>,
    second: Result<OutcomeModel, Seq<char>>,
)
    requires
        first == second,
    ensures
        spec_settle(first) == spec_settle(second),
{
}

/// A successful exit whose standard output decodes yields exactly the
/// decoded document, and nothing else.
pub proof fn lemma_success_yields_document(o: OutcomeModel)
    requires
        o.is_success(),
        decoded_document(lossy_text(o.stdout)) is Ok,
    ensures
        spec_settle(Ok(o)) == Ok::<StructuredValue, ErrorModel>(
            decoded_document(lossy_text(o.stdout))->Ok_0,
        ),
{
}

/// An unsuccessful exit is an execution failure whose detail is the captured
/// standard-error text verbatim, whatever the output streams held; its
/// rendered message is the fixed execution prefix followed by that text.
pub proof fn lemma_failure_reports_stderr(o: OutcomeModel)
    requires
        !o.is_success(),
    ensures
        spec_settle(Ok(o)) == Err::<StructuredValue, ErrorModel>(
            ErrorModel::Execution(lossy_text(o.stderr)),
        ),
        ErrorModel::Execution(lossy_text(o.stderr)).message_text() == spec_execution_prefix()
            + lossy_text(o.stderr),
{
}

/// Standard output that is no well-formed document settles to a decode
/// failure carrying the parser's diagnostic — never to a success — even
/// though the process itself exited successfully.
pub proof fn lemma_undecodable_output_never_ok(o: OutcomeModel)
    requires
        o.is_success(),
        decoded_document(lossy_text(o.stdout)) is Err,
    ensures
        spec_settle(Ok(o)) == Err::<StructuredValue, ErrorModel>(
            ErrorModel::Decode(decoded_document(lossy_text(o.stdout))->Err_0),
        ),
{
}

/// A launch that never started the process settles to a launch failure
/// carrying the system's description; no captured outcome exists, so neither
/// classification nor decoding takes place.
pub proof fn lemma_launch_failure_short_circuits(detail: Seq<char>)
    ensures
        spec_settle(Err(detail)) == Err::<StructuredValue, ErrorModel>(
            ErrorModel::Launch(detail),
        ),
{
}

} // verus!
