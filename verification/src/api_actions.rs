//! Processing of a request: mode dispatch, execution of the selected mode,
//! and the total mapping of every engine outcome to exactly one of the four
//! wire-visible response tags.

use vstd::prelude::*;
use crate::api_models::{
    ApiResponse, CommandExecutionResult, CommandRequest, ExecutionMode, InternalApiError,
    ProcessEvent,
};
use crate::api_models::{
    bounded_wait_result, completed_fields, spawn_error_fields, timed_out_fields, wait_error_fields,
};

verus! {

/// The outcome-to-response mapping: a completion gets the completion tag, a
/// timeout the timeout tag, and an engine failure the command-system-error
/// tag. The reserved generic-error tag has no producer here.
pub open spec fn response_of(outcome: Result<CommandExecutionResult, InternalApiError>) -> ApiResponse {
    match outcome {
        Ok(CommandExecutionResult::Response(c)) => ApiResponse::CommandExecutionOk(c),
        Ok(CommandExecutionResult::Timeout(t)) => ApiResponse::CommandExecutionTimeOut(t),
        Err(e) => ApiResponse::CommandSystemError(e),
    }
}

/// Maps an engine outcome to its wire-visible response, exactly as
/// [`response_of`] states.
pub fn to_api_response(outcome: Result<CommandExecutionResult, InternalApiError>) -> (r:
    ApiResponse)
    ensures
        r == response_of(outcome),
{
    match outcome {
        Ok(CommandExecutionResult::Response(c)) => ApiResponse::CommandExecutionOk(c),
        Ok(CommandExecutionResult::Timeout(t)) => ApiResponse::CommandExecutionTimeOut(t),
        Err(e) => ApiResponse::CommandSystemError(e),
    }
}

/// The mapping is idempotent in the sense of a pure function: applying it to
/// the same engine outcome always yields the same tagged response.
pub proof fn lemma_response_mapping_deterministic(
    a: Result<CommandExecutionResult, InternalApiError>,
    b: Result<CommandExecutionResult, InternalApiError>,
)
    requires
        a == b,
    ensures
        response_of(a) == response_of(b),
{
}

/// The mapping is total and exhaustive: every engine outcome corresponds to
/// exactly one tag, with no fall-through, and the reserved generic-error tag
/// is never produced.
pub proof fn lemma_response_mapping_exhaustive(
    outcome: Result<CommandExecutionResult, InternalApiError>,
)
    ensures
        (outcome matches Ok(x) && x is Response) <==> response_of(outcome) is CommandExecutionOk,
        (outcome matches Ok(x) && x is Timeout) <==> response_of(outcome) is CommandExecutionTimeOut,
        outcome is Err <==> response_of(outcome) is CommandSystemError,
        !(response_of(outcome) is GenericError),
{
}

/// How a bounded wait answers the observed process event on the wire:
/// the composition of the bounded-wait contract with the outcome mapping,
/// with every field of the response pinned down.
pub open spec fn bounded_wait_response(req: CommandRequest, event: ProcessEvent, r: ApiResponse) -> bool {
    match event {
        ProcessEvent::Exited { stdout, stderr, exit_code } => {
            &&& r matches ApiResponse::CommandExecutionOk(c)
            &&& completed_fields(c, stdout@, stderr@, exit_code)
        },
        ProcessEvent::DeadlineElapsed { process_id } => {
            &&& r matches ApiResponse::CommandExecutionTimeOut(t)
            &&& timed_out_fields(t, req.timeout, process_id)
        },
        ProcessEvent::WaitFailed { message } => {
            &&& r matches ApiResponse::CommandSystemError(e)
            &&& wait_error_fields(e, message@)
        },
        ProcessEvent::SpawnFailed { message, os_code } => {
            &&& r matches ApiResponse::CommandSystemError(e)
            &&& spawn_error_fields(e, message@, os_code)
        },
    }
}

/// Mapping a bounded-wait outcome to the wire yields exactly the response
/// that [`bounded_wait_response`] assigns to the event.
pub proof fn lemma_bounded_wait_response(
    req: CommandRequest,
    event: ProcessEvent,
    outcome: Result<CommandExecutionResult, InternalApiError>,
)
    requires
        bounded_wait_result(req, event, outcome),
    ensures
        bounded_wait_response(req, event, response_of(outcome)),
{
}

/// An operation on a parsed request that yields a serializable response. The
/// process layer hands in the event it observed of the child process: `None`
/// for a fire-and-forget launch, `Some` for a bounded wait.
pub trait ProcessApiRequest {
    /// What the processing demands of the event handed in.
    spec fn process_requires(&self, event: Option<ProcessEvent>) -> bool;

    /// What the produced response states about the request and the event.
    spec fn process_ensures(&self, event: Option<ProcessEvent>, r: ApiResponse) -> bool;

    /// Turns the request and the observed event into the one wire-visible
    /// response that fits them.
    fn process(&self, event: Option<ProcessEvent>) -> (r: ApiResponse)
        requires
            self.process_requires(event),
        ensures
            self.process_ensures(event, r),
    ;
}

impl ProcessApiRequest for CommandRequest {
    /// A bounded wait reports exactly one event; fire-and-forget reports
    /// none, and whatever is handed in is ignored.
    open spec fn process_requires(&self, event: Option<ProcessEvent>) -> bool {
        self.timeout > 0 ==> event is Some
    }

    /// With a zero timeout the response is always the empty completion,
    /// regardless of command content; with a positive timeout it is the
    /// response that the bounded-wait contract and the outcome mapping
    /// assign to the observed event.
    open spec fn process_ensures(&self, event: Option<ProcessEvent>, r: ApiResponse) -> bool {
        &&& self.timeout == 0 ==> (r matches ApiResponse::CommandExecutionOk(c) && c.stdout@.len()
            == 0 && c.stderr@.len() == 0 && c.exit_status == 0)
        &&& self.timeout > 0 ==> (event matches Some(e) && bounded_wait_response(*self, e, r))
    }

    fn process(&self, event: Option<ProcessEvent>) -> (r: ApiResponse) {
        match self.mode() {
            ExecutionMode::FireAndForget => to_api_response(Ok(self.execute_without_timeout())),
            ExecutionMode::BoundedWait => match event {
                Some(e) => {
                    let ghost g_event = e;
                    let outcome = self.execute_with_timeout(e);
                    proof {
                        lemma_bounded_wait_response(*self, g_event, outcome);
                    }
                    to_api_response(outcome)
                },
                None => vstd::pervasive::unreached(),
            },
        }
    }
}

} // verus!
