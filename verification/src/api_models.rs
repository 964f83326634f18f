//! Data model of the command-execution core: the request, the tagged
//! execution result, the wire-visible response, and the event vocabulary
//! through which the outer process layer reports what the child process did.

use vstd::prelude::*;
use vstd::string::StringExecFns;

verus! {

/// Result of a command that ran to completion (or was launched
/// fire-and-forget, in which case every field is a fixed sentinel).
#[derive(Debug, Clone, PartialEq, Eq)]
pub struct CommandResponse {
    pub stdout: String,
    pub stderr: String,
    pub exit_status: i32,
}

/// Result of a bounded wait whose deadline elapsed first: the process has
/// been forcibly terminated by the time this value exists.
#[derive(Debug, Clone, PartialEq, Eq)]
pub struct CommandTimedOut {
    pub time: i64,
    pub error_message: String,
    pub command_pid: u32,
}

/// The two non-error outcomes of one execution attempt.
#[derive(Debug, Clone, PartialEq, Eq)]
pub enum CommandExecutionResult {
    Response(CommandResponse),
    Timeout(CommandTimedOut),
}

/// A system-level failure: the process could not be spawned, or waiting on
/// it failed with an I/O error (distinct from a timeout).
#[derive(Debug, Clone, PartialEq, Eq)]
pub struct InternalApiError {
    pub error_message: String,
    pub error_code: i64,
}

/// The four wire-visible tags. `GenericError` is reserved for failures
/// outside command execution and is never produced by the engine itself.
#[derive(Debug, Clone, PartialEq, Eq)]
pub enum ApiResponse {
    CommandExecutionOk(CommandResponse),
    CommandExecutionTimeOut(CommandTimedOut),
    CommandSystemError(InternalApiError),
    GenericError(InternalApiError),
}

/// An execution request: a shell command and a timeout in whole seconds,
/// where `0` selects fire-and-forget mode.
#[derive(Debug, Clone, PartialEq, Eq)]
pub struct CommandRequest {
    pub cmd: String,
    pub timeout: u32,
}

/// The request envelope: a tagged value selecting an operation kind.
#[derive(Debug, Clone, PartialEq, Eq)]
pub enum ApiRequest {
    ExecCmd(CommandRequest),
}

/// What the outer process layer observed of the child process. Exactly one
/// event is reported per bounded-wait attempt; a fire-and-forget launch
/// reports none, since the child's lifetime is decoupled from the request.
#[derive(Debug, Clone, PartialEq, Eq)]
pub enum ProcessEvent {
    /// The process exited before the deadline; its output streams were
    /// captured in full as raw bytes. `exit_code` is `None` when the process
    /// was terminated abnormally and no code is available.
    Exited { stdout: Vec<u8>, stderr: Vec<u8>, exit_code: Option<i32> },
    /// The deadline elapsed first; the process (whose OS identifier was
    /// captured at spawn time) has been forcibly terminated.
    DeadlineElapsed { process_id: u32 },
    /// Waiting on the process failed with an I/O error that was not a
    /// timeout.
    WaitFailed { message: String },
    /// The process could not be spawned. `os_code` is the OS-provided error
    /// number, when the platform supplied one.
    SpawnFailed { message: String, os_code: Option<i32> },
}

/// The two execution modes a request can select.
#[derive(Debug, Clone, Copy, PartialEq, Eq, Structural)]
pub enum ExecutionMode {
    FireAndForget,
    BoundedWait,
}

/// The characters that a lenient UTF-8 decoding of `bytes` yields:
/// well-formed sequences decode as themselves and ill-formed ones are
/// replaced, so the result depends on the bytes alone.
pub uninterp spec fn utf8_lossy_of(bytes: Seq<u8>) -> Seq<char>;

/// Relies on `String::from_utf8_lossy`: the lenient decoding is a function
/// of the bytes alone, and no bytes decode to no characters.
#[verifier::external_body]
fn utf8_lossy(bytes: &Vec<u8>) -> (r: String)
    ensures
        r@ == utf8_lossy_of(bytes@),
        bytes@.len() == 0 ==> r@.len() == 0,
{
    String::from_utf8_lossy(bytes).into_owned()
}

/// The fixed explanatory message carried by every timeout result.
pub open spec fn timeout_message() -> Seq<char> {
    "Command didn't finish before timeout. It was killed"@
}

/// The exit status reported for a completed process: its exit code, or the
/// sentinel `-1` when the process terminated without one.
pub open spec fn reported_exit_status(exit_code: Option<i32>) -> int {
    match exit_code {
        Some(code) => code as int,
        None => -1,
    }
}

/// The error code reported for a spawn failure: the OS-provided number, or
/// the sentinel `-1` when the platform supplied none.
pub open spec fn reported_os_code(os_code: Option<i32>) -> int {
    match os_code {
        Some(code) => code as int,
        None => -1,
    }
}

/// Fields of a completed response, given the captured output bytes and the
/// exit code the process layer observed.
pub open spec fn completed_fields(
    c: CommandResponse,
    stdout: Seq<u8>,
    stderr: Seq<u8>,
    exit_code: Option<i32>,
) -> bool {
    &&& c.stdout@ == utf8_lossy_of(stdout)
    &&& c.stderr@ == utf8_lossy_of(stderr)
    &&& c.exit_status == reported_exit_status(exit_code)
}

/// Fields of a timeout result: the configured timeout, the fixed message,
/// and the identifier of the now-terminated process.
pub open spec fn timed_out_fields(t: CommandTimedOut, timeout: u32, pid: u32) -> bool {
    &&& t.time == timeout as i64
    &&& t.error_message@ == timeout_message()
    &&& t.command_pid == pid
}

/// Fields of the error produced when waiting on the process failed: the
/// underlying message behind a fixed prefix, and no meaningful code.
pub open spec fn wait_error_fields(e: InternalApiError, message: Seq<char>) -> bool {
    &&& e.error_message@ == "Process error: "@ + message
    &&& e.error_code == -1
}

/// Fields of the error produced when the process could not be spawned.
pub open spec fn spawn_error_fields(e: InternalApiError, message: Seq<char>, os_code: Option<i32>) -> bool {
    &&& e.error_message@ == message
    &&& e.error_code == reported_os_code(os_code)
}

/// The fixed result of a fire-and-forget launch: a completion with empty
/// output and a zero exit status, whatever becomes of the child process.
pub open spec fn is_empty_completion(r: CommandExecutionResult) -> bool {
    &&& r matches CommandExecutionResult::Response(c)
    &&& c.stdout@.len() == 0
    &&& c.stderr@.len() == 0
    &&& c.exit_status == 0
}

/// How a bounded wait turns the observed process event into its result:
/// exactly one variant fits each event, with every field pinned down.
pub open spec fn bounded_wait_result(
    req: CommandRequest,
    event: ProcessEvent,
    r: Result<CommandExecutionResult, InternalApiError>,
) -> bool {
    match event {
        ProcessEvent::Exited { stdout, stderr, exit_code } => {
            &&& r matches Ok(CommandExecutionResult::Response(c))
            &&& completed_fields(c, stdout@, stderr@, exit_code)
        },
        ProcessEvent::DeadlineElapsed { process_id } => {
            &&& r matches Ok(CommandExecutionResult::Timeout(t))
            &&& timed_out_fields(t, req.timeout, process_id)
        },
        ProcessEvent::WaitFailed { message } => {
            &&& r matches Err(e)
            &&& wait_error_fields(e, message@)
        },
        ProcessEvent::SpawnFailed { message, os_code } => {
            &&& r matches Err(e)
            &&& spawn_error_fields(e, message@, os_code)
        },
    }
}

impl CommandRequest {
    /// Mode dispatch: the mode is selected solely by the timeout field.
    pub fn mode(&self) -> (m: ExecutionMode)
        ensures
            m is FireAndForget <==> self.timeout == 0,
    {
        if self.timeout == 0 {
            ExecutionMode::FireAndForget
        } else {
            ExecutionMode::BoundedWait
        }
    }

    /// Fire-and-forget mode: the caller gets a fixed empty completion
    /// immediately, regardless of command content and of whether the spawn
    /// that the process layer schedules ultimately succeeds. This mode
    /// provides no confirmation of the underlying command, by design.
    pub fn execute_without_timeout(&self) -> (r: CommandExecutionResult)
        ensures
            is_empty_completion(r),
    {
        CommandExecutionResult::Response(CommandResponse {
            stdout: String::new(),
            stderr: String::new(),
            exit_status: 0,
        })
    }

    /// Bounded-wait mode: maps what the process layer observed to the one
    /// result that fits it — a completion carrying the leniently decoded
    /// output and the exit code, a timeout carrying the configured bound and
    /// the terminated process's identifier, or a system error.
    pub fn execute_with_timeout(&self, event: ProcessEvent) -> (r: Result<
        CommandExecutionResult,
        InternalApiError,
    >)
        requires
            self.timeout > 0,
        ensures
            bounded_wait_result(*self, event, r),
    {
        match event {
            ProcessEvent::Exited { stdout, stderr, exit_code } => {
                Ok(CommandExecutionResult::Response(CommandResponse {
                    stdout: utf8_lossy(&stdout),
                    stderr: utf8_lossy(&stderr),
                    exit_status: exit_code.unwrap_or(-1i32),
                }))
            },
            ProcessEvent::DeadlineElapsed { process_id } => {
                Ok(CommandExecutionResult::Timeout(CommandTimedOut {
                    time: self.timeout as i64,
                    error_message: String::from_str(
                        "Command didn't finish before timeout. It was killed",
                    ),
                    command_pid: process_id,
                }))
            },
            ProcessEvent::WaitFailed { message } => {
                Err(InternalApiError {
                    error_message: String::from_str("Process error: ").concat(message.as_str()),
                    error_code: -1i64,
                })
            },
            ProcessEvent::SpawnFailed { message, os_code } => {
                let code: i64 = match os_code {
                    Some(c) => c as i64,
                    None => -1i64,
                };
                Err(InternalApiError { error_message: message, error_code: code })
            },
        }
    }
}

} // verus!
