use command_exec::api_actions::{to_api_response, ProcessApiRequest};
use command_exec::api_models::{
    ApiResponse, CommandExecutionResult, CommandRequest, CommandResponse, ExecutionMode,
    InternalApiError, ProcessEvent,
};

const TIMEOUT_MESSAGE: &str = "Command didn't finish before timeout. It was killed";

fn request(cmd: &str, timeout: u32) -> CommandRequest {
    CommandRequest { cmd: cmd.to_string(), timeout }
}

#[test]
fn mode_dispatch_zero_is_fire_and_forget() {
    assert_eq!(request("true", 0).mode(), ExecutionMode::FireAndForget);
    assert_eq!(request("true", 1).mode(), ExecutionMode::BoundedWait);
    assert_eq!(request("true", u32::MAX).mode(), ExecutionMode::BoundedWait);
}

#[test]
fn fire_and_forget_returns_empty_completion() {
    let r = request("some-command --with args", 0).execute_without_timeout();
    match r {
        CommandExecutionResult::Response(c) => {
            assert_eq!(c.stdout, "");
            assert_eq!(c.stderr, "");
            assert_eq!(c.exit_status, 0);
        }
        other => panic!("expected a completion, got {:?}", other),
    }
}

#[test]
fn scenario_echo_hello_completes() {
    let req = request("echo hello", 5);
    let event = ProcessEvent::Exited {
        stdout: b"hello\n".to_vec(),
        stderr: Vec::new(),
        exit_code: Some(0),
    };
    match req.process(Some(event)) {
        ApiResponse::CommandExecutionOk(c) => {
            assert_eq!(c.stdout, "hello\n");
            assert_eq!(c.stderr, "");
            assert_eq!(c.exit_status, 0);
        }
        other => panic!("expected the completion tag, got {:?}", other),
    }
}

#[test]
fn scenario_sleep_times_out() {
    let req = request("sleep 10", 1);
    let event = ProcessEvent::DeadlineElapsed { process_id: 4242 };
    match req.process(Some(event)) {
        ApiResponse::CommandExecutionTimeOut(t) => {
            assert_eq!(t.time, 1);
            assert_eq!(t.error_message, TIMEOUT_MESSAGE);
            assert_eq!(t.command_pid, 4242);
        }
        other => panic!("expected the timeout tag, got {:?}", other),
    }
}

#[test]
fn scenario_exit_seven_is_reported_as_completion() {
    let req = request("exit 7", 5);
    let event = ProcessEvent::Exited {
        stdout: Vec::new(),
        stderr: Vec::new(),
        exit_code: Some(7),
    };
    match req.process(Some(event)) {
        ApiResponse::CommandExecutionOk(c) => {
            assert_eq!(c.exit_status, 7);
            assert_eq!(c.stdout, "");
            assert_eq!(c.stderr, "");
        }
        other => panic!("expected the completion tag, got {:?}", other),
    }
}

#[test]
fn scenario_fire_and_forget_ignores_command_fate() {
    let req = request("rm -rf /tmp/whatever", 0);
    match req.process(None) {
        ApiResponse::CommandExecutionOk(c) => {
            assert_eq!(c.stdout, "");
            assert_eq!(c.stderr, "");
            assert_eq!(c.exit_status, 0);
        }
        other => panic!("expected the completion tag, got {:?}", other),
    }
}

#[test]
fn scenario_spawn_failure_is_a_command_system_error() {
    let req = request("echo hello", 5);
    let event = ProcessEvent::SpawnFailed {
        message: "No such file or directory (os error 2)".to_string(),
        os_code: Some(2),
    };
    match req.process(Some(event)) {
        ApiResponse::CommandSystemError(e) => {
            assert!(!e.error_message.is_empty());
            assert_eq!(e.error_message, "No such file or directory (os error 2)");
            assert_eq!(e.error_code, 2);
        }
        other => panic!("expected the command-system-error tag, got {:?}", other),
    }
}

#[test]
fn spawn_failure_without_os_code_uses_sentinel() {
    let req = request("true", 3);
    let event = ProcessEvent::SpawnFailed {
        message: "spawn refused".to_string(),
        os_code: None,
    };
    match req.process(Some(event)) {
        ApiResponse::CommandSystemError(e) => {
            assert_eq!(e.error_message, "spawn refused");
            assert_eq!(e.error_code, -1);
        }
        other => panic!("expected the command-system-error tag, got {:?}", other),
    }
}

#[test]
fn wait_failure_carries_prefixed_message_and_sentinel_code() {
    let req = request("true", 3);
    let event = ProcessEvent::WaitFailed {
        message: "broken pipe".to_string(),
    };
    match req.process(Some(event)) {
        ApiResponse::CommandSystemError(e) => {
            assert_eq!(e.error_message, "Process error: broken pipe");
            assert_eq!(e.error_code, -1);
        }
        other => panic!("expected the command-system-error tag, got {:?}", other),
    }
}

#[test]
fn abnormal_termination_reports_sentinel_exit_status() {
    let req = request("kill -9 $$", 5);
    let event = ProcessEvent::Exited {
        stdout: Vec::new(),
        stderr: Vec::new(),
        exit_code: None,
    };
    match req.process(Some(event)) {
        ApiResponse::CommandExecutionOk(c) => assert_eq!(c.exit_status, -1),
        other => panic!("expected the completion tag, got {:?}", other),
    }
}

#[test]
fn output_is_decoded_leniently() {
    let req = request("printf", 2);
    let event = ProcessEvent::Exited {
        stdout: vec![0xff, b'h', b'i'],
        stderr: vec![0xc3, 0x28],
        exit_code: Some(0),
    };
    match req.process(Some(event)) {
        ApiResponse::CommandExecutionOk(c) => {
            assert_eq!(c.stdout, "\u{FFFD}hi");
            assert_eq!(c.stderr, "\u{FFFD}(");
        }
        other => panic!("expected the completion tag, got {:?}", other),
    }
}

#[test]
fn valid_utf8_output_decodes_to_itself() {
    let req = request("echo", 2);
    let event = ProcessEvent::Exited {
        stdout: "héllo wörld\n".as_bytes().to_vec(),
        stderr: b"warning: nothing\n".to_vec(),
        exit_code: Some(0),
    };
    match req.process(Some(event)) {
        ApiResponse::CommandExecutionOk(c) => {
            assert_eq!(c.stdout, "héllo wörld\n");
            assert_eq!(c.stderr, "warning: nothing\n");
        }
        other => panic!("expected the completion tag, got {:?}", other),
    }
}

#[test]
fn mapping_same_outcome_yields_same_response() {
    let completion = || {
        Ok(CommandExecutionResult::Response(CommandResponse {
            stdout: "out".to_string(),
            stderr: "err".to_string(),
            exit_status: 3,
        }))
    };
    assert_eq!(to_api_response(completion()), to_api_response(completion()));

    let failure = || {
        Err(InternalApiError {
            error_message: "boom".to_string(),
            error_code: 11,
        })
    };
    assert_eq!(to_api_response(failure()), to_api_response(failure()));
}

#[test]
fn mapping_assigns_each_outcome_exactly_one_tag() {
    let ok = Ok(CommandExecutionResult::Response(CommandResponse {
        stdout: String::new(),
        stderr: String::new(),
        exit_status: 0,
    }));
    assert!(matches!(
        to_api_response(ok),
        ApiResponse::CommandExecutionOk(_)
    ));

    let timed_out = Ok(CommandExecutionResult::Timeout(
        command_exec::api_models::CommandTimedOut {
            time: 9,
            error_message: TIMEOUT_MESSAGE.to_string(),
            command_pid: 1,
        },
    ));
    assert!(matches!(
        to_api_response(timed_out),
        ApiResponse::CommandExecutionTimeOut(_)
    ));

    let failed = Err(InternalApiError {
        error_message: "cannot spawn".to_string(),
        error_code: 2,
    });
    assert!(matches!(
        to_api_response(failed),
        ApiResponse::CommandSystemError(_)
    ));
}
