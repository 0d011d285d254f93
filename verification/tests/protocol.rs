use serde_json::Value;
use std::collections::VecDeque;
use zsh_sidecar::error::SidecarError;
use zsh_sidecar::message::{message_line, OutputStream};
use zsh_sidecar::session::{
    handle_wrapper_request, session_expects, step, Action, Event, ExitStatus, Session, Step,
};
use zsh_sidecar::wrapper::{
    run_exec_wrapper_mode, wrapper_mode_expects, wrapper_request_text, wrapper_response_line,
    WrapperAction, WrapperEvent, WrapperExecAction, WrapperExecRequest, WrapperExecResponse,
    WrapperMode,
};

const JSONRPC_VERSION: &str = "2.0";
const EXEC_START_REQUEST_ID: i64 = 2;
const ZSH_PATH: &str = "/bin/zsh";
const CWD: &str = "/work";

#[test]
fn exec_start_emits_multiple_subcommand_approvals_for_compound_command() {
    let mut harness = Harness::start();
    harness.initialize();
    harness.script_subcommands(2);
    harness.start_exec_with_command("/usr/bin/true && /usr/bin/true");

    let mut exec_start_acked = false;
    let mut intercepted_subcommand_callbacks = 0usize;
    let mut intercepted_true_callbacks = 0usize;
    let mut saw_exec_exited = false;
    let mut exit_code = None;

    while !saw_exec_exited {
        let value = harness.read_next_message();

        if let Some((id, reason, command)) = parse_approval_request(&value) {
            if reason == "zsh sidecar intercepted subcommand execve" {
                intercepted_subcommand_callbacks += 1;
                if command.first().is_some_and(|c| c == "/usr/bin/true") {
                    intercepted_true_callbacks += 1;
                }
            }
            harness.respond_approval(&id, "approved");
            continue;
        }

        if is_success(&value, EXEC_START_REQUEST_ID) {
            exec_start_acked = true;
            continue;
        }

        if method_of(&value) == Some("zsh/event/execExited") {
            saw_exec_exited = true;
            exit_code = exit_code_of(&value);
        }
    }

    harness.shutdown();

    assert!(exec_start_acked, "expected execStart success response");
    assert_eq!(exit_code, Some(0), "expected successful command exit");
    assert!(
        intercepted_subcommand_callbacks >= 2,
        "expected at least two intercepted subcommand approvals, got {intercepted_subcommand_callbacks}"
    );
    assert!(
        intercepted_true_callbacks >= 2,
        "expected at least two intercepted /usr/bin/true approvals, got {intercepted_true_callbacks}"
    );
}

#[test]
fn exec_start_returns_error_when_host_denies_initial_approval() {
    refused_initial_approval("denied", "denied");
}

#[test]
fn exec_start_returns_error_when_host_aborts_initial_approval() {
    refused_initial_approval("abort", "aborted");
}

fn refused_initial_approval(decision: &str, word: &str) {
    let mut harness = Harness::start();
    harness.initialize();
    harness.start_exec_with_command("/usr/bin/true && /usr/bin/true");

    let mut saw_exec_started = false;
    let mut saw_exec_start_error = false;

    while !saw_exec_start_error {
        let value = harness.read_next_message();
        if let Some((id, _reason, _command)) = parse_approval_request(&value) {
            harness.respond_approval(&id, decision);
            continue;
        }

        if method_of(&value) == Some("zsh/event/execStarted") {
            saw_exec_started = true;
        }

        if value.get("id").and_then(Value::as_i64) == Some(EXEC_START_REQUEST_ID)
            && value.get("error").is_some()
        {
            let error_message = value
                .pointer("/error/message")
                .and_then(Value::as_str)
                .unwrap_or_default();
            assert!(
                error_message.contains(word),
                "expected {word} error message, got: {error_message}"
            );
            saw_exec_start_error = true;
        }
    }

    harness.shutdown();
    assert!(!saw_exec_started, "exec should not start when it is refused");
}

#[test]
fn exec_start_accepts_approved_for_session_initial_approval() {
    granted_initial_approval("approved_for_session");
}

#[test]
fn exec_start_accepts_approved_execpolicy_amendment_initial_approval() {
    granted_initial_approval("approved_execpolicy_amendment");
}

fn granted_initial_approval(decision: &str) {
    let mut harness = Harness::start();
    harness.initialize();
    harness.script_subcommands(1);
    harness.start_exec_with_command("/usr/bin/true");

    let mut saw_exec_start_success = false;
    let mut saw_exec_exited = false;
    let mut exit_code = None;

    while !saw_exec_exited {
        let value = harness.read_next_message();
        if let Some((id, _reason, _command)) = parse_approval_request(&value) {
            harness.respond_approval(&id, decision);
            continue;
        }

        if is_success(&value, EXEC_START_REQUEST_ID) {
            saw_exec_start_success = true;
            continue;
        }

        if method_of(&value) == Some("zsh/event/execExited") {
            saw_exec_exited = true;
            exit_code = exit_code_of(&value);
        }
    }

    harness.shutdown();

    assert!(saw_exec_start_success, "expected execStart success with {decision}");
    assert_eq!(exit_code, Some(0), "expected successful command exit");
}

#[test]
fn mixed_approval_decisions_fail_after_second_subcommand() {
    let mut harness = Harness::start();
    harness.initialize();
    harness.script_subcommands(2);
    harness.start_exec_with_command("/usr/bin/true && /usr/bin/true");

    let mut subcommand_callbacks = 0usize;
    let mut saw_exec_start_success = false;
    let mut saw_exec_exited = false;
    let mut exit_code = None;

    while !saw_exec_exited {
        let value = harness.read_next_message();

        if let Some((id, reason, _command)) = parse_approval_request(&value) {
            if reason == "zsh sidecar intercepted subcommand execve" {
                subcommand_callbacks += 1;
                if subcommand_callbacks == 2 {
                    harness.respond_approval(&id, "denied");
                } else {
                    harness.respond_approval(&id, "approved");
                }
            } else {
                harness.respond_approval(&id, "approved");
            }
            continue;
        }

        if is_success(&value, EXEC_START_REQUEST_ID) {
            saw_exec_start_success = true;
            continue;
        }

        if method_of(&value) == Some("zsh/event/execExited") {
            saw_exec_exited = true;
            exit_code = exit_code_of(&value);
        }
    }

    harness.shutdown();

    assert!(saw_exec_start_success, "expected execStart success response");
    assert!(
        subcommand_callbacks >= 2,
        "expected at least two subcommand callbacks before exit, got {subcommand_callbacks}"
    );
    assert_ne!(
        exit_code,
        Some(0),
        "denying the second subcommand should cause non-zero exit"
    );
}

#[test]
fn approval_callback_ignores_unexpected_response_id() {
    let mut harness = Harness::start();
    harness.initialize();
    harness.script_subcommands(2);
    harness.start_exec_with_command("/usr/bin/true && /usr/bin/true");

    let mut sent_wrong_id_once = false;
    let mut saw_exec_start_success = false;
    let mut saw_exec_exited = false;
    let mut exit_code = None;

    while !saw_exec_exited {
        let value = harness.read_next_message();
        if let Some((id, _reason, _command)) = parse_approval_request(&value) {
            if !sent_wrong_id_once {
                harness.respond_approval(
                    &Value::String("definitely-wrong-id".to_string()),
                    "approved",
                );
                sent_wrong_id_once = true;
            }
            harness.respond_approval(&id, "approved");
            continue;
        }

        if is_success(&value, EXEC_START_REQUEST_ID) {
            saw_exec_start_success = true;
            continue;
        }

        if method_of(&value) == Some("zsh/event/execExited") {
            saw_exec_exited = true;
            exit_code = exit_code_of(&value);
        }
    }

    harness.shutdown();

    assert!(sent_wrong_id_once, "expected wrong-id response to be sent");
    assert!(
        saw_exec_start_success,
        "expected execStart success despite wrong callback id response"
    );
    assert_eq!(exit_code, Some(0), "expected successful command exit");
}

#[test]
fn malformed_approval_response_terminates_sidecar() {
    let mut harness = Harness::start();
    harness.initialize();
    harness.start_exec_with_command("/usr/bin/true && /usr/bin/true");

    loop {
        let value = harness.read_next_message();
        if let Some((id, _reason, _command)) = parse_approval_request(&value) {
            harness.write_line(format!(
                "{{\"jsonrpc\":\"{JSONRPC_VERSION}\",\"id\":{id},\"result\":{{}}}}"
            ));
            break;
        }
    }

    let failure = harness.failure.expect("sidecar should fail fast on malformed callback response");
    assert_eq!(failure.message(), "parse approval callback result");
    assert_eq!(failure.cause().as_deref(), Some("missing field `decision`"));
}

#[test]
fn returns_jsonrpc_error_for_unknown_method() {
    let mut harness = Harness::start();
    harness.initialize();
    harness.write_line(format!(
        "{{\"jsonrpc\":\"{JSONRPC_VERSION}\",\"id\":55,\"method\":\"zsh/notRealMethod\",\"params\":{{}}}}"
    ));
    let response = harness.wait_for_response(55);
    assert_eq!(response.pointer("/error/code"), Some(&Value::from(-32601)));

    harness.shutdown();
}

#[test]
fn returns_jsonrpc_invalid_params_for_exec_start_with_empty_command() {
    let mut harness = Harness::start();
    harness.initialize();
    harness.write_line(format!(
        "{{\"jsonrpc\":\"{JSONRPC_VERSION}\",\"id\":{EXEC_START_REQUEST_ID},\"method\":\"zsh/execStart\",\"params\":{{\"execId\":\"exec-invalid\",\"command\":[],\"cwd\":\"{CWD}\",\"env\":{{}}}}}}"
    ));
    let response = harness.wait_for_response(EXEC_START_REQUEST_ID);
    assert_eq!(response.pointer("/error/code"), Some(&Value::from(-32602)));

    harness.shutdown();
}

#[test]
fn exec_events_are_ordered_exec_started_before_output_and_single_exit() {
    let mut harness = Harness::start();
    harness.initialize();
    harness.script_subcommands(1);
    harness.output.push_back((OutputStream::Stdout, b"hi\n".to_vec()));
    harness.start_exec_with_command("/usr/bin/printf 'hi\\\\n'");

    let mut saw_exec_started = false;
    let mut saw_output_before_started = false;
    let mut exec_exited_count = 0usize;
    let mut saw_exec_start_success = false;

    while exec_exited_count == 0 {
        let value = harness.read_next_message();
        if let Some((id, _reason, _command)) = parse_approval_request(&value) {
            harness.respond_approval(&id, "approved");
            continue;
        }

        match method_of(&value) {
            Some("zsh/event/execStarted") => {
                saw_exec_started = true;
            }
            Some("zsh/event/execStdout") | Some("zsh/event/execStderr") => {
                if !saw_exec_started {
                    saw_output_before_started = true;
                }
            }
            Some("zsh/event/execExited") => {
                exec_exited_count += 1;
            }
            _ => {}
        }

        if is_success(&value, EXEC_START_REQUEST_ID) {
            saw_exec_start_success = true;
        }
    }

    for _ in 0..4 {
        let Some(value) = harness.said.pop_front() else {
            break;
        };
        if method_of(&value) == Some("zsh/event/execExited") {
            exec_exited_count += 1;
        }
    }

    harness.shutdown();

    assert!(saw_exec_start_success, "expected execStart success response");
    assert!(saw_exec_started, "expected execStarted event");
    assert!(!saw_output_before_started, "saw output before execStarted");
    assert_eq!(exec_exited_count, 1, "expected one execExited event");
}

#[test]
fn exec_interrupt_returns_unknown_exec_id_error_in_phase1() {
    let mut harness = Harness::start();
    harness.initialize();
    harness.write_line(format!(
        "{{\"jsonrpc\":\"{JSONRPC_VERSION}\",\"id\":77,\"method\":\"zsh/execInterrupt\",\"params\":{{\"execId\":\"exec-does-not-exist\"}}}}"
    ));
    let response = harness.wait_for_response(77);
    assert_eq!(response.pointer("/error/code"), Some(&Value::from(-32002)));

    harness.shutdown();
}

#[test]
fn exec_stdin_and_resize_return_not_supported_error_in_phase1() {
    let mut harness = Harness::start();
    harness.initialize();
    harness.write_line(format!(
        "{{\"jsonrpc\":\"{JSONRPC_VERSION}\",\"id\":78,\"method\":\"zsh/execStdin\",\"params\":{{\"execId\":\"exec-does-not-exist\",\"chunkBase64\":\"aGk=\"}}}}"
    ));
    let stdin_response = harness.wait_for_response(78);
    assert_eq!(stdin_response.pointer("/error/code"), Some(&Value::from(-32004)));

    harness.write_line(format!(
        "{{\"jsonrpc\":\"{JSONRPC_VERSION}\",\"id\":79,\"method\":\"zsh/execResize\",\"params\":{{\"execId\":\"exec-does-not-exist\",\"cols\":80,\"rows\":24}}}}"
    ));
    let resize_response = harness.wait_for_response(79);
    assert_eq!(resize_response.pointer("/error/code"), Some(&Value::from(-32004)));

    harness.shutdown();
}

#[test]
fn wrapper_mode_with_invalid_socket_fails_fast() {
    let socket_path = "/tmp/definitely-not-a-real-codex-zsh-wrapper.sock";
    let (mode, action) = wrapper_step(
        WrapperMode::Starting,
        WrapperEvent::Invoked {
            args: vec!["codex-zsh-sidecar".to_string(), "/usr/bin/true".to_string()],
            unix: true,
        },
    )
    .expect("a target was given");
    assert!(matches!(action, WrapperAction::Locate));
    let (mode, action) = wrapper_step(
        mode,
        WrapperEvent::Located {
            cwd: CWD.to_string(),
            socket_path: Ok(socket_path.to_string()),
        },
    )
    .expect("a socket path was given");
    assert!(matches!(action, WrapperAction::Connect { socket_path: path } if path == socket_path));
    let failure = wrapper_step(
        mode,
        WrapperEvent::ConnectFailed("No such file or directory (os error 2)".to_string()),
    )
    .err()
    .expect("wrapper mode should fail when socket path is invalid");
    let text = failure.message();
    assert!(
        text.contains("wrapper socket"),
        "expected wrapper socket failure message, got: {text}"
    );
}

struct Harness {
    session: Option<Session>,
    said: VecDeque<Value>,
    failure: Option<SidecarError>,
    exited: bool,
    subcommands: usize,
    output: VecDeque<(OutputStream, Vec<u8>)>,
    asking: Option<WrapperMode>,
    exit_code: i32,
    ended: bool,
}

impl Harness {
    fn start() -> Harness {
        Harness {
            session: Some(Session::Idle),
            said: VecDeque::new(),
            failure: None,
            exited: false,
            subcommands: 0,
            output: VecDeque::new(),
            asking: None,
            exit_code: 0,
            ended: false,
        }
    }

    fn script_subcommands(&mut self, count: usize) {
        self.subcommands = count;
    }

    fn initialize(&mut self) {
        self.write_line(format!(
            "{{\"jsonrpc\":\"{JSONRPC_VERSION}\",\"id\":1,\"method\":\"zsh/initialize\",\"params\":{{\"sessionId\":\"test-session\"}}}}"
        ));
        self.wait_for_response(1);
    }

    fn start_exec_with_command(&mut self, shell_command: &str) {
        self.write_line(format!(
            "{{\"jsonrpc\":\"{JSONRPC_VERSION}\",\"id\":{EXEC_START_REQUEST_ID},\"method\":\"zsh/execStart\",\"params\":{{\"execId\":\"exec-test-1\",\"command\":[\"{ZSH_PATH}\",\"-fc\",\"{shell_command}\"],\"cwd\":\"{CWD}\",\"env\":{{}}}}}}"
        ));
    }

    fn respond_approval(&mut self, id: &Value, decision: &str) {
        self.write_line(format!(
            "{{\"jsonrpc\":\"{JSONRPC_VERSION}\",\"id\":{id},\"result\":{{\"decision\":\"{decision}\"}}}}"
        ));
    }

    fn shutdown(&mut self) {
        self.write_line(format!(
            "{{\"jsonrpc\":\"{JSONRPC_VERSION}\",\"id\":3,\"method\":\"zsh/shutdown\",\"params\":{{\"graceMs\":100}}}}"
        ));
        self.wait_for_response(3);
        assert!(self.exited, "sidecar should exit cleanly");
    }

    fn read_next_message(&mut self) -> Value {
        self.said.pop_front().expect("sidecar has nothing more to say")
    }

    fn wait_for_response(&mut self, id: i64) -> Value {
        loop {
            let value = self.read_next_message();
            if value.get("id").and_then(Value::as_i64) == Some(id) {
                return value;
            }
        }
    }

    fn write_line(&mut self, line: String) {
        self.happen(Event::Line(line));
    }

    fn happen(&mut self, event: Event) {
        let session = self.session.take().expect("sidecar has given up");
        assert!(session_expects(&session, &event));
        let result = step(session, event);
        self.carry_out(result);
    }

    fn carry_out(&mut self, result: Result<Step, SidecarError>) {
        let step = match result {
            Ok(step) => step,
            Err(error) => {
                self.failure = Some(error);
                return;
            }
        };
        for message in &step.messages {
            let line = message_line(message);
            assert!(line.ends_with('\n'));
            self.said.push_back(serde_json::from_str(&line).expect("a JSON line"));
        }
        self.session = Some(step.session);
        match step.action {
            Action::Read => {}
            Action::Exit => self.exited = true,
            Action::Launch(plan) => {
                assert_eq!(plan.program, ZSH_PATH);
                assert_eq!(plan.cwd, CWD);
                self.happen(Event::Spawned);
            }
            Action::Serve => self.serve(),
            Action::Answer(response) => {
                let line = wrapper_response_line(&response);
                let mode = self.asking.take().expect("a wrapper asks");
                let answer = Ok(parse_response(&line));
                match wrapper_step(mode, WrapperEvent::Answered(answer)).expect("an answer").1 {
                    WrapperAction::Run { program, args } => {
                        assert_eq!(program, "/usr/bin/true");
                        assert_eq!(args, Vec::<String>::new());
                    }
                    WrapperAction::Refuse { code, .. } => {
                        self.exit_code = code;
                        self.subcommands = 0;
                    }
                    other => panic!("unexpected {other:?}"),
                }
                self.serve();
            }
            Action::Release => self.happen(Event::Released),
        }
    }

    fn serve(&mut self) {
        if self.subcommands > 0 {
            self.subcommands -= 1;
            let request = self.intercept();
            let session = self.session.take().expect("sidecar has given up");
            let result = handle_wrapper_request(session, Ok(request));
            self.carry_out(result);
        } else if let Some((stream, chunk)) = self.output.pop_front() {
            self.happen(Event::Output { stream, chunk });
        } else if !self.ended {
            self.ended = true;
            self.happen(Event::Exited(ExitStatus { code: Some(self.exit_code), signal: None }));
        } else {
            self.happen(Event::OutputClosed);
        }
    }

    fn intercept(&mut self) -> WrapperExecRequest {
        let args = vec!["codex-zsh-sidecar".to_string(), "/usr/bin/true".to_string()];
        let (mode, _) =
            wrapper_step(WrapperMode::Starting, WrapperEvent::Invoked { args, unix: true })
                .expect("a target was given");
        let (mode, _) = wrapper_step(
            mode,
            WrapperEvent::Located {
                cwd: CWD.to_string(),
                socket_path: Ok("/tmp/czs-test.sock".to_string()),
            },
        )
        .expect("a socket path was given");
        let (mode, action) = wrapper_step(mode, WrapperEvent::Connected).expect("connected");
        self.asking = Some(mode);
        match action {
            WrapperAction::Ask { line } => parse_request(&line),
            other => panic!("unexpected {other:?}"),
        }
    }
}

fn wrapper_step(
    mode: WrapperMode,
    event: WrapperEvent,
) -> Result<(WrapperMode, WrapperAction), SidecarError> {
    assert!(wrapper_mode_expects(&mode, &event));
    run_exec_wrapper_mode(mode, event)
}

fn parse_request(line: &str) -> WrapperExecRequest {
    let text = wrapper_request_text(line.as_bytes().to_vec()).expect("UTF-8");
    let value: Value = serde_json::from_str(&text).expect("JSON");
    WrapperExecRequest {
        file: text_at(&value, "/file"),
        argv: texts_at(&value, "/argv"),
        cwd: text_at(&value, "/cwd"),
    }
}

fn parse_response(line: &str) -> WrapperExecResponse {
    let value: Value = serde_json::from_str(line.trim()).expect("JSON");
    WrapperExecResponse {
        action: match text_at(&value, "/action").as_str() {
            "run" => WrapperExecAction::Run,
            "deny" => WrapperExecAction::Deny,
            other => panic!("unexpected {other}"),
        },
        reason: value.pointer("/reason").and_then(Value::as_str).map(ToString::to_string),
    }
}

fn parse_approval_request(value: &Value) -> Option<(Value, String, Vec<String>)> {
    if method_of(value) != Some("zsh/requestApproval") {
        return None;
    }
    let id = value.get("id")?.clone();
    Some((id, text_at(value, "/params/reason"), texts_at(value, "/params/command")))
}

fn text_at(value: &Value, pointer: &str) -> String {
    value.pointer(pointer).and_then(Value::as_str).unwrap_or_default().to_string()
}

fn texts_at(value: &Value, pointer: &str) -> Vec<String> {
    value
        .pointer(pointer)
        .and_then(Value::as_array)
        .map(|items| items.iter().filter_map(Value::as_str).map(ToString::to_string).collect())
        .unwrap_or_default()
}

fn method_of(value: &Value) -> Option<&str> {
    value.get("method").and_then(Value::as_str)
}

fn is_success(value: &Value, id: i64) -> bool {
    value.get("id").and_then(Value::as_i64) == Some(id) && value.get("result").is_some()
}

fn exit_code_of(value: &Value) -> Option<i32> {
    value.pointer("/params/exitCode").and_then(Value::as_i64).map(|code| code as i32)
}
