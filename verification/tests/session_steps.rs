use zsh_sidecar::approval::{read_reading, ApprovalDecision};
use zsh_sidecar::error::SidecarError;
use zsh_sidecar::json::parse_json;
use zsh_sidecar::message::{message_line, OutputStream};
use zsh_sidecar::params::JsonRpcId;
use zsh_sidecar::session::{
    decide, handle_wrapper_request, receive, receive_reading, session_expects, step, take_reply,
    Action, Event, ExitStatus, LaunchPlan, Notice, Session, Step,
};
use zsh_sidecar::wrapper::{WrapperExecAction, WrapperExecRequest};

fn lines(step: &Step) -> Vec<String> {
    step.messages.iter().map(message_line).collect()
}

fn line(session: Session, text: &str) -> Result<Step, SidecarError> {
    happen(session, Event::Line(text.to_string()))
}

fn happen(session: Session, event: Event) -> Result<Step, SidecarError> {
    assert!(session_expects(&session, &event));
    step(session, event)
}

fn idle_line(text: &str) -> Step {
    line(Session::Idle, text).expect("an idle session never gives up")
}

const START: &str = r#"{"jsonrpc":"2.0","id":"r-1","method":"zsh/execStart","params":{"execId":"e1","command":["/bin/zsh","-c","ls"],"cwd":"/tmp","env":{"A":"1","B":"2"}}}"#;

fn awaiting() -> Session {
    let step = idle_line(START);
    assert!(matches!(step.session, Session::AwaitingExecApproval { .. }));
    step.session
}

fn launching() -> Session {
    let step = line(awaiting(), r#"{"id":"approval-e1","result":{"decision":"approved"}}"#).unwrap();
    assert!(matches!(step.session, Session::Launching { .. }));
    step.session
}

fn running() -> Session {
    let step = happen(launching(), Event::Spawned).unwrap();
    assert!(matches!(step.session, Session::Running { .. }));
    step.session
}

fn intercepted() -> (Session, String) {
    let request = WrapperExecRequest {
        file: "/bin/ls".to_string(),
        argv: vec!["ls".to_string(), "-l".to_string()],
        cwd: "/tmp".to_string(),
    };
    let event = Event::Intercepted {
        request,
        callback_token: "t1".to_string(),
        approval_token: "t2".to_string(),
    };
    let step = happen(running(), event).unwrap();
    (step.session, message_line(&step.messages[0]))
}

fn failure(result: Result<Step, SidecarError>) -> (String, Option<String>) {
    let error = result.err().expect("the session gives up");
    (error.message(), error.cause())
}

#[test]
fn initialize_is_answered_with_version_and_capabilities() {
    let step = idle_line(r#"{"jsonrpc":"2.0","id":1,"method":"zsh/initialize","params":{"sessionId":"s"}}"#);
    assert_eq!(
        lines(&step),
        vec![
            "{\"jsonrpc\":\"2.0\",\"id\":1,\"result\":{\"protocolVersion\":1,\"capabilities\":{\"interactivePty\":false}}}\n"
        ]
    );
    assert!(matches!(step.session, Session::Idle));
    assert!(matches!(step.action, Action::Read));
}

#[test]
fn exec_start_asks_the_host_first() {
    let step = idle_line(START);
    assert_eq!(
        lines(&step),
        vec![
            "{\"jsonrpc\":\"2.0\",\"id\":\"approval-e1\",\"method\":\"zsh/requestApproval\",\"params\":{\"approvalId\":\"approval-e1\",\"execId\":\"e1\",\"command\":[\"/bin/zsh\",\"-c\",\"ls\"],\"cwd\":\"/tmp\",\"reason\":\"zsh sidecar execStart command approval\",\"proposedExecpolicyAmendment\":null}}\n"
        ]
    );
    assert!(matches!(step.action, Action::Read));
}

#[test]
fn the_approved_command_is_the_launched_command() {
    let step = line(awaiting(), r#"{"id":"approval-e1","result":{"decision":"approved"}}"#).unwrap();
    assert!(step.messages.is_empty());
    match step.action {
        Action::Launch(LaunchPlan { program, args, cwd, env }) => {
            assert_eq!(program, "/bin/zsh");
            assert_eq!(args, vec!["-c", "ls"]);
            assert_eq!(cwd, "/tmp");
            assert_eq!(
                env,
                Some(vec![
                    ("A".to_string(), "1".to_string()),
                    ("B".to_string(), "2".to_string())
                ])
            );
        }
        other => panic!("unexpected {other:?}"),
    }
}

#[test]
fn a_spawned_command_is_acknowledged_and_then_announced() {
    let step = happen(launching(), Event::Spawned).unwrap();
    assert_eq!(
        lines(&step),
        vec![
            "{\"jsonrpc\":\"2.0\",\"id\":\"r-1\",\"result\":{}}\n",
            "{\"jsonrpc\":\"2.0\",\"method\":\"zsh/event/execStarted\",\"params\":{\"execId\":\"e1\"}}\n"
        ]
    );
    assert!(matches!(step.action, Action::Serve));
}

#[test]
fn a_command_that_cannot_be_spawned_is_answered_with_an_error() {
    let step = happen(launching(), Event::SpawnFailed("no such file".to_string())).unwrap();
    assert_eq!(
        lines(&step),
        vec![
            "{\"jsonrpc\":\"2.0\",\"id\":\"r-1\",\"error\":{\"code\":-32000,\"message\":\"failed to spawn command: no such file\"}}\n"
        ]
    );
    assert!(matches!(step.session, Session::Idle));
}

#[test]
fn output_is_carried_as_base64_on_its_stream() {
    let event = Event::Output { stream: OutputStream::Stdout, chunk: b"hi\n".to_vec() };
    let step = happen(running(), event).unwrap();
    assert_eq!(
        lines(&step),
        vec![
            "{\"jsonrpc\":\"2.0\",\"method\":\"zsh/event/execStdout\",\"params\":{\"execId\":\"e1\",\"chunkBase64\":\"aGkK\"}}\n"
        ]
    );
    let event = Event::Output { stream: OutputStream::Stderr, chunk: vec![0xfb, 0xff] };
    let step = happen(step.session, event).unwrap();
    assert_eq!(
        lines(&step),
        vec![
            "{\"jsonrpc\":\"2.0\",\"method\":\"zsh/event/execStderr\",\"params\":{\"execId\":\"e1\",\"chunkBase64\":\"+/8=\"}}\n"
        ]
    );
}

#[test]
fn chunks_of_every_length_are_padded() {
    let mut session = running();
    for (chunk, text) in [
        ("", ""),
        ("f", "Zg=="),
        ("fo", "Zm8="),
        ("foo", "Zm9v"),
        ("foob", "Zm9vYg=="),
        ("fooba", "Zm9vYmE="),
        ("foobar", "Zm9vYmFy"),
    ] {
        let event =
            Event::Output { stream: OutputStream::Stdout, chunk: chunk.as_bytes().to_vec() };
        let step = happen(session, event).unwrap();
        let value: serde_json::Value =
            serde_json::from_str(&message_line(&step.messages[0])).unwrap();
        assert_eq!(value["params"]["chunkBase64"], text);
        session = step.session;
    }
}

#[test]
fn an_exit_is_told_once_output_has_ended() {
    let exit = ExitStatus { code: Some(3), signal: None };
    let step = happen(running(), Event::Exited(exit)).unwrap();
    assert!(matches!(step.action, Action::Serve));
    assert!(!session_expects(&step.session, &Event::Exited(exit)));
    let event = Event::Output { stream: OutputStream::Stdout, chunk: b"late".to_vec() };
    let step = happen(step.session, event).unwrap();
    let step = happen(step.session, Event::OutputClosed).unwrap();
    assert!(matches!(step.action, Action::Release));
    assert!(step.messages.is_empty());
    let step = happen(step.session, Event::Released).unwrap();
    assert_eq!(
        lines(&step),
        vec![
            "{\"jsonrpc\":\"2.0\",\"method\":\"zsh/event/execExited\",\"params\":{\"execId\":\"e1\",\"exitCode\":3,\"signal\":null,\"timedOut\":false}}\n"
        ]
    );
    assert!(matches!(step.session, Session::Idle));
    assert!(matches!(step.action, Action::Read));
}

#[test]
fn a_signal_is_told_by_its_number() {
    let step = happen(running(), Event::OutputClosed).unwrap();
    assert!(matches!(step.action, Action::Serve));
    assert!(!session_expects(&step.session, &Event::OutputClosed));
    let exit = ExitStatus { code: None, signal: Some(15) };
    let step = happen(step.session, Event::Exited(exit)).unwrap();
    assert!(matches!(step.action, Action::Release));
    let step = happen(step.session, Event::Released).unwrap();
    assert_eq!(
        lines(&step),
        vec![
            "{\"jsonrpc\":\"2.0\",\"method\":\"zsh/event/execExited\",\"params\":{\"execId\":\"e1\",\"exitCode\":-1,\"signal\":\"15\",\"timedOut\":false}}\n"
        ]
    );
}

#[test]
fn a_refusal_answers_the_request_with_its_reason() {
    for (decision, message) in [
        ("denied", "command denied by host approval policy"),
        ("abort", "command aborted by host approval policy"),
    ] {
        let answer = format!("{{\"id\":\"approval-e1\",\"result\":{{\"decision\":\"{decision}\"}}}}");
        let step = line(awaiting(), &answer).unwrap();
        assert_eq!(
            lines(&step),
            vec![format!(
                "{{\"jsonrpc\":\"2.0\",\"id\":\"r-1\",\"error\":{{\"code\":-32003,\"message\":\"{message}\"}}}}\n"
            )]
        );
        assert!(matches!(step.session, Session::Idle));
        assert!(matches!(step.action, Action::Read));
    }
}

#[test]
fn requests_that_fail_say_why() {
    for (request, code, message) in [
        (r#"{"id":5,"method":"zsh/execStart"}"#, -32602, "missing params"),
        (
            r#"{"id":5,"method":"zsh/execStart","params":{"execId":"e","command":[],"cwd":"/"}}"#,
            -32602,
            "execStart.command is empty",
        ),
        (
            r#"{"id":5,"method":"zsh/execStart","params":{"execId":"e","cwd":"/"}}"#,
            -32602,
            "invalid params: missing field `command`",
        ),
        (r#"{"id":5,"method":"zsh/execInterrupt"}"#, -32602, "missing params"),
        (
            r#"{"id":5,"method":"zsh/execInterrupt","params":{}}"#,
            -32602,
            "invalid params: missing field `execId`",
        ),
        (
            r#"{"id":5,"method":"zsh/execInterrupt","params":{"execId":"x"}}"#,
            -32002,
            "unknown exec id: x",
        ),
        (r#"{"id":5,"method":"zsh/execStdin"}"#, -32004, "method not supported in sidecar phase 1"),
        (r#"{"id":5,"method":"zsh/execResize"}"#, -32004, "method not supported in sidecar phase 1"),
        (r#"{"id":5,"method":"zsh/requestApproval"}"#, -32601, "unknown method: zsh/requestApproval"),
        (r#"{"id":5}"#, -32601, "unknown method: "),
        (r#"{"id":5,"method":7}"#, -32601, "unknown method: "),
    ] {
        let step = idle_line(request);
        assert_eq!(
            lines(&step),
            vec![format!(
                "{{\"jsonrpc\":\"2.0\",\"id\":5,\"error\":{{\"code\":{code},\"message\":\"{message}\"}}}}\n"
            )]
        );
        assert!(matches!(step.session, Session::Idle));
        assert!(step.notice.is_none());
    }
}

#[test]
fn shutdown_is_answered_and_ends_the_session() {
    let step = idle_line(r#"{"id":3,"method":"zsh/shutdown","params":{"graceMs":100}}"#);
    assert_eq!(lines(&step), vec!["{\"jsonrpc\":\"2.0\",\"id\":3,\"result\":{}}\n"]);
    assert!(matches!(step.action, Action::Exit));
    assert!(matches!(step.session, Session::Closed));
    assert!(!session_expects(&step.session, &Event::InputClosed));
    assert!(!session_expects(&step.session, &Event::Line("{}".to_string())));
}

#[test]
fn end_of_input_ends_an_idle_session() {
    let step = happen(Session::Idle, Event::InputClosed).unwrap();
    assert!(step.messages.is_empty());
    assert!(matches!(step.action, Action::Exit));
    assert!(matches!(step.session, Session::Closed));
}

#[test]
fn input_that_asks_nothing_is_passed_over() {
    for text in ["", " \t ", "{}", "[]", "7", r#"{"method":"zsh/shutdown"}"#] {
        let step = idle_line(text);
        assert!(step.messages.is_empty(), "{text}");
        assert!(step.notice.is_none(), "{text}");
        assert!(matches!(step.session, Session::Idle));
        assert!(matches!(step.action, Action::Read));
    }
}

#[test]
fn input_that_cannot_be_read_is_noted() {
    let step = idle_line("{\"id\":");
    assert!(step.messages.is_empty());
    match step.notice {
        Some(Notice::InvalidInput(error)) => {
            assert_eq!(error, "EOF while parsing a value at line 1 column 6")
        }
        other => panic!("unexpected {other:?}"),
    }
    for id in ["null", "1.5", "true", "[1]", "9223372036854775808"] {
        let step = idle_line(&format!("{{\"id\":{id},\"method\":\"zsh/initialize\"}}"));
        assert!(step.messages.is_empty());
        assert!(matches!(step.session, Session::Idle));
        match step.notice {
            Some(Notice::InvalidId(error)) => assert_eq!(
                error,
                "data did not match any variant of untagged enum JsonRpcId"
            ),
            other => panic!("unexpected {other:?}"),
        }
    }
}

#[test]
fn identifiers_come_back_as_they_were_sent() {
    for id in ["-9223372036854775808", "9223372036854775807", "\"7\"", "\"\"", "\"\\u0001\\n\\\"\""] {
        let step = idle_line(&format!("{{\"id\":{id},\"method\":\"zsh/shutdown\"}}"));
        assert_eq!(
            lines(&step),
            vec![format!("{{\"jsonrpc\":\"2.0\",\"id\":{id},\"result\":{{}}}}\n")]
        );
    }
}

#[test]
fn other_input_is_passed_over_while_a_decision_is_awaited() {
    for text in [
        "",
        "  ",
        r#"{"method":"zsh/shutdown"}"#,
        r#"{"id":"approval-e2","result":{"decision":"approved"}}"#,
        r#"{"id":7,"error":{"message":"no"}}"#,
        r#"{"id":8,"method":"zsh/shutdown"}"#,
    ] {
        let step = line(awaiting(), text).unwrap();
        assert!(step.messages.is_empty(), "{text}");
        assert!(matches!(step.session, Session::AwaitingExecApproval { .. }));
        assert!(matches!(step.action, Action::Read));
        assert_eq!(
            matches!(step.notice, Some(Notice::UnexpectedAnswer)),
            text.contains("\"id\""),
            "{text}"
        );
    }
}

#[test]
fn a_bad_answer_makes_the_session_give_up() {
    for (text, message, cause) in [
        (
            "{",
            "parse approval response JSON-RPC message",
            Some("EOF while parsing an object at line 1 column 1"),
        ),
        (
            r#"{"id":null}"#,
            "parse approval response JSON-RPC id",
            Some("data did not match any variant of untagged enum JsonRpcId"),
        ),
        (
            r#"{"id":"approval-e1","error":{"message":"busy"}}"#,
            "host rejected approval callback: busy",
            None,
        ),
        (
            r#"{"id":"approval-e1","error":{},"result":{"decision":"approved"}}"#,
            "host rejected approval callback: unknown host approval callback error",
            None,
        ),
        (
            r#"{"id":"approval-e1","error":null}"#,
            "host rejected approval callback: unknown host approval callback error",
            None,
        ),
        (
            r#"{"id":"approval-e1","error":{"message":1}}"#,
            "host rejected approval callback: unknown host approval callback error",
            None,
        ),
        (r#"{"id":"approval-e1"}"#, "missing approval callback result", None),
        (
            r#"{"id":"approval-e1","result":{}}"#,
            "parse approval callback result",
            Some("missing field `decision`"),
        ),
        (
            r#"{"id":"approval-e1","result":{"decision":"maybe"}}"#,
            "parse approval callback result",
            Some(
                "unknown variant `maybe`, expected one of `approved`, `approved_for_session`, `approved_execpolicy_amendment`, `denied`, `abort`",
            ),
        ),
        (
            r#"{"id":"approval-e1","result":null}"#,
            "parse approval callback result",
            Some("invalid type: null, expected struct RequestApprovalResult"),
        ),
    ] {
        let (said, behind) = failure(line(awaiting(), text));
        assert_eq!(said, message, "{text}");
        assert_eq!(behind.as_deref(), cause, "{text}");
    }
    let (said, behind) = failure(happen(awaiting(), Event::InputClosed));
    assert_eq!(said, "stdin closed while waiting for approval response");
    assert_eq!(behind, None);
    let (session, _) = intercepted();
    let (said, _) = failure(happen(session, Event::InputClosed));
    assert_eq!(said, "stdin closed while waiting for approval response");
}

#[test]
fn a_subcommand_is_asked_about_under_its_tokens() {
    let (session, text) = intercepted();
    assert_eq!(
        text,
        "{\"jsonrpc\":\"2.0\",\"id\":\"approval-e1-t1\",\"method\":\"zsh/requestApproval\",\"params\":{\"approvalId\":\"approval-e1-t2\",\"execId\":\"e1\",\"command\":[\"ls\",\"-l\"],\"cwd\":\"/tmp\",\"reason\":\"zsh sidecar intercepted subcommand execve\",\"proposedExecpolicyAmendment\":null}}\n"
    );
    let step = line(session, r#"{"id":"approval-e1","result":{"decision":"approved"}}"#).unwrap();
    assert!(matches!(step.notice, Some(Notice::UnexpectedAnswer)));
    let step =
        line(step.session, r#"{"id":"approval-e1-t1","result":{"decision":"approved"}}"#).unwrap();
    assert!(matches!(step.session, Session::Running { .. }));
    match step.action {
        Action::Answer(response) => {
            assert_eq!(response.action, WrapperExecAction::Run);
            assert_eq!(response.reason, None);
        }
        other => panic!("unexpected {other:?}"),
    }
}

#[test]
fn a_refused_subcommand_is_denied_and_the_command_runs_on() {
    let (session, _) = intercepted();
    let step = decide(session, ApprovalDecision::Abort);
    assert!(step.messages.is_empty());
    assert!(matches!(step.session, Session::Running { .. }));
    match step.action {
        Action::Answer(response) => {
            assert_eq!(response.action, WrapperExecAction::Deny);
            assert_eq!(
                response.reason.as_deref(),
                Some("command aborted by host approval policy")
            );
        }
        other => panic!("unexpected {other:?}"),
    }
}

#[test]
fn wrapper_requests_are_asked_about_under_fresh_identifiers() {
    let request = WrapperExecRequest {
        file: "/bin/ls".to_string(),
        argv: vec![],
        cwd: "/tmp".to_string(),
    };
    let step = handle_wrapper_request(running(), Ok(request)).unwrap();
    let value: serde_json::Value = serde_json::from_str(&message_line(&step.messages[0])).unwrap();
    assert_eq!(value["params"]["command"], serde_json::Value::from(vec!["/bin/ls"]));
    let callback = value["id"].as_str().unwrap().to_string();
    let approval = value["params"]["approvalId"].as_str().unwrap().to_string();
    assert_ne!(callback, approval);
    for id in [callback, approval] {
        let token = id.strip_prefix("approval-e1-").unwrap();
        assert_eq!(token.len(), 36);
        for (i, c) in token.chars().enumerate() {
            match i {
                8 | 13 | 18 | 23 => assert_eq!(c, '-'),
                14 => assert_eq!(c, '4'),
                19 => assert!("89ab".contains(c)),
                _ => assert!(c.is_ascii_digit() || ('a'..='f').contains(&c)),
            }
        }
    }
}

#[test]
fn a_wrapper_request_that_cannot_be_read_makes_the_session_give_up() {
    let result = handle_wrapper_request(running(), Err("missing field `file`".to_string()));
    let (said, behind) = failure(result);
    assert_eq!(said, "parse wrapper request payload");
    assert_eq!(behind.as_deref(), Some("missing field `file`"));
}

#[test]
fn a_message_is_received_without_its_line() {
    let message = parse_json(r#"{"id":9,"method":"zsh/initialize"}"#).unwrap();
    let step = receive(&message);
    assert_eq!(step.messages.len(), 1);
    assert!(message_line(&step.messages[0]).starts_with("{\"jsonrpc\":\"2.0\",\"id\":9,\"result\":"));
}

#[test]
fn a_reading_is_taken_in_without_its_line() {
    let step = receive_reading(Err("bad".to_string()));
    assert!(matches!(step.notice, Some(Notice::InvalidInput(error)) if error == "bad"));
    let step = receive_reading(parse_json(r#"{"id":9,"method":"zsh/shutdown"}"#));
    assert!(matches!(step.session, Session::Closed));

    let callback_id = JsonRpcId::Text("approval-e1".to_string());
    let reply = read_reading(
        parse_json(r#"{"id":"approval-e1","result":{"decision":"approved"}}"#),
        &callback_id,
    );
    let step = take_reply(awaiting(), reply).unwrap();
    assert!(matches!(step.action, Action::Launch(_)));
    let reply = read_reading(Err("bad".to_string()), &callback_id);
    let (said, behind) = failure(take_reply(awaiting(), reply));
    assert_eq!(said, "parse approval response JSON-RPC message");
    assert_eq!(behind.as_deref(), Some("bad"));
}

#[test]
fn requests_are_answered_in_order_across_a_whole_session() {
    let mut session = Session::Idle;
    let mut answered: Vec<String> = Vec::new();
    let input = [
        r#"{"id":1,"method":"zsh/initialize"}"#,
        r#"{"id":2,"method":"nope"}"#,
        r#"{"id":3,"method":"zsh/execStart","params":["e",["sh"],"/"]}"#,
        r#"{"id":"approval-e","result":{"decision":"denied"}}"#,
        r#"{"id":4,"method":"zsh/execInterrupt","params":["e"]}"#,
        r#"{"id":5,"method":"zsh/shutdown"}"#,
    ];
    for text in input {
        let step = line(session, text).unwrap();
        for message in lines(&step) {
            let value: serde_json::Value = serde_json::from_str(&message).unwrap();
            if value.get("method").is_none() {
                answered.push(value["id"].to_string());
            }
        }
        session = step.session;
    }
    assert_eq!(answered, vec!["1", "2", "3", "4", "5"]);
}

#[test]
fn events_are_only_expected_where_they_can_happen() {
    assert!(!session_expects(&Session::Idle, &Event::Spawned));
    assert!(!session_expects(&Session::Idle, &Event::Released));
    assert!(!session_expects(&launching(), &Event::InputClosed));
    assert!(!session_expects(&running(), &Event::Line(String::new())));
    let (session, _) = intercepted();
    assert!(!session_expects(&session, &Event::OutputClosed));
    assert!(session_expects(&session, &Event::Line(String::new())));
}
