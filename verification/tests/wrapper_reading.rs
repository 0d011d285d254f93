use zsh_sidecar::approval::ApprovalDecision;
use zsh_sidecar::decode::{parse_params, read_optional_string, FromJson};
use zsh_sidecar::json::{parse_json, Json};
use zsh_sidecar::message::{json_line, message_line, Message};
use zsh_sidecar::params::JsonRpcId;
use zsh_sidecar::session::{step, Event, Run, Session};
use zsh_sidecar::text::trim;
use zsh_sidecar::wrapper::{
    run_exec_wrapper_mode, wrapper_request_line, wrapper_request_text, wrapper_response,
    wrapper_response_line, WrapperAction, WrapperEvent, WrapperExecAction, WrapperExecRequest,
    WrapperExecResponse, WrapperMode,
};

fn read<T: FromJson>(text: &str) -> Result<T, String> {
    T::read_json(&parse_json(text).unwrap())
}

fn words(items: &[&str]) -> Vec<String> {
    items.iter().map(|item| item.to_string()).collect()
}

#[test]
fn questions_are_read_back_from_their_line() {
    let odd = "a\"b\\c\n\r\t\u{0}\u{2028}\u{20ac} ";
    for argv in [vec![], words(&["ls"]), words(&[odd, "", odd])] {
        let request = WrapperExecRequest {
            file: odd.to_string(),
            argv: argv.clone(),
            cwd: format!(" {odd}"),
        };
        let line = wrapper_request_line(&request);
        assert_eq!(trim(&line), &line[..line.len() - 1]);
        let read = read::<WrapperExecRequest>(trim(&line)).unwrap();
        assert_eq!(read.file, odd);
        assert_eq!(read.argv, argv);
        assert_eq!(read.cwd, format!(" {odd}"));
    }
}

#[test]
fn answers_are_read_back_from_their_line() {
    for decision in [
        ApprovalDecision::Approved,
        ApprovalDecision::ApprovedForSession,
        ApprovalDecision::ApprovedExecpolicyAmendment,
        ApprovalDecision::Denied,
        ApprovalDecision::Abort,
    ] {
        let response = wrapper_response(decision);
        let line = wrapper_response_line(&response);
        let read = read::<WrapperExecResponse>(trim(&line)).unwrap();
        assert_eq!(read.action, response.action);
        assert_eq!(read.reason, response.reason);
    }
}

#[test]
fn a_question_is_read_from_parameters() {
    let message =
        parse_json(r#"{"params":{"file":"/bin/ls","argv":["ls","-l"],"cwd":"/"}}"#).unwrap();
    let request = parse_params::<WrapperExecRequest>(&message).unwrap();
    assert_eq!(request.file, "/bin/ls");
    assert_eq!(request.argv, vec!["ls", "-l"]);
    assert_eq!(request.cwd, "/");
    let message = parse_json(r#"{"params":["/bin/ls",[],"/"]}"#).unwrap();
    assert_eq!(parse_params::<WrapperExecRequest>(&message).unwrap().file, "/bin/ls");
}

#[test]
fn questions_that_do_not_fit_are_refused() {
    for (text, error) in [
        ("null", "invalid type: null, expected struct WrapperExecRequest"),
        ("{}", "missing field `file`"),
        (r#"{"file":"f"}"#, "missing field `argv`"),
        (r#"{"file":"f","argv":[]}"#, "missing field `cwd`"),
        (r#"{"cwd":1}"#, "invalid type: integer `1`, expected a string"),
        (r#"{"argv":{}}"#, "invalid type: map, expected a sequence"),
        ("[]", "invalid length 0, expected struct WrapperExecRequest with 3 elements"),
        (r#"["f"]"#, "invalid length 1, expected struct WrapperExecRequest with 3 elements"),
        (r#"["f",[]]"#, "invalid length 2, expected struct WrapperExecRequest with 3 elements"),
        (r#"["f",[],"c",0]"#, "invalid length 4, expected fewer elements in array"),
    ] {
        assert_eq!(read::<WrapperExecRequest>(text).err().as_deref(), Some(error), "{text}");
    }
}

#[test]
fn answers_are_read_in_every_form() {
    for (text, action, reason) in [
        (r#"{"action":"run"}"#, WrapperExecAction::Run, None),
        (r#"{"reason":null,"action":"deny"}"#, WrapperExecAction::Deny, None),
        (r#"{"action":{"deny":null},"reason":"no"}"#, WrapperExecAction::Deny, Some("no")),
        (r#"["run","yes"]"#, WrapperExecAction::Run, Some("yes")),
    ] {
        let response = read::<WrapperExecResponse>(text).unwrap();
        assert_eq!(response.action, action, "{text}");
        assert_eq!(response.reason.as_deref(), reason, "{text}");
    }
}

#[test]
fn answers_that_do_not_fit_are_refused() {
    for (text, error) in [
        ("1", "invalid type: integer `1`, expected struct WrapperExecResponse"),
        ("{}", "missing field `action`"),
        (r#"{"action":"Run"}"#, "unknown variant `Run`, expected `run` or `deny`"),
        (r#"{"action":null}"#, "invalid type: null, expected string or map"),
        (r#"{"action":{}}"#, "invalid value: map, expected map with a single key"),
        (r#"{"action":{"run":1}}"#, "invalid type: integer `1`, expected unit"),
        (r#"{"action":"run","reason":1}"#, "invalid type: integer `1`, expected a string"),
        ("[]", "invalid length 0, expected struct WrapperExecResponse with 2 elements"),
        (r#"["run"]"#, "invalid length 1, expected struct WrapperExecResponse with 2 elements"),
        (r#"["run",null,0]"#, "invalid length 3, expected fewer elements in array"),
    ] {
        assert_eq!(read::<WrapperExecResponse>(text).err().as_deref(), Some(error), "{text}");
    }
}

#[test]
fn optional_strings_are_read_as_serde_reads_them() {
    for text in ["null", "\"a\"", "1", "[]", "{}", "true", "1.5"] {
        let value: serde_json::Value = serde_json::from_str(text).unwrap();
        assert_eq!(
            read_optional_string(&parse_json(text).unwrap()),
            serde_json::from_value::<Option<String>>(value).map_err(|error| error.to_string()),
            "{text}"
        );
    }
}

#[test]
fn the_host_is_asked_about_what_the_wrapper_sent() {
    for (args, command) in [
        (words(&["w", "/bin/\u{e9}\n"]), words(&["/bin/\u{e9}\n"])),
        (words(&["w", "/bin/sh", "sh", "-c", "echo \"x\""]), words(&["sh", "-c", "echo \"x\""])),
    ] {
        let invoked = WrapperEvent::Invoked { args, unix: true };
        let (mode, _) = run_exec_wrapper_mode(WrapperMode::Starting, invoked).unwrap();
        let located = WrapperEvent::Located {
            cwd: "/tmp/\u{4e2d}".to_string(),
            socket_path: Ok("/tmp/s".to_string()),
        };
        let (mode, _) = run_exec_wrapper_mode(mode, located).unwrap();
        let line = match run_exec_wrapper_mode(mode, WrapperEvent::Connected).unwrap().1 {
            WrapperAction::Ask { line } => line,
            other => panic!("unexpected {other:?}"),
        };
        let text = wrapper_request_text(line.into_bytes()).unwrap();
        let request = read::<WrapperExecRequest>(&text).unwrap();
        let run = Run { exec_id: "e".to_string(), exit: None, output_open: true };
        let event = Event::Intercepted {
            request,
            callback_token: "a".to_string(),
            approval_token: "b".to_string(),
        };
        let step = step(Session::Running { run }, event).unwrap();
        let value: serde_json::Value =
            serde_json::from_str(&message_line(&step.messages[0])).unwrap();
        assert_eq!(value["params"]["command"], serde_json::Value::from(command));
        assert_eq!(value["params"]["cwd"], "/tmp/\u{4e2d}");
    }
}

#[test]
fn a_line_is_never_blank() {
    for json in [Json::Null, Json::Text(String::new()), Json::Array(vec![]), Json::Integer(-1)] {
        let line = json_line(&json);
        assert!(!trim(&line).is_empty());
        assert_eq!(trim(&line), &line[..line.len() - 1]);
    }
    let line = message_line(&Message::Done { id: JsonRpcId::Text("\n \u{3000}".to_string()) });
    assert_eq!(trim(&line), &line[..line.len() - 1]);
}

#[test]
fn a_value_may_be_nested_deeper_than_a_reader_goes() {
    let mut json = Json::Null;
    for _ in 0..200 {
        json = Json::Array(vec![json]);
    }
    let line = json_line(&json);
    assert_eq!(line, format!("{}null{}\n", "[".repeat(200), "]".repeat(200)));
    assert!(parse_json(&line).is_err());
}
