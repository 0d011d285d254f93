use zsh_sidecar::approval::ApprovalDecision;
use zsh_sidecar::error::SidecarError;
use zsh_sidecar::wrapper::{
    run_exec_wrapper_mode, wrapper_mode_expects, wrapper_request_line, wrapper_request_text,
    wrapper_response, wrapper_response_line, WrapperAction, WrapperEvent, WrapperExecAction,
    WrapperExecRequest, WrapperExecResponse, WrapperMode,
};

fn words(items: &[&str]) -> Vec<String> {
    items.iter().map(|item| item.to_string()).collect()
}

fn on(mode: WrapperMode, event: WrapperEvent) -> Result<(WrapperMode, WrapperAction), SidecarError> {
    assert!(wrapper_mode_expects(&mode, &event));
    run_exec_wrapper_mode(mode, event)
}

fn invoked(args: &[&str], unix: bool) -> Result<(WrapperMode, WrapperAction), SidecarError> {
    on(WrapperMode::Starting, WrapperEvent::Invoked { args: words(args), unix })
}

fn asked(args: &[&str]) -> (WrapperMode, String) {
    let (mode, action) = invoked(args, true).unwrap();
    assert!(matches!(action, WrapperAction::Locate));
    let located = WrapperEvent::Located {
        cwd: "/tmp".to_string(),
        socket_path: Ok("/tmp/s.sock".to_string()),
    };
    let (mode, action) = on(mode, located).unwrap();
    assert!(matches!(action, WrapperAction::Connect { socket_path } if socket_path == "/tmp/s.sock"));
    match on(mode, WrapperEvent::Connected).unwrap() {
        (mode, WrapperAction::Ask { line }) => (mode, line),
        other => panic!("unexpected {other:?}"),
    }
}

fn answered(args: &[&str], response: WrapperExecResponse) -> WrapperAction {
    on(asked(args).0, WrapperEvent::Answered(Ok(response))).unwrap().1
}

#[test]
fn a_wrapper_asks_about_its_target_and_its_words() {
    assert_eq!(
        asked(&["w", "/bin/ls", "ls", "-l"]).1,
        "{\"file\":\"/bin/ls\",\"argv\":[\"ls\",\"-l\"],\"cwd\":\"/tmp\"}\n"
    );
    assert_eq!(
        asked(&["w", "/bin/ls"]).1,
        "{\"file\":\"/bin/ls\",\"argv\":[\"/bin/ls\"],\"cwd\":\"/tmp\"}\n"
    );
}

#[test]
fn a_wrapper_runs_its_target_when_it_is_told_to() {
    let told = wrapper_response(ApprovalDecision::ApprovedForSession);
    match answered(&["w", "/bin/ls", "ls", "-l", "-a"], told) {
        WrapperAction::Run { program, args } => {
            assert_eq!(program, "/bin/ls");
            assert_eq!(args, vec!["-l", "-a"]);
        }
        other => panic!("unexpected {other:?}"),
    }
    match answered(&["w", "/bin/ls"], wrapper_response(ApprovalDecision::Approved)) {
        WrapperAction::Run { program, args } => {
            assert_eq!(program, "/bin/ls");
            assert!(args.is_empty());
        }
        other => panic!("unexpected {other:?}"),
    }
}

#[test]
fn a_wrapper_that_is_denied_says_why_and_fails() {
    match answered(&["w", "/bin/ls"], wrapper_response(ApprovalDecision::Denied)) {
        WrapperAction::Refuse { notice, code } => {
            assert_eq!(notice, "Execution denied: command denied by host approval policy");
            assert_eq!(code, 1);
        }
        other => panic!("unexpected {other:?}"),
    }
    let silent = WrapperExecResponse { action: WrapperExecAction::Deny, reason: None };
    match answered(&["w", "/bin/ls"], silent) {
        WrapperAction::Refuse { notice, code } => {
            assert_eq!(notice, "Execution denied");
            assert_eq!(code, 1);
        }
        other => panic!("unexpected {other:?}"),
    }
}

#[test]
fn a_wrapper_exits_as_its_target_does() {
    for (code, expected) in [(Some(0), 0), (Some(42), 42), (None, 1)] {
        match on(WrapperMode::Running, WrapperEvent::Exited(code)).unwrap() {
            (WrapperMode::Done, WrapperAction::Exit { code }) => assert_eq!(code, expected),
            other => panic!("unexpected {other:?}"),
        }
    }
}

#[test]
fn a_wrapper_fails_on_what_it_lacks() {
    let error = invoked(&["w"], true).err().unwrap();
    assert_eq!(error.message(), "exec wrapper mode requires target executable path");
    let error = invoked(&[], true).err().unwrap();
    assert_eq!(error.message(), "exec wrapper mode requires target executable path");
    let error = invoked(&["w", "/bin/ls"], false).err().unwrap();
    assert_eq!(error.message(), "exec wrapper mode is only supported on unix");

    let (mode, _) = invoked(&["w", "/bin/ls"], true).unwrap();
    let located = WrapperEvent::Located { cwd: "/".to_string(), socket_path: Err("environment variable not found".to_string()) };
    let error = on(mode, located).err().unwrap();
    assert_eq!(error.message(), "missing wrapper socket path env var");
    assert_eq!(error.cause().as_deref(), Some("environment variable not found"));

    let (mode, _) = asked(&["w", "/bin/ls"]);
    let error = on(mode, WrapperEvent::Answered(Err("bad".to_string()))).err().unwrap();
    assert_eq!(error.message(), "parse wrapper response");
    assert_eq!(error.cause().as_deref(), Some("bad"));
}

#[test]
fn a_failed_connection_names_the_socket() {
    let (mode, _) = invoked(&["w", "/bin/ls"], true).unwrap();
    let located = WrapperEvent::Located {
        cwd: "/".to_string(),
        socket_path: Ok("/tmp/none.sock".to_string()),
    };
    let (mode, _) = on(mode, located).unwrap();
    let error = on(mode, WrapperEvent::ConnectFailed("refused".to_string())).err().unwrap();
    assert_eq!(error.message(), "connect to wrapper socket at /tmp/none.sock");
    assert_eq!(error.cause().as_deref(), Some("refused"));
}

#[test]
fn wrapper_events_are_only_expected_in_their_turn() {
    assert!(!wrapper_mode_expects(&WrapperMode::Starting, &WrapperEvent::Connected));
    assert!(!wrapper_mode_expects(&WrapperMode::Done, &WrapperEvent::Exited(None)));
    let (mode, _) = asked(&["w", "/bin/ls"]);
    assert!(!wrapper_mode_expects(&mode, &WrapperEvent::Exited(Some(0))));
}

#[test]
fn answers_to_wrappers_are_written_on_one_line() {
    assert_eq!(
        wrapper_response_line(&wrapper_response(ApprovalDecision::ApprovedExecpolicyAmendment)),
        "{\"action\":\"run\",\"reason\":null}\n"
    );
    assert_eq!(
        wrapper_response_line(&wrapper_response(ApprovalDecision::Abort)),
        "{\"action\":\"deny\",\"reason\":\"command aborted by host approval policy\"}\n"
    );
}

#[test]
fn a_question_with_line_breaks_stays_on_one_line() {
    let request = WrapperExecRequest {
        file: "/bin/a\nb".to_string(),
        argv: vec!["\r\n".to_string(), "\u{2028}\"\\".to_string()],
        cwd: "/tmp".to_string(),
    };
    let line = wrapper_request_line(&request);
    assert_eq!(line.matches('\n').count(), 1);
    assert!(line.ends_with('\n'));
    let value: serde_json::Value = serde_json::from_str(&line).unwrap();
    assert_eq!(value["file"], "/bin/a\nb");
    assert_eq!(value["argv"][0], "\r\n");
    assert_eq!(value["argv"][1], "\u{2028}\"\\");
}

#[test]
fn a_question_is_read_as_utf8_without_white_space_around() {
    let text = wrapper_request_text(" \u{3000}{\"file\":\"é\"}\r\n\n".as_bytes().to_vec()).unwrap();
    assert_eq!(text, "{\"file\":\"é\"}");
    let error = wrapper_request_text(vec![b'{', 0xff]).err().unwrap();
    assert_eq!(error.message(), "decode wrapper request as utf-8");
    assert_eq!(
        error.cause().as_deref(),
        Some("invalid utf-8 sequence of 1 bytes from index 1")
    );
}
