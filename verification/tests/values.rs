use serde_json::Value;
use std::collections::HashMap;
use zsh_sidecar::approval::{
    read_reply, refusal_reason, wait_for_approval_result, ApprovalDecision, ApprovalReply,
    RequestApprovalResult,
};
use zsh_sidecar::chunk::is_encodable;
use zsh_sidecar::decode::{parse_params, read_string, read_string_map, read_strings, FromJson};
use zsh_sidecar::json::{json_text, parse_json, Json};
use zsh_sidecar::message::{
    json_line, message_line, ExecPolicyAmendmentProposal, Message, RequestApprovalParams,
};
use zsh_sidecar::params::{ExecInterruptParams, ExecStartParams, JsonRpcId};
use zsh_sidecar::text::{decimal, joined, same_text, trim};
use zsh_sidecar::token::{new_socket_name, socket_name_for};

const SAMPLES: [&str; 22] = [
    "null",
    "true",
    "false",
    "0",
    "-7",
    "18446744073709551615",
    "1.5",
    "1e300",
    "-0.0",
    "1.0",
    "\"a\"",
    "\"quote \\\" tab \\t bell \\u0007 wide \\u20ac\"",
    "[]",
    "[1]",
    "[\"a\",\"b\"]",
    "[\"a\",null,3]",
    "{}",
    "{\"a\":\"1\"}",
    "{\"a\":\"1\",\"b\":2}",
    "{\"a\":[]}",
    "[[]]",
    "[true]",
];

#[test]
fn strings_are_read_as_serde_reads_them() {
    for sample in SAMPLES {
        let json = parse_json(sample).unwrap();
        let value: Value = serde_json::from_str(sample).unwrap();
        assert_eq!(
            read_string(&json),
            serde_json::from_value::<String>(value.clone()).map_err(|error| error.to_string()),
            "{sample}"
        );
        assert_eq!(
            read_strings(&json),
            serde_json::from_value::<Vec<String>>(value.clone()).map_err(|error| error.to_string()),
            "{sample}"
        );
        assert_eq!(
            read_string_map(&json).map(|map| map
                .map(|pairs| pairs.into_iter().collect::<HashMap<String, String>>())),
            serde_json::from_value::<Option<HashMap<String, String>>>(value)
                .map_err(|error| error.to_string()),
            "{sample}"
        );
    }
}

#[test]
fn values_are_read_level_by_level() {
    match parse_json(" {\"b\":[1,-2,1.50],\"a\":null,\"b\":\"last\"} ").unwrap() {
        Json::Object(members) => {
            assert_eq!(members.len(), 2);
            assert_eq!(members[0].0, "b");
            assert!(matches!(&members[0].1, Json::Text(text) if text == "last"));
            assert_eq!(members[1].0, "a");
            assert!(matches!(members[1].1, Json::Null));
        }
        other => panic!("unexpected {other:?}"),
    }
    match parse_json("[1,-2,1.50,18446744073709551615,18446744073709551616]").unwrap() {
        Json::Array(items) => {
            assert!(matches!(items[0], Json::Integer(1)));
            assert!(matches!(items[1], Json::Integer(-2)));
            assert!(matches!(&items[2], Json::Float(text) if text == "1.5"));
            assert!(matches!(items[3], Json::Integer(18446744073709551615)));
            assert!(matches!(&items[4], Json::Float(_)));
        }
        other => panic!("unexpected {other:?}"),
    }
}

#[test]
fn a_text_that_is_no_json_is_refused_with_the_readers_words() {
    for text in ["", "{", "nul", "[1,]", "{} x", "\"\u{1}\""] {
        assert_eq!(
            parse_json(text).err(),
            serde_json::from_str::<Value>(text).err().map(|error| error.to_string()),
            "{text}"
        );
    }
}

#[test]
fn what_is_written_is_read_back() {
    let text = "{\"z\":[true,null,-5,\"\\n\\u0000\\\"\\\\/é\"],\"a\":{\"x\":{}}}";
    let json = parse_json(text).unwrap();
    assert_eq!(json_text(&json), text);
    assert_eq!(json_line(&json), format!("{text}\n"));
}

#[test]
fn members_are_found_by_name() {
    let json = parse_json("{\"id\":1,\"method\":\"m\"}").unwrap();
    assert!(matches!(json.get("id"), Some(Json::Integer(1))));
    assert_eq!(json.get("method").and_then(Json::as_text), Some("m"));
    assert_eq!(json.get("id").and_then(Json::as_text), None);
    assert!(json.get("params").is_none());
    assert!(parse_json("[1]").unwrap().get("id").is_none());
}

#[test]
fn start_parameters_are_read_in_both_forms() {
    let json = parse_json(
        r#"{"params":{"cwd":"/","extra":1,"command":["a","b"],"execId":"e","env":{"K":"V"}}}"#,
    )
    .unwrap();
    let params = parse_params::<ExecStartParams>(&json).unwrap();
    assert_eq!(params.exec_id, "e");
    assert_eq!(params.command, vec!["a", "b"]);
    assert_eq!(params.cwd, "/");
    assert_eq!(params.env, Some(vec![("K".to_string(), "V".to_string())]));

    let json = parse_json(r#"{"params":["e",["a"],"/",null]}"#).unwrap();
    let params = parse_params::<ExecStartParams>(&json).unwrap();
    assert_eq!(params.exec_id, "e");
    assert_eq!(params.command, vec!["a"]);
    assert_eq!(params.env, None);

    let json = parse_json(r#"{"params":{"execId":"e","command":[],"cwd":""}}"#).unwrap();
    assert_eq!(parse_params::<ExecStartParams>(&json).unwrap().env, None);
}

#[test]
fn start_parameters_that_do_not_fit_are_refused() {
    for (params, error) in [
        ("null", "invalid type: null, expected struct ExecStartParams"),
        ("\"x\"", "invalid type: string \"x\", expected struct ExecStartParams"),
        ("{}", "missing field `execId`"),
        (r#"{"execId":"e"}"#, "missing field `command`"),
        (r#"{"execId":"e","command":[]}"#, "missing field `cwd`"),
        (
            r#"{"cwd":1,"execId":2}"#,
            "invalid type: integer `1`, expected a string",
        ),
        (
            r#"{"execId":"e","command":"ls","cwd":"/"}"#,
            "invalid type: string \"ls\", expected a sequence",
        ),
        (
            r#"{"execId":"e","command":["ls",null],"cwd":"/"}"#,
            "invalid type: null, expected a string",
        ),
        (
            r#"{"execId":"e","command":["ls"],"cwd":"/","env":[]}"#,
            "invalid type: sequence, expected a map",
        ),
        (
            r#"{"execId":"e","command":["ls"],"cwd":"/","env":{"A":true}}"#,
            "invalid type: boolean `true`, expected a string",
        ),
        ("[]", "invalid length 0, expected struct ExecStartParams with 4 elements"),
        (r#"["e",[]]"#, "invalid length 2, expected struct ExecStartParams with 4 elements"),
        (r#"["e",[],"/",null,0]"#, "invalid length 5, expected fewer elements in array"),
    ] {
        let json = parse_json(&format!("{{\"params\":{params}}}")).unwrap();
        assert_eq!(
            parse_params::<ExecStartParams>(&json).err(),
            Some(format!("invalid params: {error}")),
            "{params}"
        );
    }
    let json = parse_json("{}").unwrap();
    assert_eq!(parse_params::<ExecStartParams>(&json).err().as_deref(), Some("missing params"));
}

#[test]
fn interrupt_parameters_are_read_in_both_forms() {
    for params in [r#"{"execId":"e"}"#, r#"["e"]"#] {
        let json = parse_json(&format!("{{\"params\":{params}}}")).unwrap();
        assert_eq!(parse_params::<ExecInterruptParams>(&json).unwrap().exec_id, "e");
    }
    for (params, error) in [
        ("7", "invalid type: integer `7`, expected struct ExecInterruptParams"),
        ("[]", "invalid length 0, expected struct ExecInterruptParams with 1 element"),
        (r#"["e",1]"#, "invalid length 2, expected fewer elements in array"),
    ] {
        let json = parse_json(&format!("{{\"params\":{params}}}")).unwrap();
        assert_eq!(
            parse_params::<ExecInterruptParams>(&json).err(),
            Some(format!("invalid params: {error}"))
        );
    }
}

#[test]
fn decisions_are_read_by_name() {
    for (text, decision) in [
        (r#"{"decision":"approved"}"#, ApprovalDecision::Approved),
        (r#"{"decision":"approved_for_session"}"#, ApprovalDecision::ApprovedForSession),
        (
            r#"{"decision":"approved_execpolicy_amendment","more":0}"#,
            ApprovalDecision::ApprovedExecpolicyAmendment,
        ),
        (r#"["denied"]"#, ApprovalDecision::Denied),
        (r#"{"decision":{"abort":null}}"#, ApprovalDecision::Abort),
    ] {
        let json = parse_json(text).unwrap();
        assert_eq!(RequestApprovalResult::read_json(&json).unwrap().decision, decision);
    }
}

#[test]
fn only_refusals_have_a_reason() {
    assert_eq!(refusal_reason(ApprovalDecision::Approved), None);
    assert_eq!(refusal_reason(ApprovalDecision::ApprovedForSession), None);
    assert_eq!(refusal_reason(ApprovalDecision::ApprovedExecpolicyAmendment), None);
    assert_eq!(
        refusal_reason(ApprovalDecision::Denied).as_deref(),
        Some("command denied by host approval policy")
    );
    assert_eq!(
        refusal_reason(ApprovalDecision::Abort).as_deref(),
        Some("command aborted by host approval policy")
    );
}

#[test]
fn replies_are_told_apart() {
    let expected = JsonRpcId::Number(4);
    let reply = |text: &str| wait_for_approval_result(Some(text), &expected);
    assert_eq!(reply(" ").unwrap(), ApprovalReply::NoAnswer);
    assert_eq!(reply("{}").unwrap(), ApprovalReply::NoAnswer);
    assert_eq!(reply("{\"id\":\"4\"}").unwrap(), ApprovalReply::OtherAnswer);
    assert_eq!(
        reply("{\"id\":4,\"result\":{\"decision\":\"denied\"}}").unwrap(),
        ApprovalReply::Decided(ApprovalDecision::Denied)
    );
    assert!(wait_for_approval_result(None, &expected).is_err());
    let message = parse_json("{\"id\":5}").unwrap();
    assert_eq!(read_reply(&message, &expected).unwrap(), ApprovalReply::OtherAnswer);
}

#[test]
fn identifiers_are_compared_by_kind_and_value() {
    let number = JsonRpcId::Number(7);
    let text = JsonRpcId::Text("7".to_string());
    assert!(number.same(&number.copied()));
    assert!(text.same(&text.copied()));
    assert!(!number.same(&text));
    assert!(!number.same(&JsonRpcId::Number(8)));
    assert!(!text.same(&JsonRpcId::Text("70".to_string())));
}

#[test]
fn a_proposal_is_written_with_the_question() {
    let message = Message::ApprovalRequest {
        id: JsonRpcId::Number(1),
        params: RequestApprovalParams {
            approval_id: "a".to_string(),
            exec_id: "e".to_string(),
            command: vec![],
            cwd: "/".to_string(),
            reason: "r".to_string(),
            proposed_execpolicy_amendment: Some(ExecPolicyAmendmentProposal {
                command_prefix: vec!["git".to_string()],
                rationale: None,
            }),
        },
    };
    assert_eq!(
        message_line(&message),
        "{\"jsonrpc\":\"2.0\",\"id\":1,\"method\":\"zsh/requestApproval\",\"params\":{\"approvalId\":\"a\",\"execId\":\"e\",\"command\":[],\"cwd\":\"/\",\"reason\":\"r\",\"proposedExecpolicyAmendment\":{\"commandPrefix\":[\"git\"],\"rationale\":null}}}\n"
    );
}

#[test]
fn white_space_is_trimmed_as_std_trims_it() {
    for text in [
        "",
        " ",
        "a",
        "\t a b \r\n",
        "\u{a0}x\u{2003}",
        "\u{200b}x",
        "\u{85}\u{1680}\u{2028}\u{202f}\u{205f}\u{3000}é",
        "\u{b}\u{c}\u{1c}",
    ] {
        assert_eq!(trim(text), text.trim());
    }
    for code in 0..=0x3100u32 {
        if let Some(c) = char::from_u32(code) {
            assert_eq!(trim(&c.to_string()).is_empty(), c.is_whitespace(), "{code:x}");
        }
    }
}

#[test]
fn numbers_are_written_in_decimal() {
    for n in [0, 7, 10, 15, 1234567890, -1, -10, i128::MAX, i128::MIN, i32::MIN as i128] {
        assert_eq!(decimal(n), n.to_string());
    }
}

#[test]
fn texts_are_compared_and_joined() {
    assert!(same_text("zsh/é", "zsh/é"));
    assert!(!same_text("a", "ab"));
    assert!(!same_text("a", "b"));
    assert!(same_text("", ""));
    assert_eq!(joined("a", "é"), "aé");
}

#[test]
fn sockets_are_named_by_the_start_of_a_token() {
    assert_eq!(socket_name_for("0123456789abcdef"), "czs-0123456789ab.sock");
    let name = new_socket_name();
    let token = name.strip_prefix("czs-").and_then(|rest| rest.strip_suffix(".sock")).unwrap();
    assert_eq!(token.len(), 12);
    assert!(token.chars().all(|c| c.is_ascii_digit() || ('a'..='f').contains(&c)));
    assert_ne!(new_socket_name(), name);
}

#[test]
fn only_enormous_chunks_cannot_be_encoded() {
    assert!(is_encodable(0));
    assert!(is_encodable(8192));
    assert!(is_encodable(isize::MAX as usize / 4 * 3));
    assert!(!is_encodable(isize::MAX as usize / 4 * 3 + 1));
    assert!(!is_encodable(usize::MAX));
}
