//! What the sidecar sends: responses, approval requests and events, and their JSON lines.

use crate::decode::{texts, FromJson};
use crate::json::{
    array, exact, json_text, names_differ, nested_within, object, parsed, reading, written, Json,
    JsonView,
};
use crate::params::{IdView, JsonRpcId};
use crate::text::{lemma_line_is_trimmed, trimmed};
use vstd::prelude::*;
use vstd::string::*;

verus! {

pub const JSONRPC_VERSION: &'static str = "2.0";

pub const METHOD_ZSH_INITIALIZE: &'static str = "zsh/initialize";

pub const METHOD_ZSH_EXEC_START: &'static str = "zsh/execStart";

pub const METHOD_ZSH_EXEC_STDIN: &'static str = "zsh/execStdin";

pub const METHOD_ZSH_EXEC_RESIZE: &'static str = "zsh/execResize";

pub const METHOD_ZSH_EXEC_INTERRUPT: &'static str = "zsh/execInterrupt";

pub const METHOD_ZSH_SHUTDOWN: &'static str = "zsh/shutdown";

pub const METHOD_ZSH_REQUEST_APPROVAL: &'static str = "zsh/requestApproval";

pub const METHOD_ZSH_EVENT_EXEC_STARTED: &'static str = "zsh/event/execStarted";

pub const METHOD_ZSH_EVENT_EXEC_STDOUT: &'static str = "zsh/event/execStdout";

pub const METHOD_ZSH_EVENT_EXEC_STDERR: &'static str = "zsh/event/execStderr";

pub const METHOD_ZSH_EVENT_EXEC_EXITED: &'static str = "zsh/event/execExited";

/// The protocol version that the sidecar speaks.
pub const PROTOCOL_VERSION: u32 = 1;

/// One of the two output streams of a command.
#[derive(Debug, Clone, Copy, PartialEq, Eq, Structural)]
pub enum OutputStream {
    Stdout,
    Stderr,
}

/// A change to the execution policy that the host may adopt.
#[derive(Debug)]
pub struct ExecPolicyAmendmentProposal {
    pub command_prefix: Vec<String>,
    pub rationale: Option<String>,
}

/// The values of a proposed policy change.
pub struct ProposalView {
    pub command_prefix: Seq<Seq<char>>,
    pub rationale: Option<Seq<char>>,
}

impl View for ExecPolicyAmendmentProposal {
    type V = ProposalView;

    open spec fn view(&self) -> ProposalView {
        ProposalView {
            command_prefix: texts(self.command_prefix@),
            rationale: optional_text(self.rationale),
        }
    }
}

/// The text of an optional string.
pub open spec fn optional_text(text: Option<String>) -> Option<Seq<char>> {
    match text {
        Some(text) => Some(text@),
        None => None,
    }
}

/// The question whether a command may run.
#[derive(Debug)]
pub struct RequestApprovalParams {
    pub approval_id: String,
    pub exec_id: String,
    pub command: Vec<String>,
    pub cwd: String,
    pub reason: String,
    pub proposed_execpolicy_amendment: Option<ExecPolicyAmendmentProposal>,
}

/// The values of the question whether a command may run.
pub struct ApprovalParamsView {
    pub approval_id: Seq<char>,
    pub exec_id: Seq<char>,
    pub command: Seq<Seq<char>>,
    pub cwd: Seq<char>,
    pub reason: Seq<char>,
    pub proposed_execpolicy_amendment: Option<ProposalView>,
}

impl View for RequestApprovalParams {
    type V = ApprovalParamsView;

    open spec fn view(&self) -> ApprovalParamsView {
        ApprovalParamsView {
            approval_id: self.approval_id@,
            exec_id: self.exec_id@,
            command: texts(self.command@),
            cwd: self.cwd@,
            reason: self.reason@,
            proposed_execpolicy_amendment: match self.proposed_execpolicy_amendment {
                Some(proposal) => Some(proposal@),
                None => None,
            },
        }
    }
}

/// A message to the host.
#[derive(Debug)]
pub enum Message {
    /// Asks the host to approve a command; the host answers under `id`.
    ApprovalRequest { id: JsonRpcId, params: RequestApprovalParams },
    /// Answers `zsh/initialize`.
    Initialized { id: JsonRpcId },
    /// Answers a request that succeeded and has nothing to say.
    Done { id: JsonRpcId },
    /// Answers a request that failed.
    Failed { id: JsonRpcId, code: i64, message: String },
    /// Tells that a command runs.
    ExecStarted { exec_id: String },
    /// Carries output of a command, as base64 text.
    ExecOutput { stream: OutputStream, exec_id: String, chunk_base64: String },
    /// Tells that a command has ended.
    ExecExited {
        exec_id: String,
        exit_code: i32,
        signal: Option<String>,
        timed_out: Option<bool>,
    },
}

/// The values of a message to the host.
pub enum MessageView {
    ApprovalRequest { id: IdView, params: ApprovalParamsView },
    Initialized { id: IdView },
    Done { id: IdView },
    Failed { id: IdView, code: int, message: Seq<char> },
    ExecStarted { exec_id: Seq<char> },
    ExecOutput { stream: OutputStream, exec_id: Seq<char>, chunk_base64: Seq<char> },
    ExecExited {
        exec_id: Seq<char>,
        exit_code: int,
        signal: Option<Seq<char>>,
        timed_out: Option<bool>,
    },
}

impl View for Message {
    type V = MessageView;

    open spec fn view(&self) -> MessageView {
        match self {
            Message::ApprovalRequest { id, params } => MessageView::ApprovalRequest {
                id: id@,
                params: params@,
            },
            Message::Initialized { id } => MessageView::Initialized { id: id@ },
            Message::Done { id } => MessageView::Done { id: id@ },
            Message::Failed { id, code, message } => MessageView::Failed {
                id: id@,
                code: *code as int,
                message: message@,
            },
            Message::ExecStarted { exec_id } => MessageView::ExecStarted { exec_id: exec_id@ },
            Message::ExecOutput { stream, exec_id, chunk_base64 } => MessageView::ExecOutput {
                stream: *stream,
                exec_id: exec_id@,
                chunk_base64: chunk_base64@,
            },
            Message::ExecExited { exec_id, exit_code, signal, timed_out } => {
                MessageView::ExecExited {
                    exec_id: exec_id@,
                    exit_code: *exit_code as int,
                    signal: optional_text(*signal),
                    timed_out: *timed_out,
                }
            },
        }
    }
}

/// A JSON string.
pub open spec fn text_tree(text: Seq<char>) -> JsonView {
    JsonView::Text(text)
}

/// A JSON array of strings.
pub open spec fn texts_tree(strings: Seq<Seq<char>>) -> JsonView {
    JsonView::Array(Seq::new(strings.len(), |i: int| JsonView::Text(strings[i])))
}

/// A JSON string, or null where there is none.
pub open spec fn optional_tree(text: Option<Seq<char>>) -> JsonView {
    match text {
        Some(text) => JsonView::Text(text),
        None => JsonView::Null,
    }
}

/// A JSON boolean, or null where there is none.
pub open spec fn flag_tree(flag: Option<bool>) -> JsonView {
    match flag {
        Some(flag) => JsonView::Bool(flag),
        None => JsonView::Null,
    }
}

/// The JSON form of a request identifier.
pub open spec fn id_tree(id: IdView) -> JsonView {
    match id {
        IdView::Number(n) => JsonView::Integer(n),
        IdView::Text(text) => JsonView::Text(text),
    }
}

/// The JSON form of a proposed policy change.
pub open spec fn proposal_tree(proposal: Option<ProposalView>) -> JsonView {
    match proposal {
        None => JsonView::Null,
        Some(proposal) => JsonView::Object(
            seq![
                ("commandPrefix"@, texts_tree(proposal.command_prefix)),
                ("rationale"@, optional_tree(proposal.rationale)),
            ],
        ),
    }
}

/// The JSON form of the question whether a command may run.
pub open spec fn approval_params_tree(params: ApprovalParamsView) -> JsonView {
    JsonView::Object(
        seq![
            ("approvalId"@, text_tree(params.approval_id)),
            ("execId"@, text_tree(params.exec_id)),
            ("command"@, texts_tree(params.command)),
            ("cwd"@, text_tree(params.cwd)),
            ("reason"@, text_tree(params.reason)),
            (
                "proposedExecpolicyAmendment"@,
                proposal_tree(params.proposed_execpolicy_amendment),
            ),
        ],
    )
}

/// What `zsh/initialize` is answered: the protocol version, and that there is no terminal.
pub open spec fn initialize_result_tree() -> JsonView {
    JsonView::Object(
        seq![
            ("protocolVersion"@, JsonView::Integer(PROTOCOL_VERSION as int)),
            (
                "capabilities"@,
                JsonView::Object(seq![("interactivePty"@, JsonView::Bool(false))]),
            ),
        ],
    )
}

/// A JSON-RPC request.
pub open spec fn request_tree(id: IdView, method: Seq<char>, params: JsonView) -> JsonView {
    JsonView::Object(
        seq![
            ("jsonrpc"@, text_tree(JSONRPC_VERSION@)),
            ("id"@, id_tree(id)),
            ("method"@, text_tree(method)),
            ("params"@, params),
        ],
    )
}

/// A JSON-RPC response that succeeds.
pub open spec fn success_tree(id: IdView, result: JsonView) -> JsonView {
    JsonView::Object(
        seq![
            ("jsonrpc"@, text_tree(JSONRPC_VERSION@)),
            ("id"@, id_tree(id)),
            ("result"@, result),
        ],
    )
}

/// A JSON-RPC response that fails.
pub open spec fn failure_tree(id: IdView, code: int, message: Seq<char>) -> JsonView {
    JsonView::Object(
        seq![
            ("jsonrpc"@, text_tree(JSONRPC_VERSION@)),
            ("id"@, id_tree(id)),
            (
                "error"@,
                JsonView::Object(
                    seq![("code"@, JsonView::Integer(code)), ("message"@, text_tree(message))],
                ),
            ),
        ],
    )
}

/// A JSON-RPC notification.
pub open spec fn notification_tree(method: Seq<char>, params: JsonView) -> JsonView {
    JsonView::Object(
        seq![
            ("jsonrpc"@, text_tree(JSONRPC_VERSION@)),
            ("method"@, text_tree(method)),
            ("params"@, params),
        ],
    )
}

/// The method of the event that carries output of a stream.
pub open spec fn output_method(stream: OutputStream) -> Seq<char> {
    match stream {
        OutputStream::Stdout => METHOD_ZSH_EVENT_EXEC_STDOUT@,
        OutputStream::Stderr => METHOD_ZSH_EVENT_EXEC_STDERR@,
    }
}

/// The JSON form of a message.
pub open spec fn message_tree(message: MessageView) -> JsonView {
    match message {
        MessageView::ApprovalRequest { id, params } => request_tree(
            id,
            METHOD_ZSH_REQUEST_APPROVAL@,
            approval_params_tree(params),
        ),
        MessageView::Initialized { id } => success_tree(id, initialize_result_tree()),
        MessageView::Done { id } => success_tree(id, JsonView::Object(seq![])),
        MessageView::Failed { id, code, message } => failure_tree(id, code, message),
        MessageView::ExecStarted { exec_id } => notification_tree(
            METHOD_ZSH_EVENT_EXEC_STARTED@,
            JsonView::Object(seq![("execId"@, text_tree(exec_id))]),
        ),
        MessageView::ExecOutput { stream, exec_id, chunk_base64 } => notification_tree(
            output_method(stream),
            JsonView::Object(
                seq![
                    ("execId"@, text_tree(exec_id)),
                    ("chunkBase64"@, text_tree(chunk_base64)),
                ],
            ),
        ),
        MessageView::ExecExited { exec_id, exit_code, signal, timed_out } => notification_tree(
            METHOD_ZSH_EVENT_EXEC_EXITED@,
            JsonView::Object(
                seq![
                    ("execId"@, text_tree(exec_id)),
                    ("exitCode"@, JsonView::Integer(exit_code)),
                    ("signal"@, optional_tree(signal)),
                    ("timedOut"@, flag_tree(timed_out)),
                ],
            ),
        ),
    }
}

pub(crate) fn pair(name: &str, value: Json) -> (member: (String, Json))
    ensures
        member.0@ == name@,
        member.1@ == value@,
{
    (name.to_owned(), value)
}

pub(crate) fn text_json(text: &str) -> (json: Json)
    ensures
        json@ == text_tree(text@),
{
    Json::Text(text.to_owned())
}

pub(crate) fn texts_json(strings: &Vec<String>) -> (json: Json)
    ensures
        json@ == texts_tree(texts(strings@)),
{
    let mut items: Vec<Json> = Vec::new();
    let mut i: usize = 0;
    while i < strings.len()
        invariant
            i <= strings@.len(),
            items@.len() == i,
            forall|j: int| 0 <= j < i ==> (#[trigger] items@[j])@ == JsonView::Text(strings@[j]@),
        decreases strings@.len() - i,
    {
        items.push(Json::Text(strings[i].clone()));
        i += 1;
    }
    let json = array(items);
    assert(json@->Array_0 =~= texts_tree(texts(strings@))->Array_0);
    json
}

pub(crate) fn optional_json(text: &Option<String>) -> (json: Json)
    ensures
        json@ == optional_tree(optional_text(*text)),
{
    match text {
        Some(text) => Json::Text(text.clone()),
        None => Json::Null,
    }
}

fn flag_json(flag: &Option<bool>) -> (json: Json)
    ensures
        json@ == flag_tree(*flag),
{
    match flag {
        Some(flag) => Json::Bool(*flag),
        None => Json::Null,
    }
}

fn id_json(id: &JsonRpcId) -> (json: Json)
    ensures
        json@ == id_tree(id@),
{
    match id {
        JsonRpcId::Number(n) => Json::Integer(*n as i128),
        JsonRpcId::Text(text) => Json::Text(text.clone()),
    }
}

fn proposal_json(proposal: &Option<ExecPolicyAmendmentProposal>) -> (json: Json)
    ensures
        json@ == proposal_tree(
            match *proposal {
                Some(proposal) => Some(proposal@),
                None => None,
            },
        ),
{
    match proposal {
        None => Json::Null,
        Some(proposal) => {
            let json = object(
                vec![
                    pair("commandPrefix", texts_json(&proposal.command_prefix)),
                    pair("rationale", optional_json(&proposal.rationale)),
                ],
            );
            assert(json@->Object_0 =~= proposal_tree(Some(proposal@))->Object_0);
            json
        },
    }
}

fn approval_params_json(params: &RequestApprovalParams) -> (json: Json)
    ensures
        json@ == approval_params_tree(params@),
{
    let json = object(
        vec![
            pair("approvalId", text_json(params.approval_id.as_str())),
            pair("execId", text_json(params.exec_id.as_str())),
            pair("command", texts_json(&params.command)),
            pair("cwd", text_json(params.cwd.as_str())),
            pair("reason", text_json(params.reason.as_str())),
            pair(
                "proposedExecpolicyAmendment",
                proposal_json(&params.proposed_execpolicy_amendment),
            ),
        ],
    );
    assert(json@->Object_0 =~= approval_params_tree(params@)->Object_0);
    json
}

fn initialize_result_json() -> (json: Json)
    ensures
        json@ == initialize_result_tree(),
{
    let capabilities = object(vec![pair("interactivePty", Json::Bool(false))]);
    assert(capabilities@->Object_0 =~= seq![("interactivePty"@, JsonView::Bool(false))]);
    let json = object(
        vec![
            pair("protocolVersion", Json::Integer(PROTOCOL_VERSION as i128)),
            pair("capabilities", capabilities),
        ],
    );
    assert(json@->Object_0 =~= initialize_result_tree()->Object_0);
    json
}

fn request_json(id: &JsonRpcId, params: &RequestApprovalParams) -> (json: Json)
    ensures
        json@ == request_tree(id@, METHOD_ZSH_REQUEST_APPROVAL@, approval_params_tree(params@)),
{
    let json = object(
        vec![
            pair("jsonrpc", text_json(JSONRPC_VERSION)),
            pair("id", id_json(id)),
            pair("method", text_json(METHOD_ZSH_REQUEST_APPROVAL)),
            pair("params", approval_params_json(params)),
        ],
    );
    assert(json@->Object_0 =~= request_tree(
        id@,
        METHOD_ZSH_REQUEST_APPROVAL@,
        approval_params_tree(params@),
    )->Object_0);
    json
}

fn success_json(id: &JsonRpcId, result: Json) -> (json: Json)
    ensures
        json@ == success_tree(id@, result@),
{
    let json = object(
        vec![
            pair("jsonrpc", text_json(JSONRPC_VERSION)),
            pair("id", id_json(id)),
            pair("result", result),
        ],
    );
    assert(json@->Object_0 =~= success_tree(id@, result@)->Object_0);
    json
}

fn failure_json(id: &JsonRpcId, code: i64, message: &String) -> (json: Json)
    ensures
        json@ == failure_tree(id@, code as int, message@),
{
    let error = object(
        vec![
            pair("code", Json::Integer(code as i128)),
            pair("message", text_json(message.as_str())),
        ],
    );
    assert(error@->Object_0 =~= seq![
        ("code"@, JsonView::Integer(code as int)),
        ("message"@, text_tree(message@)),
    ]);
    let json = object(
        vec![
            pair("jsonrpc", text_json(JSONRPC_VERSION)),
            pair("id", id_json(id)),
            pair("error", error),
        ],
    );
    assert(json@->Object_0 =~= failure_tree(id@, code as int, message@)->Object_0);
    json
}

fn notification_json(method: &str, params: Json) -> (json: Json)
    ensures
        json@ == notification_tree(method@, params@),
{
    let json = object(
        vec![
            pair("jsonrpc", text_json(JSONRPC_VERSION)),
            pair("method", text_json(method)),
            pair("params", params),
        ],
    );
    assert(json@->Object_0 =~= notification_tree(method@, params@)->Object_0);
    json
}

impl Message {
    /// The JSON form of this message.
    pub fn to_json(&self) -> (json: Json)
        ensures
            json@ == message_tree(self@),
    {
        match self {
            Message::ApprovalRequest { id, params } => request_json(id, params),
            Message::Initialized { id } => success_json(id, initialize_result_json()),
            Message::Done { id } => {
                let empty = object(vec![]);
                assert(empty@->Object_0 =~= seq![]);
                success_json(id, empty)
            },
            Message::Failed { id, code, message } => failure_json(id, *code, message),
            Message::ExecStarted { exec_id } => {
                let params = object(vec![pair("execId", text_json(exec_id.as_str()))]);
                assert(params@->Object_0 =~= seq![("execId"@, text_tree(exec_id@))]);
                notification_json(METHOD_ZSH_EVENT_EXEC_STARTED, params)
            },
            Message::ExecOutput { stream, exec_id, chunk_base64 } => {
                let params = object(
                    vec![
                        pair("execId", text_json(exec_id.as_str())),
                        pair("chunkBase64", text_json(chunk_base64.as_str())),
                    ],
                );
                assert(params@->Object_0 =~= seq![
                    ("execId"@, text_tree(exec_id@)),
                    ("chunkBase64"@, text_tree(chunk_base64@)),
                ]);
                match stream {
                    OutputStream::Stdout => notification_json(METHOD_ZSH_EVENT_EXEC_STDOUT, params),
                    OutputStream::Stderr => notification_json(METHOD_ZSH_EVENT_EXEC_STDERR, params),
                }
            },
            Message::ExecExited { exec_id, exit_code, signal, timed_out } => {
                let params = object(
                    vec![
                        pair("execId", text_json(exec_id.as_str())),
                        pair("exitCode", Json::Integer(*exit_code as i128)),
                        pair("signal", optional_json(signal)),
                        pair("timedOut", flag_json(timed_out)),
                    ],
                );
                assert(params@->Object_0 =~= seq![
                    ("execId"@, text_tree(exec_id@)),
                    ("exitCode"@, JsonView::Integer(*exit_code as int)),
                    ("signal"@, optional_tree(optional_text(*signal))),
                    ("timedOut"@, flag_tree(*timed_out)),
                ]);
                notification_json(METHOD_ZSH_EVENT_EXEC_EXITED, params)
            },
        }
    }
}

/// Numbers that a message can hold: identifiers and codes of 64 bits, exit codes of 32.
pub open spec fn sendable(message: MessageView) -> bool {
    match message {
        MessageView::ApprovalRequest { id, .. } => sendable_id(id),
        MessageView::Initialized { id } => sendable_id(id),
        MessageView::Done { id } => sendable_id(id),
        MessageView::Failed { id, code, .. } => sendable_id(id) && i64::MIN <= code <= i64::MAX,
        MessageView::ExecExited { exit_code, .. } => i32::MIN <= exit_code <= i32::MAX,
        _ => true,
    }
}

/// An identifier whose number fits 64 bits.
pub open spec fn sendable_id(id: IdView) -> bool {
    id matches IdView::Number(n) ==> i64::MIN <= n <= i64::MAX
}

pub proof fn lemma_texts_are_exact(strings: Seq<Seq<char>>, depth: nat)
    requires
        depth > 0,
    ensures
        exact(texts_tree(strings)),
        nested_within(texts_tree(strings), depth),
{
    reveal_with_fuel(exact, 2);
    reveal_with_fuel(nested_within, 2);
}

proof fn lemma_proposal_is_exact(proposal: Option<ProposalView>)
    ensures
        exact(proposal_tree(proposal)),
        nested_within(proposal_tree(proposal), 125),
{
    if let Some(proposal) = proposal {
        let tree = proposal_tree(Some(proposal));
        let members = tree->Object_0;
        reveal_strlit("commandPrefix");
        assert("commandPrefix"@.len() == 13);
        reveal_strlit("rationale");
        assert("rationale"@.len() == 9);
        lemma_texts_are_exact(proposal.command_prefix, 124);
        assert(members[0].1 == texts_tree(proposal.command_prefix));
        assert(members[1].1 == optional_tree(proposal.rationale));
        assert(names_differ(members));
        assert(forall|i: int| 0 <= i < members.len() ==> exact((#[trigger] members[i]).1));
        assert(forall|i: int|
            0 <= i < members.len() ==> nested_within((#[trigger] members[i]).1, 124));
    }
}

proof fn lemma_approval_params_are_exact(params: ApprovalParamsView)
    ensures
        exact(approval_params_tree(params)),
        nested_within(approval_params_tree(params), 126),
{
    let members = approval_params_tree(params)->Object_0;
    reveal_strlit("approvalId");
    assert("approvalId"@.len() == 10);
    reveal_strlit("execId");
    assert("execId"@.len() == 6);
    reveal_strlit("command");
    assert("command"@.len() == 7);
    reveal_strlit("cwd");
    assert("cwd"@.len() == 3);
    reveal_strlit("reason");
    assert("reason"@.len() == 6);
    reveal_strlit("proposedExecpolicyAmendment");
    assert("proposedExecpolicyAmendment"@.len() == 27);
    assert("execId"@[0] != "reason"@[0]);
    lemma_texts_are_exact(params.command, 125);
    lemma_proposal_is_exact(params.proposed_execpolicy_amendment);
    assert(members[2].1 == texts_tree(params.command));
    assert(members[5].1 == proposal_tree(params.proposed_execpolicy_amendment));
    assert(names_differ(members));
    assert(forall|i: int| 0 <= i < members.len() ==> exact((#[trigger] members[i]).1));
    assert(forall|i: int| 0 <= i < members.len() ==> nested_within((#[trigger] members[i]).1, 125));
}

/// A JSON-RPC message around exact contents is exact.
pub proof fn lemma_envelope_is_exact(members: Seq<(Seq<char>, JsonView)>)
    requires
        names_differ(members),
        forall|i: int| 0 <= i < members.len() ==> exact((#[trigger] members[i]).1),
        forall|i: int| 0 <= i < members.len() ==> nested_within((#[trigger] members[i]).1, 126),
    ensures
        exact(JsonView::Object(members)),
        nested_within(JsonView::Object(members), 127),
{
}

/// An object whose members are neither arrays nor objects is exact.
pub proof fn lemma_flat_is_exact(members: Seq<(Seq<char>, JsonView)>, depth: nat)
    requires
        depth > 0,
        names_differ(members),
        forall|i: int|
            0 <= i < members.len() ==> {
                ||| (#[trigger] members[i]).1 is Text
                ||| members[i].1 is Null
                ||| members[i].1 is Bool
                ||| members[i].1 matches JsonView::Integer(n) && i64::MIN <= n <= i64::MAX
            },
    ensures
        exact(JsonView::Object(members)),
        nested_within(JsonView::Object(members), depth),
{
    reveal_with_fuel(exact, 2);
    reveal_with_fuel(nested_within, 2);
}

/// Every message can be written without loss: no object in it names a member twice, its
/// numbers fit, and it is nested less deep than a reader goes.
pub proof fn law_message_is_exact(message: MessageView)
    requires
        sendable(message),
    ensures
        exact(message_tree(message)),
        nested_within(message_tree(message), 127),
{
    reveal_strlit("jsonrpc");
    assert("jsonrpc"@.len() == 7);
    reveal_strlit("id");
    assert("id"@.len() == 2);
    reveal_strlit("method");
    assert("method"@.len() == 6);
    reveal_strlit("params");
    assert("params"@.len() == 6);
    reveal_strlit("result");
    assert("result"@.len() == 6);
    reveal_strlit("error");
    assert("error"@.len() == 5);
    assert("method"@[0] != "params"@[0]);
    let members = message_tree(message)->Object_0;
    match message {
        MessageView::ApprovalRequest { id, params } => {
            lemma_approval_params_are_exact(params);
            assert(members[3].1 == approval_params_tree(params));
        },
        MessageView::Initialized { id } => {
            reveal_strlit("protocolVersion");
            assert("protocolVersion"@.len() == 15);
            reveal_strlit("capabilities");
            assert("capabilities"@.len() == 12);
            let result = initialize_result_tree()->Object_0;
            lemma_flat_is_exact(result[1].1->Object_0, 125);
            assert(names_differ(result));
            assert(forall|i: int| 0 <= i < result.len() ==> exact((#[trigger] result[i]).1));
            assert(forall|i: int|
                0 <= i < result.len() ==> nested_within((#[trigger] result[i]).1, 125));
            assert(members[2].1 == initialize_result_tree());
        },
        MessageView::Failed { id, code, message } => {
            reveal_strlit("code");
            assert("code"@.len() == 4);
            reveal_strlit("message");
            assert("message"@.len() == 7);
            lemma_flat_is_exact(members[2].1->Object_0, 126);
        },
        MessageView::ExecOutput { .. } => {
            reveal_strlit("execId");
            assert("execId"@.len() == 6);
            reveal_strlit("chunkBase64");
            assert("chunkBase64"@.len() == 11);
            lemma_flat_is_exact(members[2].1->Object_0, 126);
        },
        MessageView::ExecExited { .. } => {
            reveal_strlit("execId");
            assert("execId"@.len() == 6);
            reveal_strlit("exitCode");
            assert("exitCode"@.len() == 8);
            reveal_strlit("signal");
            assert("signal"@.len() == 6);
            reveal_strlit("timedOut");
            assert("timedOut"@.len() == 8);
            assert("execId"@[0] != "signal"@[0]);
            assert("exitCode"@[0] != "timedOut"@[0]);
            lemma_flat_is_exact(members[2].1->Object_0, 126);
        },
        _ => {
            lemma_flat_is_exact(members[2].1->Object_0, 126);
        },
    }
    lemma_envelope_is_exact(members);
}

/// The line on which a value is sent: its JSON text and a line break.
pub open spec fn line_of(tree: JsonView) -> Seq<char> {
    written(tree).push('\n')
}

/// Whether a line carries a value: it is the line on which the value is sent, it is not blank and
/// has one line break, at its end, and it is read as the value, by one who takes off the line
/// break and by one who takes off the white space around it.
pub open spec fn carries(line: Seq<char>, tree: JsonView) -> bool {
    &&& line == line_of(tree)
    &&& !line.drop_last().contains('\n')
    &&& trimmed(line).len() > 0
    &&& trimmed(line) == line.drop_last()
    &&& parsed(line.drop_last()) == reading(tree)
}

/// The line on which a value is sent. It is not blank, and has one line break, at its end. What is
/// left of it without the white space around it stands before the line break, and is read as the
/// value where that is nested no deeper than a reader goes.
pub fn json_line(json: &Json) -> (line: String)
    requires
        exact(json@),
    ensures
        line@ == line_of(json@),
        !line@.drop_last().contains('\n'),
        trimmed(line@).len() > 0,
        trimmed(line@) == line@.drop_last(),
        nested_within(json@, 127) ==> carries(line@, json@),
{
    proof {
        reveal_strlit("\n");
    }
    let text = json_text(json);
    let line = text.concat("\n");
    proof {
        assert("\n"@ =~= seq!['\n']);
        assert(line@ =~= line_of(json@));
        assert(line@.drop_last() =~= text@);
        lemma_line_is_trimmed(text@);
    }
    line
}

/// The line on which a message is sent.
pub fn message_line(message: &Message) -> (line: String)
    ensures
        carries(line@, message_tree(message@)),
{
    proof {
        law_message_is_exact(message@);
    }
    json_line(&message.to_json())
}

/// Lists of strings with the same JSON form are the same.
pub proof fn lemma_texts_differ(left: Seq<Seq<char>>, right: Seq<Seq<char>>)
    requires
        texts_tree(left) == texts_tree(right),
    ensures
        left == right,
{
    let trees = texts_tree(left)->Array_0;
    assert(trees.len() == left.len() && trees.len() == right.len());
    assert forall|i: int| 0 <= i < left.len() implies left[i] == right[i] by {
        assert(trees[i] == JsonView::Text(left[i]));
        assert(trees[i] == JsonView::Text(right[i]));
    }
    assert(left =~= right);
}

/// The outline of the JSON form of a message: how many members it has, what the third is named,
/// and how many members that has.
proof fn lemma_outline(message: MessageView)
    ensures
        message_tree(message) is Object,
        ({
            let members = message_tree(message)->Object_0;
            let inner = members[2].1->Object_0;
            match message {
                MessageView::ApprovalRequest { .. } => members.len() == 4,
                MessageView::Initialized { .. } => members.len() == 3 && members[2].0 == "result"@
                    && inner.len() == 2,
                MessageView::Done { .. } => members.len() == 3 && members[2].0 == "result"@
                    && inner.len() == 0,
                MessageView::Failed { .. } => members.len() == 3 && members[2].0 == "error"@,
                MessageView::ExecStarted { .. } => members.len() == 3 && members[2].0 == "params"@
                    && inner.len() == 1,
                MessageView::ExecOutput { .. } => members.len() == 3 && members[2].0 == "params"@
                    && inner.len() == 2,
                MessageView::ExecExited { .. } => members.len() == 3 && members[2].0 == "params"@
                    && inner.len() == 4,
            }
        }),
{
}

/// No two messages have the same JSON form: the host can tell what was sent.
pub proof fn law_messages_are_told_apart(left: MessageView, right: MessageView)
    requires
        message_tree(left) == message_tree(right),
    ensures
        left == right,
{
    reveal_strlit("result");
    reveal_strlit("error");
    reveal_strlit("params");
    reveal_strlit("zsh/event/execStdout");
    reveal_strlit("zsh/event/execStderr");
    lemma_outline(left);
    lemma_outline(right);
    let a = message_tree(left)->Object_0;
    let b = message_tree(right)->Object_0;
    assert(a.len() == b.len());
    assert(a[1] == b[1] && a[2] == b[2]);
    match (left, right) {
        (
            MessageView::ApprovalRequest { params: p, .. },
            MessageView::ApprovalRequest { params: q, .. },
        ) => {
            assert(a[3] == b[3]);
            let c = approval_params_tree(p)->Object_0;
            let d = approval_params_tree(q)->Object_0;
            assert(c[0] == d[0] && c[1] == d[1] && c[2] == d[2] && c[3] == d[3] && c[4] == d[4] && c[5]
                == d[5]);
            lemma_texts_differ(p.command, q.command);
            match (p.proposed_execpolicy_amendment, q.proposed_execpolicy_amendment) {
                (Some(x), Some(y)) => {
                    let e = proposal_tree(Some(x))->Object_0;
                    let f = proposal_tree(Some(y))->Object_0;
                    assert(e[0] == f[0] && e[1] == f[1]);
                    lemma_texts_differ(x.command_prefix, y.command_prefix);
                },
                _ => {},
            }
        },
        (MessageView::Failed { .. }, MessageView::Failed { .. }) => {
            let c = a[2].1->Object_0;
            let d = b[2].1->Object_0;
            assert(c[0] == d[0] && c[1] == d[1]);
        },
        (MessageView::ExecStarted { .. }, MessageView::ExecStarted { .. }) => {
            let c = a[2].1->Object_0;
            let d = b[2].1->Object_0;
            assert(c[0] == d[0]);
        },
        (MessageView::ExecOutput { .. }, MessageView::ExecOutput { .. }) => {
            let c = a[2].1->Object_0;
            let d = b[2].1->Object_0;
            assert(c[0] == d[0] && c[1] == d[1]);
            assert("zsh/event/execStdout"@[17] == 'o' && "zsh/event/execStderr"@[17] == 'e');
        },
        (MessageView::ExecExited { .. }, MessageView::ExecExited { .. }) => {
            let c = a[2].1->Object_0;
            let d = b[2].1->Object_0;
            assert(c[0] == d[0] && c[1] == d[1] && c[2] == d[2] && c[3] == d[3]);
        },
        _ => {
            assert("result"@.len() == 6 && "error"@.len() == 5 && "params"@.len() == 6);
            assert("result"@[0] == 'r' && "params"@[0] == 'p');
        },
    }
}

/// An identifier is read back as it was sent, so that an answer finds its request.
pub proof fn law_identifier_is_read_back(id: IdView)
    requires
        sendable_id(id),
    ensures
        JsonRpcId::from_tree(id_tree(id)) == Ok::<IdView, Seq<char>>(id),
{
}

} // verus!
