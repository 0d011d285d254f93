//! What the views of the library's types show: every field, whole.

use crate::approval::{ApprovalDecision, RequestApprovalResult};
use crate::decode::{optional_text_pairs, text_pairs, texts};
use crate::environment::{optional_endpoint, WrapperEndpoint};
use crate::error::{ErrorView, SidecarError};
use crate::json::{Json, JsonView};
use crate::message::{
    optional_text, ExecPolicyAmendmentProposal, Message, MessageView, RequestApprovalParams,
};
use crate::params::{ExecInterruptParams, ExecStartParams, IdView, JsonRpcId};
use crate::session::{
    outcome, Action, ActionView, Event, EventView, LaunchPlan, Notice, NoticeView, Run, Session,
    SessionView, Step, StepView,
};
use crate::wrapper::{
    WrapperAction, WrapperActionView, WrapperEvent, WrapperEventView, WrapperExecAction,
    WrapperExecRequest, WrapperExecResponse, WrapperMode, WrapperModeView,
};
use vstd::prelude::*;
use vstd::string::*;

verus! {

/// Whether words are the texts of some strings, one for one.
pub open spec fn shows_words(words: Seq<Seq<char>>, strings: Seq<String>) -> bool {
    &&& words.len() == strings.len()
    &&& forall|i: int| 0 <= i < strings.len() ==> (#[trigger] words[i]) == strings[i]@
}

/// Whether variables are the texts of some pairs of strings, one for one.
pub open spec fn shows_variables(
    variables: Option<Seq<(Seq<char>, Seq<char>)>>,
    pairs: Option<Vec<(String, String)>>,
) -> bool {
    match (variables, pairs) {
        (None, None) => true,
        (Some(variables), Some(pairs)) => {
            &&& variables.len() == pairs@.len()
            &&& forall|i: int|
                0 <= i < pairs@.len() ==> (#[trigger] variables[i]) == (
                    pairs@[i].0@,
                    pairs@[i].1@,
                )
        },
        _ => false,
    }
}

/// Whether an optional text is that of an optional string.
pub open spec fn shows_optional(text: Option<Seq<char>>, string: Option<String>) -> bool {
    match (text, string) {
        (None, None) => true,
        (Some(text), Some(string)) => text == string@,
        _ => false,
    }
}

/// The texts of strings, of pairs of strings and of optional strings are theirs, one for one.
pub proof fn law_texts_are_shown(
    strings: Seq<String>,
    pairs: Option<Vec<(String, String)>>,
    string: Option<String>,
)
    ensures
        shows_words(texts(strings), strings),
        shows_variables(optional_text_pairs(pairs), pairs),
        pairs is Some ==> text_pairs(pairs->0@) == optional_text_pairs(pairs)->0,
        shows_optional(optional_text(string), string),
{
}

/// A JSON value shows its numbers and texts, every item and every member, in order.
pub proof fn law_json_is_shown(json: Json)
    ensures
        match json {
            Json::Null => json@ == JsonView::Null,
            Json::Bool(b) => json@ == JsonView::Bool(b),
            Json::Integer(n) => json@ == JsonView::Integer(n as int),
            Json::Float(text) => json@ == JsonView::Float(text@),
            Json::Text(text) => json@ == JsonView::Text(text@),
            Json::Array(items) => {
                &&& json@ is Array
                &&& json@->Array_0.len() == items@.len()
                &&& forall|i: int|
                    0 <= i < items@.len() ==> (#[trigger] json@->Array_0[i]) == items@[i]@
            },
            Json::Object(members) => {
                &&& json@ is Object
                &&& json@->Object_0.len() == members@.len()
                &&& forall|i: int|
                    0 <= i < members@.len() ==> (#[trigger] json@->Object_0[i]) == (
                        members@[i].0@,
                        members@[i].1@,
                    )
            },
        },
{
}

/// What the host sends is shown whole.
pub proof fn law_host_words_are_shown(
    id: JsonRpcId,
    start: ExecStartParams,
    interrupt: ExecInterruptParams,
)
    ensures
        id matches JsonRpcId::Number(n) ==> id@ == IdView::Number(n as int),
        id matches JsonRpcId::Text(text) ==> id@ == IdView::Text(text@),
        start@.exec_id == start.exec_id@,
        shows_words(start@.command, start.command@),
        start@.cwd == start.cwd@,
        shows_variables(start@.env, start.env),
        interrupt@.exec_id == interrupt.exec_id@,
{
}

/// A question to the host is shown whole.
pub proof fn law_question_is_shown(
    params: RequestApprovalParams,
    proposal: ExecPolicyAmendmentProposal,
)
    ensures
        params@.approval_id == params.approval_id@,
        params@.exec_id == params.exec_id@,
        shows_words(params@.command, params.command@),
        params@.cwd == params.cwd@,
        params@.reason == params.reason@,
        match params.proposed_execpolicy_amendment {
            Some(proposed) => params@.proposed_execpolicy_amendment == Some(proposed@),
            None => params@.proposed_execpolicy_amendment is None,
        },
        shows_words(proposal@.command_prefix, proposal.command_prefix@),
        shows_optional(proposal@.rationale, proposal.rationale),
{
}

/// A message to the host is shown whole.
pub proof fn law_message_is_shown(message: Message)
    ensures
        match message {
            Message::ApprovalRequest { id, params } => message@ == MessageView::ApprovalRequest {
                id: id@,
                params: params@,
            },
            Message::Initialized { id } => message@ == MessageView::Initialized { id: id@ },
            Message::Done { id } => message@ == MessageView::Done { id: id@ },
            Message::Failed { id, code, message: text } => message@ == MessageView::Failed {
                id: id@,
                code: code as int,
                message: text@,
            },
            Message::ExecStarted { exec_id } => message@ == MessageView::ExecStarted {
                exec_id: exec_id@,
            },
            Message::ExecOutput { stream, exec_id, chunk_base64 } => message@
                == MessageView::ExecOutput {
                stream,
                exec_id: exec_id@,
                chunk_base64: chunk_base64@,
            },
            Message::ExecExited { exec_id, exit_code, signal, timed_out } => {
                &&& message@ is ExecExited
                &&& message@->ExecExited_exec_id == exec_id@
                &&& message@->exit_code == exit_code
                &&& shows_optional(message@->signal, signal)
                &&& message@->timed_out == timed_out
            },
        },
{
}

/// A plan and a run are shown whole.
pub proof fn law_plan_and_run_are_shown(plan: LaunchPlan, run: Run)
    ensures
        plan@.program == plan.program@,
        shows_words(plan@.args, plan.args@),
        plan@.cwd == plan.cwd@,
        shows_variables(plan@.env, plan.env),
        run@.exec_id == run.exec_id@,
        run@.exit == run.exit,
        run@.output_open == run.output_open,
{
}

/// A state is shown whole.
pub proof fn law_session_is_shown(session: Session)
    ensures
        match session {
            Session::Idle => session@ == SessionView::Idle,
            Session::AwaitingExecApproval { id, callback_id, exec_id, plan } => session@
                == SessionView::AwaitingExecApproval {
                id: id@,
                callback_id: callback_id@,
                exec_id: exec_id@,
                plan: plan@,
            },
            Session::Launching { id, exec_id } => session@ == SessionView::Launching {
                id: id@,
                exec_id: exec_id@,
            },
            Session::Running { run } => session@ == SessionView::Running { run: run@ },
            Session::AwaitingSubcommandApproval { run, callback_id } => session@
                == SessionView::AwaitingSubcommandApproval { run: run@, callback_id: callback_id@ },
            Session::Finishing { exec_id, exit } => session@ == SessionView::Finishing {
                exec_id: exec_id@,
                exit,
            },
            Session::Closed => session@ == SessionView::Closed,
        },
{
}

/// An event is shown whole.
pub proof fn law_event_is_shown(event: Event)
    ensures
        match event {
            Event::Line(line) => event@ == EventView::Line(line@),
            Event::InputClosed => event@ == EventView::InputClosed,
            Event::Spawned => event@ == EventView::Spawned,
            Event::SpawnFailed(error) => event@ == EventView::SpawnFailed(error@),
            Event::Exited(exit) => event@ == EventView::Exited(exit),
            Event::Output { stream, chunk } => event@ == EventView::Output {
                stream,
                chunk: chunk@,
            },
            Event::OutputClosed => event@ == EventView::OutputClosed,
            Event::Intercepted { request, callback_token, approval_token } => event@
                == EventView::Intercepted {
                request: request@,
                callback_token: callback_token@,
                approval_token: approval_token@,
            },
            Event::Released => event@ == EventView::Released,
        },
{
}

/// A step is shown whole: the state, every message in order, the action and the notice.
pub proof fn law_step_is_shown(step: Step)
    ensures
        step@.session == step.session@,
        step@.messages.len() == step.messages@.len(),
        forall|i: int|
            0 <= i < step.messages@.len() ==> (#[trigger] step@.messages[i])
                == step.messages@[i]@,
        step@.action == step.action@,
        match step.action {
            Action::Read => step@.action == ActionView::Read,
            Action::Launch(plan) => step@.action == ActionView::Launch(plan@),
            Action::Serve => step@.action == ActionView::Serve,
            Action::Answer(response) => step@.action == ActionView::Answer(response@),
            Action::Release => step@.action == ActionView::Release,
            Action::Exit => step@.action == ActionView::Exit,
        },
        match step.notice {
            None => step@.notice is None,
            Some(Notice::InvalidInput(error)) => step@.notice == Some(
                NoticeView::InvalidInput(error@),
            ),
            Some(Notice::InvalidId(error)) => step@.notice == Some(NoticeView::InvalidId(error@)),
            Some(Notice::UnexpectedAnswer) => step@.notice == Some(NoticeView::UnexpectedAnswer),
        },
{
}

/// What a step comes to is shown as it is, and so is an endpoint, where there is one.
pub proof fn law_outcome_is_shown(
    result: Result<Step, SidecarError>,
    endpoint: Option<WrapperEndpoint>,
)
    ensures
        match result {
            Ok(step) => outcome(result) == Ok::<StepView, ErrorView>(step@),
            Err(error) => outcome(result) == Err::<StepView, ErrorView>(error@),
        },
        match endpoint {
            Some(endpoint) => optional_endpoint(Some(endpoint)) == Some(endpoint@),
            None => optional_endpoint(endpoint) is None,
        },
{
}

/// Decisions and what a wrapper is told to do show themselves.
pub proof fn law_choices_are_shown(
    decision: ApprovalDecision,
    result: RequestApprovalResult,
    action: WrapperExecAction,
)
    ensures
        decision@ == decision,
        result@ == result.decision,
        action@ == action,
{
}

/// What is said between a wrapper and the sidecar is shown whole.
pub proof fn law_wrapper_words_are_shown(
    request: WrapperExecRequest,
    response: WrapperExecResponse,
    endpoint: WrapperEndpoint,
)
    ensures
        request@.file == request.file@,
        shows_words(request@.argv, request.argv@),
        request@.cwd == request.cwd@,
        response@.action == response.action,
        shows_optional(response@.reason, response.reason),
        endpoint@.socket_path == endpoint.socket_path@,
        endpoint@.wrapper_path == endpoint.wrapper_path@,
{
}

/// How far a wrapper has come, what happens to it and what it does are shown whole.
pub proof fn law_wrapper_mode_is_shown(
    mode: WrapperMode,
    event: WrapperEvent,
    action: WrapperAction,
)
    ensures
        match mode {
            WrapperMode::Starting => mode@ == WrapperModeView::Starting,
            WrapperMode::Locating { file, argv } => mode@ is Locating && mode@->Locating_file
                == file@ && shows_words(mode@->Locating_argv, argv@),
            WrapperMode::Connecting { request, socket_path } => mode@
                == WrapperModeView::Connecting { request: request@, socket_path: socket_path@ },
            WrapperMode::Asking { file, argv } => mode@ is Asking && mode@->Asking_file == file@
                && shows_words(mode@->Asking_argv, argv@),
            WrapperMode::Running => mode@ == WrapperModeView::Running,
            WrapperMode::Done => mode@ == WrapperModeView::Done,
        },
        match event {
            WrapperEvent::Invoked { args, unix } => event@ is Invoked && shows_words(
                event@->args,
                args@,
            ) && event@->unix == unix,
            WrapperEvent::Located { cwd, socket_path: Ok(path) } => event@
                == WrapperEventView::Located { cwd: cwd@, socket_path: Ok(path@) },
            WrapperEvent::Located { cwd, socket_path: Err(cause) } => event@
                == WrapperEventView::Located { cwd: cwd@, socket_path: Err(cause@) },
            WrapperEvent::Connected => event@ == WrapperEventView::Connected,
            WrapperEvent::ConnectFailed(cause) => event@ == WrapperEventView::ConnectFailed(cause@),
            WrapperEvent::Answered(Ok(response)) => event@ == WrapperEventView::Answered(
                Ok(response@),
            ),
            WrapperEvent::Answered(Err(error)) => event@ == WrapperEventView::Answered(
                Err(error@),
            ),
            WrapperEvent::Exited(code) => event@ == WrapperEventView::Exited(code),
        },
        match action {
            WrapperAction::Locate => action@ == WrapperActionView::Locate,
            WrapperAction::Connect { socket_path } => action@ == WrapperActionView::Connect {
                socket_path: socket_path@,
            },
            WrapperAction::Ask { line } => action@ == WrapperActionView::Ask { line: line@ },
            WrapperAction::Refuse { notice, code } => action@ == WrapperActionView::Refuse {
                notice: notice@,
                code,
            },
            WrapperAction::Run { program, args } => action@ is Run && action@->program == program@
                && shows_words(action@->Run_args, args@),
            WrapperAction::Exit { code } => action@ == WrapperActionView::Exit { code },
        },
{
}

/// An error is shown whole.
pub proof fn law_error_is_shown(error: SidecarError)
    ensures
        match error {
            SidecarError::InputClosed => error@ == ErrorView::InputClosed,
            SidecarError::ApprovalMessage(cause) => error@ == ErrorView::ApprovalMessage(cause@),
            SidecarError::ApprovalId(cause) => error@ == ErrorView::ApprovalId(cause@),
            SidecarError::ApprovalRejected(text) => error@ == ErrorView::ApprovalRejected(text@),
            SidecarError::ApprovalResultMissing => error@ == ErrorView::ApprovalResultMissing,
            SidecarError::ApprovalResult(cause) => error@ == ErrorView::ApprovalResult(cause@),
            SidecarError::WrapperRequestBytes(cause) => error@ == ErrorView::WrapperRequestBytes(
                cause@,
            ),
            SidecarError::WrapperRequest(cause) => error@ == ErrorView::WrapperRequest(cause@),
            SidecarError::WrapperTargetMissing => error@ == ErrorView::WrapperTargetMissing,
            SidecarError::WrapperSocketMissing(cause) => error@ == ErrorView::WrapperSocketMissing(
                cause@,
            ),
            SidecarError::WrapperConnection { socket_path, cause } => error@
                == ErrorView::WrapperConnection { socket_path: socket_path@, cause: cause@ },
            SidecarError::WrapperResponse(cause) => error@ == ErrorView::WrapperResponse(cause@),
            SidecarError::WrapperUnsupported => error@ == ErrorView::WrapperUnsupported,
        },
{
}

} // verus!
