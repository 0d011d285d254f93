//! The session with the host: which state it is in, what an event makes of it, and what is to
//! be said and done then.

use crate::approval::{
    input_reply, refusal, refusal_reason, wait_for_approval_result, ApprovalDecision, ApprovalReply,
};
use crate::chunk::{base64_text, encodable, encode_base64, is_encodable};
use crate::decode::{
    member, optional_text_pairs, params_from, parse_params, text_of, texts, FromJson,
};
use crate::error::{ErrorView, SidecarError};
use crate::json::{parse_json, parsed, Json, JsonView};
use crate::message::{
    ApprovalParamsView, Message, MessageView, OutputStream, RequestApprovalParams,
    METHOD_ZSH_EXEC_INTERRUPT, METHOD_ZSH_EXEC_RESIZE, METHOD_ZSH_EXEC_START, METHOD_ZSH_EXEC_STDIN,
    METHOD_ZSH_INITIALIZE, METHOD_ZSH_SHUTDOWN,
};
use crate::params::{
    ExecInterruptParams, ExecInterruptParamsView, ExecStartParams, ExecStartParamsView, IdView,
    JsonRpcId,
};
use crate::text::{decimal, decimal_text, joined, same_text, trim, trimmed};
use crate::token::{draw_token, is_token};
use crate::wrapper::{
    arguments, arguments_of, wrapper_answer, wrapper_response, WrapperExecRequest,
    WrapperExecRequestView, WrapperExecResponse, WrapperExecResponseView,
};
use vstd::pervasive::{arbitrary, unreached};
use vstd::prelude::*;
use vstd::string::*;

verus! {

/// The code of an answer to a command that could not be started.
pub const SPAWN_FAILED: i64 = -32000;

/// The code of an answer about a run that is not known.
pub const UNKNOWN_EXEC_ID: i64 = -32002;

/// The code of an answer to a command that the host refused.
pub const NOT_APPROVED: i64 = -32003;

/// The code of an answer to a method that is not supported yet.
pub const NOT_SUPPORTED: i64 = -32004;

/// The code of an answer to a method that is not known.
pub const UNKNOWN_METHOD: i64 = -32601;

/// The code of an answer to parameters that cannot be read.
pub const INVALID_PARAMS: i64 = -32602;

/// How a command ended: with a code, or by a signal.
#[derive(Debug, Clone, Copy, PartialEq, Eq, Structural)]
pub struct ExitStatus {
    pub code: Option<i32>,
    pub signal: Option<i32>,
}

/// A command to start.
#[derive(Debug)]
pub struct LaunchPlan {
    pub program: String,
    pub args: Vec<String>,
    pub cwd: String,
    pub env: Option<Vec<(String, String)>>,
}

/// The values of a command to start.
pub struct LaunchPlanView {
    pub program: Seq<char>,
    pub args: Seq<Seq<char>>,
    pub cwd: Seq<char>,
    pub env: Option<Seq<(Seq<char>, Seq<char>)>>,
}

impl View for LaunchPlan {
    type V = LaunchPlanView;

    open spec fn view(&self) -> LaunchPlanView {
        LaunchPlanView {
            program: self.program@,
            args: texts(self.args@),
            cwd: self.cwd@,
            env: optional_text_pairs(self.env),
        }
    }
}

/// A command that runs: how it ended, if it has, and whether output can still come.
#[derive(Debug)]
pub struct Run {
    pub exec_id: String,
    pub exit: Option<ExitStatus>,
    pub output_open: bool,
}

/// The values of a command that runs.
pub struct RunView {
    pub exec_id: Seq<char>,
    pub exit: Option<ExitStatus>,
    pub output_open: bool,
}

impl View for Run {
    type V = RunView;

    open spec fn view(&self) -> RunView {
        RunView { exec_id: self.exec_id@, exit: self.exit, output_open: self.output_open }
    }
}

/// The state of a session.
#[derive(Debug)]
pub enum Session {
    /// Awaits a request.
    Idle,
    /// Awaits the host's decision about a command, under `callback_id`; request `id` asked to
    /// start it.
    AwaitingExecApproval {
        id: JsonRpcId,
        callback_id: JsonRpcId,
        exec_id: String,
        plan: LaunchPlan,
    },
    /// Starts a command.
    Launching { id: JsonRpcId, exec_id: String },
    /// Runs a command.
    Running { run: Run },
    /// Awaits the host's decision about a subcommand of a command that runs.
    AwaitingSubcommandApproval { run: Run, callback_id: JsonRpcId },
    /// Clears up behind a command that has ended.
    Finishing { exec_id: String, exit: ExitStatus },
    /// Has ended.
    Closed,
}

/// The values of the state of a session.
pub enum SessionView {
    Idle,
    AwaitingExecApproval {
        id: IdView,
        callback_id: IdView,
        exec_id: Seq<char>,
        plan: LaunchPlanView,
    },
    Launching { id: IdView, exec_id: Seq<char> },
    Running { run: RunView },
    AwaitingSubcommandApproval { run: RunView, callback_id: IdView },
    Finishing { exec_id: Seq<char>, exit: ExitStatus },
    Closed,
}

impl View for Session {
    type V = SessionView;

    open spec fn view(&self) -> SessionView {
        match self {
            Session::Idle => SessionView::Idle,
            Session::AwaitingExecApproval { id, callback_id, exec_id, plan } => {
                SessionView::AwaitingExecApproval {
                    id: id@,
                    callback_id: callback_id@,
                    exec_id: exec_id@,
                    plan: plan@,
                }
            },
            Session::Launching { id, exec_id } => SessionView::Launching {
                id: id@,
                exec_id: exec_id@,
            },
            Session::Running { run } => SessionView::Running { run: run@ },
            Session::AwaitingSubcommandApproval { run, callback_id } => {
                SessionView::AwaitingSubcommandApproval { run: run@, callback_id: callback_id@ }
            },
            Session::Finishing { exec_id, exit } => SessionView::Finishing {
                exec_id: exec_id@,
                exit: *exit,
            },
            Session::Closed => SessionView::Closed,
        }
    }
}

/// What happens to a session.
#[derive(Debug)]
pub enum Event {
    /// The host sent a line.
    Line(String),
    /// The host sends nothing more.
    InputClosed,
    /// The command was started.
    Spawned,
    /// The command could not be started; holds the reason.
    SpawnFailed(String),
    /// The command ended.
    Exited(ExitStatus),
    /// The command wrote something.
    Output { stream: OutputStream, chunk: Vec<u8> },
    /// No more output can come.
    OutputClosed,
    /// A subcommand was held up; two tokens tell the question about it apart from others.
    Intercepted {
        request: WrapperExecRequest,
        callback_token: String,
        approval_token: String,
    },
    /// What the command needed was cleared up.
    Released,
}

/// The values of what happens to a session.
pub enum EventView {
    Line(Seq<char>),
    InputClosed,
    Spawned,
    SpawnFailed(Seq<char>),
    Exited(ExitStatus),
    Output { stream: OutputStream, chunk: Seq<u8> },
    OutputClosed,
    Intercepted {
        request: WrapperExecRequestView,
        callback_token: Seq<char>,
        approval_token: Seq<char>,
    },
    Released,
}

impl View for Event {
    type V = EventView;

    open spec fn view(&self) -> EventView {
        match self {
            Event::Line(line) => EventView::Line(line@),
            Event::InputClosed => EventView::InputClosed,
            Event::Spawned => EventView::Spawned,
            Event::SpawnFailed(error) => EventView::SpawnFailed(error@),
            Event::Exited(exit) => EventView::Exited(*exit),
            Event::Output { stream, chunk } => EventView::Output { stream: *stream, chunk: chunk@ },
            Event::OutputClosed => EventView::OutputClosed,
            Event::Intercepted { request, callback_token, approval_token } => {
                EventView::Intercepted {
                    request: request@,
                    callback_token: callback_token@,
                    approval_token: approval_token@,
                }
            },
            Event::Released => EventView::Released,
        }
    }
}

/// What is to be done next, once the messages of a step are sent.
#[derive(Debug)]
pub enum Action {
    /// Read a line from the host.
    Read,
    /// Start a command.
    Launch(LaunchPlan),
    /// Await the end, the output or a subcommand of the command that runs.
    Serve,
    /// Answer the subcommand that is held up, then serve on.
    Answer(WrapperExecResponse),
    /// Clear up behind the command.
    Release,
    /// Exit.
    Exit,
}

/// The values of what is to be done next.
pub enum ActionView {
    Read,
    Launch(LaunchPlanView),
    Serve,
    Answer(WrapperExecResponseView),
    Release,
    Exit,
}

impl View for Action {
    type V = ActionView;

    open spec fn view(&self) -> ActionView {
        match self {
            Action::Read => ActionView::Read,
            Action::Launch(plan) => ActionView::Launch(plan@),
            Action::Serve => ActionView::Serve,
            Action::Answer(response) => ActionView::Answer(response@),
            Action::Release => ActionView::Release,
            Action::Exit => ActionView::Exit,
        }
    }
}

/// Input that was passed over.
#[derive(Debug)]
pub enum Notice {
    /// A line that is no JSON; holds the reader's error.
    InvalidInput(String),
    /// A message whose `id` is no identifier.
    InvalidId(String),
    /// An answer to something that was not asked.
    UnexpectedAnswer,
}

/// The values of input that was passed over.
pub enum NoticeView {
    InvalidInput(Seq<char>),
    InvalidId(Seq<char>),
    UnexpectedAnswer,
}

impl View for Notice {
    type V = NoticeView;

    open spec fn view(&self) -> NoticeView {
        match self {
            Notice::InvalidInput(error) => NoticeView::InvalidInput(error@),
            Notice::InvalidId(error) => NoticeView::InvalidId(error@),
            Notice::UnexpectedAnswer => NoticeView::UnexpectedAnswer,
        }
    }
}

/// What an event leads to: the next state, the messages to send, in order, what to do then, and
/// what was passed over.
#[derive(Debug)]
pub struct Step {
    pub session: Session,
    pub messages: Vec<Message>,
    pub action: Action,
    pub notice: Option<Notice>,
}

/// The values of what an event leads to.
pub struct StepView {
    pub session: SessionView,
    pub messages: Seq<MessageView>,
    pub action: ActionView,
    pub notice: Option<NoticeView>,
}

/// The values of a list of messages.
pub open spec fn messages_view(messages: Seq<Message>) -> Seq<MessageView> {
    Seq::new(messages.len(), |i: int| messages[i]@)
}

impl View for Step {
    type V = StepView;

    open spec fn view(&self) -> StepView {
        StepView {
            session: self.session@,
            messages: messages_view(self.messages@),
            action: self.action@,
            notice: match self.notice {
                Some(notice) => Some(notice@),
                None => None,
            },
        }
    }
}

/// Whether a run has come to its end: the command has ended and no more output can come.
pub open spec fn complete(run: RunView) -> bool {
    run.exit is Some && !run.output_open
}

/// The events that can happen to a session in a state.
pub open spec fn expects(session: SessionView, event: EventView) -> bool {
    match event {
        EventView::Line(_) | EventView::InputClosed => {
            ||| session is Idle
            ||| session is AwaitingExecApproval
            ||| session is AwaitingSubcommandApproval
        },
        EventView::Spawned | EventView::SpawnFailed(_) => session is Launching,
        EventView::Exited(_) => session matches SessionView::Running { run } && run.exit is None,
        EventView::Output { chunk, .. } => session matches SessionView::Running { run }
            && run.output_open && encodable(chunk.len()),
        EventView::OutputClosed => session matches SessionView::Running { run } && run.output_open,
        EventView::Intercepted { .. } => session is Running,
        EventView::Released => session is Finishing,
    }
}

/// A step that leaves everything as it is and reads on.
pub open spec fn unmoved(session: SessionView, notice: Option<NoticeView>) -> StepView {
    StepView { session, messages: seq![], action: ActionView::Read, notice }
}

/// A step that answers a request and awaits the next.
pub open spec fn answered(message: MessageView) -> StepView {
    StepView {
        session: SessionView::Idle,
        messages: seq![message],
        action: ActionView::Read,
        notice: None,
    }
}

/// A step that answers a request with an error.
pub open spec fn failed(id: IdView, code: int, message: Seq<char>) -> StepView {
    answered(MessageView::Failed { id, code, message })
}

/// The identifier under which the host decides about a command.
pub open spec fn exec_callback_id(exec_id: Seq<char>) -> Seq<char> {
    "approval-"@ + exec_id
}

/// The plan to start a command.
pub open spec fn plan_of(params: ExecStartParamsView) -> LaunchPlanView {
    LaunchPlanView {
        program: params.command[0],
        args: arguments(params.command),
        cwd: params.cwd,
        env: params.env,
    }
}

/// The question about a command that is to start.
pub open spec fn exec_question(params: ExecStartParamsView) -> MessageView {
    MessageView::ApprovalRequest {
        id: IdView::Text(exec_callback_id(params.exec_id)),
        params: ApprovalParamsView {
            approval_id: exec_callback_id(params.exec_id),
            exec_id: params.exec_id,
            command: params.command,
            cwd: params.cwd,
            reason: "zsh sidecar execStart command approval"@,
            proposed_execpolicy_amendment: None,
        },
    }
}

/// What a request to start a command leads to.
pub open spec fn exec_start_step(
    id: IdView,
    params: Result<ExecStartParamsView, Seq<char>>,
) -> StepView {
    match params {
        Err(error) => failed(id, INVALID_PARAMS as int, error),
        Ok(params) => if params.command.len() == 0 {
            failed(id, INVALID_PARAMS as int, "execStart.command is empty"@)
        } else {
            StepView {
                session: SessionView::AwaitingExecApproval {
                    id,
                    callback_id: IdView::Text(exec_callback_id(params.exec_id)),
                    exec_id: params.exec_id,
                    plan: plan_of(params),
                },
                messages: seq![exec_question(params)],
                action: ActionView::Read,
                notice: None,
            }
        },
    }
}

/// What a request to interrupt a command leads to: no run is ever known.
pub open spec fn exec_interrupt_step(
    id: IdView,
    params: Result<ExecInterruptParamsView, Seq<char>>,
) -> StepView {
    match params {
        Err(error) => failed(id, INVALID_PARAMS as int, error),
        Ok(params) => failed(id, UNKNOWN_EXEC_ID as int, "unknown exec id: "@ + params.exec_id),
    }
}

/// The method of a message: empty where it names none.
pub open spec fn method_of(message: JsonView) -> Seq<char> {
    match member(message, "method"@) {
        Some(method) => match text_of(method) {
            Some(text) => text,
            None => Seq::empty(),
        },
        None => Seq::empty(),
    }
}

/// What request `id` leads to.
pub open spec fn request_step(id: IdView, message: JsonView) -> StepView {
    let method = method_of(message);
    if method == METHOD_ZSH_INITIALIZE@ {
        answered(MessageView::Initialized { id })
    } else if method == METHOD_ZSH_EXEC_START@ {
        exec_start_step(id, params_from::<ExecStartParams>(message))
    } else if method == METHOD_ZSH_EXEC_INTERRUPT@ {
        exec_interrupt_step(id, params_from::<ExecInterruptParams>(message))
    } else if method == METHOD_ZSH_EXEC_STDIN@ || method == METHOD_ZSH_EXEC_RESIZE@ {
        failed(id, NOT_SUPPORTED as int, "method not supported in sidecar phase 1"@)
    } else if method == METHOD_ZSH_SHUTDOWN@ {
        StepView {
            session: SessionView::Closed,
            messages: seq![MessageView::Done { id }],
            action: ActionView::Exit,
            notice: None,
        }
    } else {
        failed(id, UNKNOWN_METHOD as int, "unknown method: "@ + method)
    }
}

/// What a message leads to when no approval is awaited. One without an identifier is passed
/// over.
pub open spec fn message_step(message: JsonView) -> StepView {
    match member(message, "id"@) {
        None => unmoved(SessionView::Idle, None),
        Some(id) => match JsonRpcId::from_tree(id) {
            Err(error) => unmoved(SessionView::Idle, Some(NoticeView::InvalidId(error))),
            Ok(id) => request_step(id, message),
        },
    }
}

/// What the reading of a line leads to when no approval is awaited. A line that is no JSON is
/// passed over.
pub open spec fn reading_step(reading: Result<JsonView, Seq<char>>) -> StepView {
    match reading {
        Err(error) => unmoved(SessionView::Idle, Some(NoticeView::InvalidInput(error))),
        Ok(message) => message_step(message),
    }
}

/// What a line leads to when no approval is awaited. A blank line is passed over.
pub open spec fn line_step(line: Seq<char>) -> StepView {
    if trimmed(line).len() == 0 {
        unmoved(SessionView::Idle, None)
    } else {
        reading_step(parsed(line))
    }
}

/// The identifier under which a session awaits a decision.
pub open spec fn awaited(session: SessionView) -> Option<IdView> {
    match session {
        SessionView::AwaitingExecApproval { callback_id, .. } => Some(callback_id),
        SessionView::AwaitingSubcommandApproval { callback_id, .. } => Some(callback_id),
        _ => None,
    }
}

/// What a decision leads to. A command that was granted is started, one that was refused is
/// answered with an error; a subcommand is answered either way.
pub open spec fn decision_step(session: SessionView, decision: ApprovalDecision) -> StepView {
    match session {
        SessionView::AwaitingExecApproval { id, exec_id, plan, .. } => match refusal(decision) {
            Some(reason) => failed(id, NOT_APPROVED as int, reason),
            None => StepView {
                session: SessionView::Launching { id, exec_id },
                messages: seq![],
                action: ActionView::Launch(plan),
                notice: None,
            },
        },
        SessionView::AwaitingSubcommandApproval { run, .. } => StepView {
            session: SessionView::Running { run },
            messages: seq![],
            action: ActionView::Answer(wrapper_answer(decision)),
            notice: None,
        },
        _ => arbitrary(),
    }
}

/// What an input leads to that means so much to one who awaits an approval.
pub open spec fn reply_step(
    session: SessionView,
    reply: Result<ApprovalReply, ErrorView>,
) -> Result<StepView, ErrorView> {
    match reply {
        Err(error) => Err(error),
        Ok(ApprovalReply::NoAnswer) => Ok(unmoved(session, None)),
        Ok(ApprovalReply::OtherAnswer) => Ok(
            unmoved(session, Some(NoticeView::UnexpectedAnswer)),
        ),
        Ok(ApprovalReply::Decided(decision)) => Ok(decision_step(session, decision)),
    }
}

/// What the host's next input leads to; no line stands for the end of input.
pub open spec fn input_step(session: SessionView, line: Option<Seq<char>>) -> Result<
    StepView,
    ErrorView,
> {
    match awaited(session) {
        Some(callback_id) => reply_step(session, input_reply(line, callback_id)),
        None => match line {
            Some(line) => Ok(line_step(line)),
            None => Ok(
                StepView {
                    session: SessionView::Closed,
                    messages: seq![],
                    action: ActionView::Exit,
                    notice: None,
                },
            ),
        },
    }
}

/// A step on to the end of a run, or on with it.
pub open spec fn run_step(run: RunView) -> StepView {
    if complete(run) {
        StepView {
            session: SessionView::Finishing { exec_id: run.exec_id, exit: run.exit->0 },
            messages: seq![],
            action: ActionView::Release,
            notice: None,
        }
    } else {
        StepView {
            session: SessionView::Running { run },
            messages: seq![],
            action: ActionView::Serve,
            notice: None,
        }
    }
}

/// The identifier under which the host decides about a subcommand.
pub open spec fn subcommand_callback_id(exec_id: Seq<char>, token: Seq<char>) -> Seq<char> {
    "approval-"@ + exec_id + "-"@ + token
}

/// The words of a subcommand: those it was given, or its file where it was given none.
pub open spec fn subcommand_words(request: WrapperExecRequestView) -> Seq<Seq<char>> {
    if request.argv.len() == 0 {
        seq![request.file]
    } else {
        request.argv
    }
}

/// The question about a subcommand.
pub open spec fn subcommand_question(
    exec_id: Seq<char>,
    request: WrapperExecRequestView,
    callback_token: Seq<char>,
    approval_token: Seq<char>,
) -> MessageView {
    MessageView::ApprovalRequest {
        id: IdView::Text(subcommand_callback_id(exec_id, callback_token)),
        params: ApprovalParamsView {
            approval_id: subcommand_callback_id(exec_id, approval_token),
            exec_id,
            command: subcommand_words(request),
            cwd: request.cwd,
            reason: "zsh sidecar intercepted subcommand execve"@,
            proposed_execpolicy_amendment: None,
        },
    }
}

/// The event that tells that a command has ended.
pub open spec fn exit_message(exec_id: Seq<char>, exit: ExitStatus) -> MessageView {
    MessageView::ExecExited {
        exec_id,
        exit_code: match exit.code {
            Some(code) => code as int,
            None => -1,
        },
        signal: match exit.signal {
            Some(signal) => Some(decimal_text(signal as int)),
            None => None,
        },
        timed_out: Some(false),
    }
}

/// What an event leads to.
pub open spec fn next(session: SessionView, event: EventView) -> Result<StepView, ErrorView> {
    match (event, session) {
        (EventView::Line(line), _) => input_step(session, Some(line)),
        (EventView::InputClosed, _) => input_step(session, None),
        (EventView::Spawned, SessionView::Launching { id, exec_id }) => Ok(
            StepView {
                session: SessionView::Running {
                    run: RunView { exec_id, exit: None, output_open: true },
                },
                messages: seq![MessageView::Done { id }, MessageView::ExecStarted { exec_id }],
                action: ActionView::Serve,
                notice: None,
            },
        ),
        (EventView::SpawnFailed(error), SessionView::Launching { id, .. }) => Ok(
            failed(id, SPAWN_FAILED as int, "failed to spawn command: "@ + error),
        ),
        (EventView::Exited(exit), SessionView::Running { run }) => Ok(
            run_step(RunView { exit: Some(exit), ..run }),
        ),
        (EventView::Output { stream, chunk }, SessionView::Running { run }) => Ok(
            StepView {
                session,
                messages: seq![
                    MessageView::ExecOutput {
                        stream,
                        exec_id: run.exec_id,
                        chunk_base64: base64_text(chunk),
                    },
                ],
                action: ActionView::Serve,
                notice: None,
            },
        ),
        (EventView::OutputClosed, SessionView::Running { run }) => Ok(
            run_step(RunView { output_open: false, ..run }),
        ),
        (
            EventView::Intercepted { request, callback_token, approval_token },
            SessionView::Running { run },
        ) => Ok(
            StepView {
                session: SessionView::AwaitingSubcommandApproval {
                    run,
                    callback_id: IdView::Text(subcommand_callback_id(run.exec_id, callback_token)),
                },
                messages: seq![
                    subcommand_question(run.exec_id, request, callback_token, approval_token),
                ],
                action: ActionView::Read,
                notice: None,
            },
        ),
        (EventView::Released, SessionView::Finishing { exec_id, exit }) => Ok(
            answered(exit_message(exec_id, exit)),
        ),
        _ => arbitrary(),
    }
}

/// The values of what a step comes to.
pub open spec fn outcome(result: Result<Step, SidecarError>) -> Result<StepView, ErrorView> {
    match result {
        Ok(step) => Ok(step@),
        Err(error) => Err(error@),
    }
}

fn move_on(session: Session, action: Action, notice: Option<Notice>) -> (step: Step)
    ensures
        step@ == (StepView {
            session: session@,
            messages: seq![],
            action: action@,
            notice: match notice {
                Some(notice) => Some(notice@),
                None => None,
            },
        }),
{
    let step = Step { session, messages: vec![], action, notice };
    assert(step@.messages =~= seq![]);
    step
}

fn say(session: Session, message: Message, action: Action) -> (step: Step)
    ensures
        step@ == (StepView {
            session: session@,
            messages: seq![message@],
            action: action@,
            notice: None,
        }),
{
    let step = Step { session, messages: vec![message], action, notice: None };
    assert(step@.messages =~= seq![message@]);
    step
}

fn fail(id: JsonRpcId, code: i64, message: String) -> (step: Step)
    ensures
        step@ == failed(id@, code as int, message@),
{
    say(Session::Idle, Message::Failed { id, code, message }, Action::Read)
}

fn start(id: JsonRpcId, params: ExecStartParams) -> (step: Step)
    ensures
        step@ == exec_start_step(id@, Ok(params@)),
{
    if params.command.len() == 0 {
        return fail(id, INVALID_PARAMS, "execStart.command is empty".to_owned());
    }
    let approval_id = joined("approval-", params.exec_id.as_str());
    let callback_id = JsonRpcId::Text(approval_id.clone());
    let plan = LaunchPlan {
        program: params.command[0].clone(),
        args: arguments_of(&params.command),
        cwd: params.cwd.clone(),
        env: params.env,
    };
    let question = Message::ApprovalRequest {
        id: callback_id.copied(),
        params: RequestApprovalParams {
            approval_id,
            exec_id: params.exec_id.clone(),
            command: params.command,
            cwd: params.cwd,
            reason: "zsh sidecar execStart command approval".to_owned(),
            proposed_execpolicy_amendment: None,
        },
    };
    let session = Session::AwaitingExecApproval { id, callback_id, exec_id: params.exec_id, plan };
    say(session, question, Action::Read)
}

fn request(id: JsonRpcId, message: &Json) -> (step: Step)
    ensures
        step@ == request_step(id@, message@),
{
    let method = match message.get("method") {
        Some(method) => match method.as_text() {
            Some(text) => text,
            None => "",
        },
        None => "",
    };
    proof {
        reveal_strlit("");
        assert(""@ =~= Seq::empty());
    }
    if same_text(method, METHOD_ZSH_INITIALIZE) {
        say(Session::Idle, Message::Initialized { id }, Action::Read)
    } else if same_text(method, METHOD_ZSH_EXEC_START) {
        match parse_params::<ExecStartParams>(message) {
            Ok(params) => start(id, params),
            Err(error) => fail(id, INVALID_PARAMS, error),
        }
    } else if same_text(method, METHOD_ZSH_EXEC_INTERRUPT) {
        match parse_params::<ExecInterruptParams>(message) {
            Ok(params) => fail(
                id,
                UNKNOWN_EXEC_ID,
                joined("unknown exec id: ", params.exec_id.as_str()),
            ),
            Err(error) => fail(id, INVALID_PARAMS, error),
        }
    } else if same_text(method, METHOD_ZSH_EXEC_STDIN) || same_text(
        method,
        METHOD_ZSH_EXEC_RESIZE,
    ) {
        fail(id, NOT_SUPPORTED, "method not supported in sidecar phase 1".to_owned())
    } else if same_text(method, METHOD_ZSH_SHUTDOWN) {
        say(Session::Closed, Message::Done { id }, Action::Exit)
    } else {
        fail(id, UNKNOWN_METHOD, joined("unknown method: ", method))
    }
}

/// Takes in a message when no approval is awaited.
pub fn receive(message: &Json) -> (step: Step)
    ensures
        step@ == message_step(message@),
{
    match message.get("id") {
        None => move_on(Session::Idle, Action::Read, None),
        Some(value) => match JsonRpcId::read_json(value) {
            Ok(id) => request(id, message),
            Err(error) => move_on(Session::Idle, Action::Read, Some(Notice::InvalidId(error))),
        },
    }
}

/// Takes in a line that was read as a message, or not, when no approval is awaited.
pub fn receive_reading(reading: Result<Json, String>) -> (step: Step)
    ensures
        step@ == reading_step(
            match reading {
                Ok(message) => Ok(message@),
                Err(error) => Err(error@),
            },
        ),
{
    match reading {
        Ok(message) => receive(&message),
        Err(error) => move_on(Session::Idle, Action::Read, Some(Notice::InvalidInput(error))),
    }
}

fn receive_line(line: &str) -> (step: Step)
    ensures
        step@ == line_step(line@),
{
    if trim(line).is_empty() {
        return move_on(Session::Idle, Action::Read, None);
    }
    receive_reading(parse_json(line))
}

/// Carries out a decision that was awaited.
pub fn decide(session: Session, decision: ApprovalDecision) -> (step: Step)
    requires
        awaited(session@) is Some,
    ensures
        step@ == decision_step(session@, decision),
{
    match session {
        Session::AwaitingExecApproval { id, exec_id, plan, .. } => {
            match refusal_reason(decision) {
                Some(reason) => fail(id, NOT_APPROVED, reason),
                None => move_on(Session::Launching { id, exec_id }, Action::Launch(plan), None),
            }
        },
        Session::AwaitingSubcommandApproval { run, .. } => {
            move_on(Session::Running { run }, Action::Answer(wrapper_response(decision)), None)
        },
        _ => unreached(),
    }
}

/// Carries a session on that awaits a decision, by what its next input means.
pub fn take_reply(session: Session, reply: Result<ApprovalReply, SidecarError>) -> (result: Result<
    Step,
    SidecarError,
>)
    requires
        awaited(session@) is Some,
    ensures
        outcome(result) == reply_step(
            session@,
            match reply {
                Ok(reply) => Ok(reply),
                Err(error) => Err(error@),
            },
        ),
{
    match reply {
        Err(error) => Err(error),
        Ok(ApprovalReply::NoAnswer) => Ok(move_on(session, Action::Read, None)),
        Ok(ApprovalReply::OtherAnswer) => Ok(
            move_on(session, Action::Read, Some(Notice::UnexpectedAnswer)),
        ),
        Ok(ApprovalReply::Decided(decision)) => Ok(decide(session, decision)),
    }
}

fn take_input(session: Session, line: Option<&str>) -> (result: Result<Step, SidecarError>)
    ensures
        outcome(result) == input_step(
            session@,
            match line {
                Some(line) => Some(line@),
                None => None,
            },
        ),
{
    let reply = match &session {
        Session::AwaitingExecApproval { callback_id, .. } => {
            wait_for_approval_result(line, callback_id)
        },
        Session::AwaitingSubcommandApproval { callback_id, .. } => {
            wait_for_approval_result(line, callback_id)
        },
        _ => {
            return match line {
                Some(line) => Ok(receive_line(line)),
                None => Ok(move_on(Session::Closed, Action::Exit, None)),
            };
        },
    };
    take_reply(session, reply)
}

fn run_on(run: Run) -> (step: Step)
    ensures
        step@ == run_step(run@),
{
    match run.exit {
        Some(exit) => if !run.output_open {
            move_on(
                Session::Finishing { exec_id: run.exec_id, exit },
                Action::Release,
                None,
            )
        } else {
            move_on(Session::Running { run }, Action::Serve, None)
        },
        None => move_on(Session::Running { run }, Action::Serve, None),
    }
}

fn callback_id_for(exec_id: &str, token: &str) -> (id: String)
    ensures
        id@ == subcommand_callback_id(exec_id@, token@),
{
    joined("approval-", exec_id).concat("-").concat(token)
}

fn question(
    exec_id: &str,
    request: WrapperExecRequest,
    callback_token: &str,
    approval_token: &str,
) -> (message: Message)
    ensures
        message@ == subcommand_question(exec_id@, request@, callback_token@, approval_token@),
{
    let command = if request.argv.len() == 0 {
        vec![request.file]
    } else {
        request.argv
    };
    assert(texts(command@) =~= subcommand_words(request@));
    Message::ApprovalRequest {
        id: JsonRpcId::Text(callback_id_for(exec_id, callback_token)),
        params: RequestApprovalParams {
            approval_id: callback_id_for(exec_id, approval_token),
            exec_id: exec_id.to_owned(),
            command,
            cwd: request.cwd,
            reason: "zsh sidecar intercepted subcommand execve".to_owned(),
            proposed_execpolicy_amendment: None,
        },
    }
}

fn exit_event(exec_id: String, exit: ExitStatus) -> (message: Message)
    ensures
        message@ == exit_message(exec_id@, exit),
{
    Message::ExecExited {
        exec_id,
        exit_code: match exit.code {
            Some(code) => code,
            None => -1,
        },
        signal: match exit.signal {
            Some(signal) => Some(decimal(signal as i128)),
            None => None,
        },
        timed_out: Some(false),
    }
}

/// Whether an event can happen to a session in a state.
pub fn session_expects(session: &Session, event: &Event) -> (answer: bool)
    ensures
        answer == expects(session@, event@),
{
    match (event, session) {
        (Event::Line(_), Session::Idle) => true,
        (Event::Line(_), Session::AwaitingExecApproval { .. }) => true,
        (Event::Line(_), Session::AwaitingSubcommandApproval { .. }) => true,
        (Event::InputClosed, Session::Idle) => true,
        (Event::InputClosed, Session::AwaitingExecApproval { .. }) => true,
        (Event::InputClosed, Session::AwaitingSubcommandApproval { .. }) => true,
        (Event::Spawned, Session::Launching { .. }) => true,
        (Event::SpawnFailed(_), Session::Launching { .. }) => true,
        (Event::Exited(_), Session::Running { run }) => run.exit.is_none(),
        (Event::Output { chunk, .. }, Session::Running { run }) => {
            run.output_open && is_encodable(chunk.len())
        },
        (Event::OutputClosed, Session::Running { run }) => run.output_open,
        (Event::Intercepted { .. }, Session::Running { .. }) => true,
        (Event::Released, Session::Finishing { .. }) => true,
        _ => false,
    }
}

/// Carries a session on when something happens to it: the state it comes to, what it says, and
/// what it does.
pub fn step(session: Session, event: Event) -> (result: Result<Step, SidecarError>)
    requires
        expects(session@, event@),
    ensures
        outcome(result) == next(session@, event@),
{
    match (event, session) {
        (Event::Line(line), session) => take_input(session, Some(line.as_str())),
        (Event::InputClosed, session) => take_input(session, None),
        (Event::Spawned, Session::Launching { id, exec_id }) => {
            let run = Run { exec_id: exec_id.clone(), exit: None, output_open: true };
            let step = Step {
                session: Session::Running { run },
                messages: vec![Message::Done { id }, Message::ExecStarted { exec_id }],
                action: Action::Serve,
                notice: None,
            };
            assert(step@.messages =~= seq![
                MessageView::Done { id: id@ },
                MessageView::ExecStarted { exec_id: exec_id@ },
            ]);
            Ok(step)
        },
        (Event::SpawnFailed(error), Session::Launching { id, .. }) => Ok(
            fail(id, SPAWN_FAILED, joined("failed to spawn command: ", error.as_str())),
        ),
        (Event::Exited(exit), Session::Running { run }) => Ok(
            run_on(
                Run { exec_id: run.exec_id, exit: Some(exit), output_open: run.output_open },
            ),
        ),
        (Event::Output { stream, chunk }, Session::Running { run }) => {
            let message = Message::ExecOutput {
                stream,
                exec_id: run.exec_id.clone(),
                chunk_base64: encode_base64(&chunk),
            };
            Ok(say(Session::Running { run }, message, Action::Serve))
        },
        (Event::OutputClosed, Session::Running { run }) => Ok(
            run_on(Run { exec_id: run.exec_id, exit: run.exit, output_open: false }),
        ),
        (
            Event::Intercepted { request, callback_token, approval_token },
            Session::Running { run },
        ) => {
            let message = question(
                run.exec_id.as_str(),
                request,
                callback_token.as_str(),
                approval_token.as_str(),
            );
            let callback_id = JsonRpcId::Text(
                callback_id_for(run.exec_id.as_str(), callback_token.as_str()),
            );
            let session = Session::AwaitingSubcommandApproval { run, callback_id };
            Ok(say(session, message, Action::Read))
        },
        (Event::Released, Session::Finishing { exec_id, exit }) => Ok(
            say(Session::Idle, exit_event(exec_id, exit), Action::Read),
        ),
        _ => unreached(),
    }
}

/// Whether a step asks about a subcommand under two random tokens.
pub open spec fn asks_about(
    step: StepView,
    session: SessionView,
    request: WrapperExecRequestView,
    callback_token: Seq<char>,
    approval_token: Seq<char>,
) -> bool {
    &&& is_token(callback_token)
    &&& is_token(approval_token)
    &&& next(session, EventView::Intercepted { request, callback_token, approval_token }) == Ok::<
        StepView,
        ErrorView,
    >(step)
}

/// Takes in the question of an exec wrapper, or the error of the one who read it, while a
/// command runs. The host is asked under two tokens that are drawn anew.
pub fn handle_wrapper_request(
    session: Session,
    request: Result<WrapperExecRequest, String>,
) -> (result: Result<Step, SidecarError>)
    requires
        session@ is Running,
    ensures
        match request {
            Err(cause) => outcome(result) == Err::<StepView, ErrorView>(
                ErrorView::WrapperRequest(cause@),
            ),
            Ok(request) => result is Ok && exists|
                callback_token: Seq<char>,
                approval_token: Seq<char>,
            | #[trigger]
                asks_about(result->Ok_0@, session@, request@, callback_token, approval_token),
        },
{
    let request = match request {
        Ok(request) => request,
        Err(cause) => {
            return Err(SidecarError::WrapperRequest(cause));
        },
    };
    let callback_token = draw_token();
    let approval_token = draw_token();
    let ghost before = session@;
    let ghost asked = request@;
    let ghost first = callback_token@;
    let ghost second = approval_token@;
    let result = step(session, Event::Intercepted { request, callback_token, approval_token });
    assert(asks_about(result->Ok_0@, before, asked, first, second));
    result
}

} // verus!
