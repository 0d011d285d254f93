//! What each request, answer and event of a command leads to, said of what comes in and goes out.

use crate::approval::{reply_of, ApprovalDecision, ApprovalReply};
use crate::chunk::base64_text;
use crate::decode::{member, FromJson};
use crate::error::ErrorView;
use crate::history::{
    last_step, lemma_one_more, lemma_step_says, possible, said, state_after,
};
use crate::json::{names_differ, parsed, JsonView};
use crate::message::{ApprovalParamsView, MessageView, OutputStream};
use crate::params::{
    ExecInterruptParams, ExecStartParams, ExecStartParamsView, IdView, JsonRpcId,
};
use crate::reading_laws::{gives_exec_start, law_exec_start_is_read_from_its_members};
use crate::session::{
    asks_about, expects, next, ActionView, EventView, ExitStatus, LaunchPlanView, NoticeView, RunView,
    SessionView, StepView,
};
use crate::text::{decimal_text, trimmed};
use crate::wrapper::{WrapperExecAction, WrapperExecRequestView, WrapperExecResponseView};
use vstd::prelude::*;
use vstd::string::*;

verus! {

/// Whether a line is a request with an identifier.
pub open spec fn is_request(line: Seq<char>, message: JsonView, id: IdView) -> bool {
    &&& trimmed(line).len() > 0
    &&& parsed(line) == Ok::<JsonView, Seq<char>>(message)
    &&& member(message, "id"@) is Some
    &&& JsonRpcId::from_tree(member(message, "id"@)->0) == Ok::<IdView, Seq<char>>(id)
}

/// Whether a message calls a method.
pub open spec fn calls(message: JsonView, method: Seq<char>) -> bool {
    member(message, "method"@) == Some(JsonView::Text(method))
}

/// Whether a session, told something, says one thing, awaits the next request and notes nothing.
pub open spec fn answers_with(
    step: Result<StepView, ErrorView>,
    message: MessageView,
) -> bool {
    step == Ok::<StepView, ErrorView>(
        StepView {
            session: SessionView::Idle,
            messages: seq![message],
            action: ActionView::Read,
            notice: None,
        },
    )
}

proof fn lemma_methods()
    ensures
        "zsh/initialize"@ != "zsh/execStart"@,
        "zsh/initialize"@ != "zsh/execInterrupt"@,
        "zsh/initialize"@ != "zsh/execStdin"@,
        "zsh/initialize"@ != "zsh/execResize"@,
        "zsh/initialize"@ != "zsh/shutdown"@,
        "zsh/execStart"@ != "zsh/execInterrupt"@,
        "zsh/execStart"@ != "zsh/execStdin"@,
        "zsh/execStart"@ != "zsh/execResize"@,
        "zsh/execStart"@ != "zsh/shutdown"@,
        "zsh/execInterrupt"@ != "zsh/execStdin"@,
        "zsh/execInterrupt"@ != "zsh/execResize"@,
        "zsh/execInterrupt"@ != "zsh/shutdown"@,
        "zsh/execStdin"@ != "zsh/execResize"@,
        "zsh/execStdin"@ != "zsh/shutdown"@,
        "zsh/execResize"@ != "zsh/shutdown"@,
        "zsh/initialize"@ != Seq::<char>::empty(),
        "zsh/execStart"@ != Seq::<char>::empty(),
        "zsh/execInterrupt"@ != Seq::<char>::empty(),
        "zsh/execStdin"@ != Seq::<char>::empty(),
        "zsh/execResize"@ != Seq::<char>::empty(),
        "zsh/shutdown"@ != Seq::<char>::empty(),
{
    reveal_strlit("zsh/initialize");
    reveal_strlit("zsh/execStart");
    reveal_strlit("zsh/execInterrupt");
    reveal_strlit("zsh/execStdin");
    reveal_strlit("zsh/execResize");
    reveal_strlit("zsh/shutdown");
    assert("zsh/initialize"@.len() == 14 && "zsh/initialize"@[4] == 'i');
    assert("zsh/execStart"@.len() == 13 && "zsh/execStart"@[10] == 'a');
    assert("zsh/execInterrupt"@.len() == 17);
    assert("zsh/execStdin"@.len() == 13 && "zsh/execStdin"@[10] == 'd');
    assert("zsh/execResize"@.len() == 14 && "zsh/execResize"@[4] == 'e');
    assert("zsh/shutdown"@.len() == 12);
}

/// `zsh/initialize` is answered, whatever its parameters.
pub proof fn law_initialize(line: Seq<char>, message: JsonView, id: IdView)
    requires
        is_request(line, message, id),
        calls(message, "zsh/initialize"@),
    ensures
        answers_with(
            next(SessionView::Idle, EventView::Line(line)),
            MessageView::Initialized { id },
        ),
{
    lemma_methods();
}

/// `zsh/shutdown` is acknowledged and ends the session, whatever its parameters.
pub proof fn law_shutdown(line: Seq<char>, message: JsonView, id: IdView)
    requires
        is_request(line, message, id),
        calls(message, "zsh/shutdown"@),
    ensures
        next(SessionView::Idle, EventView::Line(line)) == Ok::<StepView, ErrorView>(
            StepView {
                session: SessionView::Closed,
                messages: seq![MessageView::Done { id }],
                action: ActionView::Exit,
                notice: None,
            },
        ),
{
    lemma_methods();
}

/// `zsh/execStdin` and `zsh/execResize` are not supported, whatever their parameters.
pub proof fn law_stdin_and_resize(line: Seq<char>, message: JsonView, id: IdView)
    requires
        is_request(line, message, id),
        calls(message, "zsh/execStdin"@) || calls(message, "zsh/execResize"@),
    ensures
        answers_with(
            next(SessionView::Idle, EventView::Line(line)),
            MessageView::Failed {
                id,
                code: -32004,
                message: "method not supported in sidecar phase 1"@,
            },
        ),
{
    lemma_methods();
}

/// Any other method is not known; a message that names no method by a string calls the empty one.
pub proof fn law_unknown_method(
    line: Seq<char>,
    message: JsonView,
    id: IdView,
    method: Seq<char>,
)
    requires
        is_request(line, message, id),
        calls(message, method) || (method.len() == 0 && !(member(message, "method"@) matches Some(
            JsonView::Text(_),
        ))),
        method != "zsh/initialize"@,
        method != "zsh/execStart"@,
        method != "zsh/execInterrupt"@,
        method != "zsh/execStdin"@,
        method != "zsh/execResize"@,
        method != "zsh/shutdown"@,
    ensures
        answers_with(
            next(SessionView::Idle, EventView::Line(line)),
            MessageView::Failed { id, code: -32601, message: "unknown method: "@ + method },
        ),
{
    if method.len() == 0 {
        assert(method =~= Seq::<char>::empty());
    }
}

/// `zsh/execInterrupt` names a run that is not known, or cannot be read.
pub proof fn law_interrupt(line: Seq<char>, message: JsonView, id: IdView)
    requires
        is_request(line, message, id),
        calls(message, "zsh/execInterrupt"@),
    ensures
        ({
            let step = next(SessionView::Idle, EventView::Line(line));
            match member(message, "params"@) {
                None => answers_with(
                    step,
                    MessageView::Failed { id, code: -32602, message: "missing params"@ },
                ),
                Some(params) => match ExecInterruptParams::from_tree(params) {
                    Err(error) => answers_with(
                        step,
                        MessageView::Failed {
                            id,
                            code: -32602,
                            message: "invalid params: "@ + error,
                        },
                    ),
                    Ok(params) => answers_with(
                        step,
                        MessageView::Failed {
                            id,
                            code: -32002,
                            message: "unknown exec id: "@ + params.exec_id,
                        },
                    ),
                },
            }
        }),
{
    lemma_methods();
}

/// The question about a command, under the identifier that is made of its own.
pub open spec fn command_question(
    exec_id: Seq<char>,
    words: Seq<Seq<char>>,
    cwd: Seq<char>,
) -> MessageView {
    MessageView::ApprovalRequest {
        id: IdView::Text("approval-"@ + exec_id),
        params: ApprovalParamsView {
            approval_id: "approval-"@ + exec_id,
            exec_id,
            command: words,
            cwd,
            reason: "zsh sidecar execStart command approval"@,
            proposed_execpolicy_amendment: None,
        },
    }
}

/// `zsh/execStart` is refused where its parameters are missing, cannot be read, or hold no word;
/// else the host is asked about exactly the words, in exactly the directory, and the decision is
/// awaited on a plan to start the first word with the others.
pub proof fn law_exec_start(line: Seq<char>, message: JsonView, id: IdView)
    requires
        is_request(line, message, id),
        calls(message, "zsh/execStart"@),
    ensures
        ({
            let step = next(SessionView::Idle, EventView::Line(line));
            match member(message, "params"@) {
                None => answers_with(
                    step,
                    MessageView::Failed { id, code: -32602, message: "missing params"@ },
                ),
                Some(params) => match ExecStartParams::from_tree(params) {
                    Err(error) => answers_with(
                        step,
                        MessageView::Failed {
                            id,
                            code: -32602,
                            message: "invalid params: "@ + error,
                        },
                    ),
                    Ok(params) => if params.command.len() == 0 {
                        answers_with(
                            step,
                            MessageView::Failed {
                                id,
                                code: -32602,
                                message: "execStart.command is empty"@,
                            },
                        )
                    } else {
                        step == Ok::<StepView, ErrorView>(
                            StepView {
                                session: SessionView::AwaitingExecApproval {
                                    id,
                                    callback_id: IdView::Text("approval-"@ + params.exec_id),
                                    exec_id: params.exec_id,
                                    plan: LaunchPlanView {
                                        program: params.command[0],
                                        args: params.command.skip(1),
                                        cwd: params.cwd,
                                        env: params.env,
                                    },
                                },
                                messages: seq![
                                    command_question(
                                        params.exec_id,
                                        params.command,
                                        params.cwd,
                                    ),
                                ],
                                action: ActionView::Read,
                                notice: None,
                            },
                        )
                    },
                },
            }
        }),
{
    lemma_methods();
}

/// What the host asks to start is what it is asked about, and what it grants is what starts: from
/// the members of the request to the question, and from the answer to the launch, every word, the
/// directory and every variable stay as they were sent.
pub proof fn law_command_goes_from_request_to_launch(
    line: Seq<char>,
    message: JsonView,
    id: IdView,
    params: ExecStartParamsView,
    reply_line: Seq<char>,
    reply: JsonView,
    decision: ApprovalDecision,
)
    requires
        is_request(line, message, id),
        calls(message, "zsh/execStart"@),
        member(message, "params"@) is Some,
        member(message, "params"@)->0 is Object,
        names_differ(member(message, "params"@)->0->Object_0),
        gives_exec_start(member(message, "params"@)->0, params),
        params.command.len() > 0,
        trimmed(reply_line).len() > 0,
        parsed(reply_line) == Ok::<JsonView, Seq<char>>(reply),
        reply_of(reply, IdView::Text("approval-"@ + params.exec_id)) == Ok::<
            ApprovalReply,
            ErrorView,
        >(ApprovalReply::Decided(decision)),
        decision != ApprovalDecision::Denied,
        decision != ApprovalDecision::Abort,
    ensures
        ({
            let asked = next(SessionView::Idle, EventView::Line(line));
            let started = next(asked->Ok_0.session, EventView::Line(reply_line));
            &&& asked is Ok
            &&& asked->Ok_0.messages == seq![
                command_question(params.exec_id, params.command, params.cwd),
            ]
            &&& started is Ok
            &&& started->Ok_0.messages.len() == 0
            &&& started->Ok_0.session == SessionView::Launching { id, exec_id: params.exec_id }
            &&& started->Ok_0.action == ActionView::Launch(
                LaunchPlanView {
                    program: params.command[0],
                    args: params.command.skip(1),
                    cwd: params.cwd,
                    env: params.env,
                },
            )
        }),
{
    law_exec_start(line, message, id);
    law_exec_start_is_read_from_its_members(
        member(message, "params"@)->0->Object_0,
        params,
    );
}

/// Input that is no request is passed over while none is pending: a blank line, a line that is no
/// JSON, and a message without an identifier that can be read. The latter two are noted, unless
/// there is no identifier at all.
pub proof fn law_no_request_is_passed_over(line: Seq<char>)
    ensures
        ({
            let step = next(SessionView::Idle, EventView::Line(line));
            let passed = |notice: Option<NoticeView>|
                Ok::<StepView, ErrorView>(
                    StepView {
                        session: SessionView::Idle,
                        messages: seq![],
                        action: ActionView::Read,
                        notice,
                    },
                );
            if trimmed(line).len() == 0 {
                step == passed(None)
            } else {
                match parsed(line) {
                    Err(error) => step == passed(Some(NoticeView::InvalidInput(error))),
                    Ok(message) => match member(message, "id"@) {
                        None => step == passed(None),
                        Some(id) => match JsonRpcId::from_tree(id) {
                            Err(error) => step == passed(Some(NoticeView::InvalidId(error))),
                            Ok(_) => true,
                        },
                    },
                }
            }
        }),
{
}

/// While a decision about a command is awaited, the answer that carries it either starts the very
/// plan that was asked about, under the identifiers of the request, or answers the request with
/// the reason why not. Nothing else decides, and nothing else is lost: other input changes nothing,
/// and input that cannot be read, or that rejects the question, is an error.
pub proof fn law_command_is_decided(
    id: IdView,
    callback_id: IdView,
    exec_id: Seq<char>,
    plan: LaunchPlanView,
    line: Seq<char>,
)
    ensures
        ({
            let session = SessionView::AwaitingExecApproval { id, callback_id, exec_id, plan };
            let step = next(session, EventView::Line(line));
            &&& waits_or_fails(session, callback_id, line, step)
            &&& decision_in(line, callback_id) matches Some(decision) ==> match decision {
                ApprovalDecision::Denied => answers_with(
                    step,
                    MessageView::Failed {
                        id,
                        code: -32003,
                        message: "command denied by host approval policy"@,
                    },
                ),
                ApprovalDecision::Abort => answers_with(
                    step,
                    MessageView::Failed {
                        id,
                        code: -32003,
                        message: "command aborted by host approval policy"@,
                    },
                ),
                _ => step == Ok::<StepView, ErrorView>(
                    StepView {
                        session: SessionView::Launching { id, exec_id },
                        messages: seq![],
                        action: ActionView::Launch(plan),
                        notice: None,
                    },
                ),
            }
            &&& next(session, EventView::InputClosed) == Err::<StepView, ErrorView>(
                ErrorView::InputClosed,
            )
        }),
{
}

/// The decision that a line carries for one who awaits it.
pub open spec fn decision_in(line: Seq<char>, callback_id: IdView) -> Option<ApprovalDecision> {
    if trimmed(line).len() == 0 || parsed(line) is Err {
        None
    } else {
        match reply_of(parsed(line)->Ok_0, callback_id) {
            Ok(ApprovalReply::Decided(decision)) => Some(decision),
            _ => None,
        }
    }
}

/// Whether a step on a line without a decision leaves a session as it is, or is the error that the
/// line holds.
pub open spec fn waits_or_fails(
    session: SessionView,
    callback_id: IdView,
    line: Seq<char>,
    step: Result<StepView, ErrorView>,
) -> bool {
    let waits = |notice: Option<NoticeView>|
        Ok::<StepView, ErrorView>(
            StepView { session, messages: seq![], action: ActionView::Read, notice },
        );
    if trimmed(line).len() == 0 {
        step == waits(None)
    } else {
        match parsed(line) {
            Err(error) => step == Err::<StepView, ErrorView>(ErrorView::ApprovalMessage(error)),
            Ok(message) => match reply_of(message, callback_id) {
                Ok(ApprovalReply::NoAnswer) => step == waits(None),
                Ok(ApprovalReply::OtherAnswer) => step == waits(
                    Some(NoticeView::UnexpectedAnswer),
                ),
                Ok(ApprovalReply::Decided(_)) => step is Ok,
                Err(error) => step == Err::<StepView, ErrorView>(error),
            },
        }
    }
}

/// While a decision about a subcommand is awaited, the answer that carries it is passed on to the
/// wrapper, which is told to run or not to and why, and the command runs on as it was.
pub proof fn law_subcommand_is_decided(run: RunView, callback_id: IdView, line: Seq<char>)
    ensures
        ({
            let session = SessionView::AwaitingSubcommandApproval { run, callback_id };
            let step = next(session, EventView::Line(line));
            &&& waits_or_fails(session, callback_id, line, step)
            &&& decision_in(line, callback_id) matches Some(decision) ==> step == Ok::<
                StepView,
                ErrorView,
            >(
                StepView {
                    session: SessionView::Running { run },
                    messages: seq![],
                    action: ActionView::Answer(
                        match decision {
                            ApprovalDecision::Denied => WrapperExecResponseView {
                                action: WrapperExecAction::Deny,
                                reason: Some("command denied by host approval policy"@),
                            },
                            ApprovalDecision::Abort => WrapperExecResponseView {
                                action: WrapperExecAction::Deny,
                                reason: Some("command aborted by host approval policy"@),
                            },
                            _ => WrapperExecResponseView {
                                action: WrapperExecAction::Run,
                                reason: None,
                            },
                        },
                    ),
                    notice: None,
                },
            )
            &&& next(session, EventView::InputClosed) == Err::<StepView, ErrorView>(
                ErrorView::InputClosed,
            )
        }),
{
}

/// A command that was started is acknowledged and then announced, and runs; one that could not be
/// is answered with the reason.
pub proof fn law_launch_is_told(id: IdView, exec_id: Seq<char>, error: Seq<char>)
    ensures
        next(SessionView::Launching { id, exec_id }, EventView::Spawned) == Ok::<
            StepView,
            ErrorView,
        >(
            StepView {
                session: SessionView::Running {
                    run: RunView { exec_id, exit: None, output_open: true },
                },
                messages: seq![MessageView::Done { id }, MessageView::ExecStarted { exec_id }],
                action: ActionView::Serve,
                notice: None,
            },
        ),
        answers_with(
            next(SessionView::Launching { id, exec_id }, EventView::SpawnFailed(error)),
            MessageView::Failed {
                id,
                code: -32000,
                message: "failed to spawn command: "@ + error,
            },
        ),
{
}

/// A chunk of output is sent at once, whole, on its stream and under the command's identifier, and
/// the command runs on as it was.
pub proof fn law_output_is_sent_at_once(run: RunView, stream: OutputStream, chunk: Seq<u8>)
    ensures
        next(SessionView::Running { run }, EventView::Output { stream, chunk }) == Ok::<
            StepView,
            ErrorView,
        >(
            StepView {
                session: SessionView::Running { run },
                messages: seq![
                    MessageView::ExecOutput {
                        stream,
                        exec_id: run.exec_id,
                        chunk_base64: base64_text(chunk),
                    },
                ],
                action: ActionView::Serve,
                notice: None,
            },
        ),
{
}

/// A subcommand that is held up is asked about by its own words, or by its file where it has none,
/// in its own directory, under identifiers made of the command's and of the two tokens; the command
/// stays as it was.
pub proof fn law_subcommand_is_asked_about(
    run: RunView,
    request: WrapperExecRequestView,
    callback_token: Seq<char>,
    approval_token: Seq<char>,
)
    ensures
        ({
            let callback_id = IdView::Text("approval-"@ + run.exec_id + "-"@ + callback_token);
            next(
                SessionView::Running { run },
                EventView::Intercepted { request, callback_token, approval_token },
            ) == Ok::<StepView, ErrorView>(
                StepView {
                    session: SessionView::AwaitingSubcommandApproval { run, callback_id },
                    messages: seq![
                        MessageView::ApprovalRequest {
                            id: callback_id,
                            params: ApprovalParamsView {
                                approval_id: "approval-"@ + run.exec_id + "-"@ + approval_token,
                                exec_id: run.exec_id,
                                command: if request.argv.len() > 0 {
                                    request.argv
                                } else {
                                    seq![request.file]
                                },
                                cwd: request.cwd,
                                reason: "zsh sidecar intercepted subcommand execve"@,
                                proposed_execpolicy_amendment: None,
                            },
                        },
                    ],
                    action: ActionView::Read,
                    notice: None,
                },
            )
        }),
{
}

/// The end of a command and the end of its output are taken in silence and in any order; once both
/// are there, and no sooner, what the command needed is cleared up.
pub proof fn law_run_ends_with_exit_and_output(run: RunView, exit: ExitStatus)
    ensures
        ({
            let silent = |session: SessionView, action: ActionView|
                Ok::<StepView, ErrorView>(
                    StepView { session, messages: seq![], action, notice: None },
                );
            let exec_id = run.exec_id;
            let exited = next(SessionView::Running { run }, EventView::Exited(exit));
            let closed = next(SessionView::Running { run }, EventView::OutputClosed);
            &&& run.output_open ==> exited == silent(
                SessionView::Running {
                    run: RunView { exec_id, exit: Some(exit), output_open: true },
                },
                ActionView::Serve,
            )
            &&& !run.output_open ==> exited == silent(
                SessionView::Finishing { exec_id, exit },
                ActionView::Release,
            )
            &&& run.exit is None ==> closed == silent(
                SessionView::Running { run: RunView { exec_id, exit: None, output_open: false } },
                ActionView::Serve,
            )
            &&& run.exit matches Some(exit) ==> closed == silent(
                SessionView::Finishing { exec_id, exit },
                ActionView::Release,
            )
        }),
{
}

/// The events that can happen are those of the state: input while a request or a decision is
/// awaited, the outcome of a launch while one is under way, what a command brings while it runs, and
/// the end of clearing up. Output can come as long as its text can be held.
pub proof fn law_events_of_a_state(session: SessionView, event: EventView)
    ensures
        expects(session, event) <==> match session {
            SessionView::Idle => event is Line || event is InputClosed,
            SessionView::AwaitingExecApproval { .. } => event is Line || event is InputClosed,
            SessionView::AwaitingSubcommandApproval { .. } => event is Line || event is InputClosed,
            SessionView::Launching { .. } => event is Spawned || event is SpawnFailed,
            SessionView::Running { run } => {
                ||| event is Exited && run.exit is None
                ||| event is OutputClosed && run.output_open
                ||| event is Intercepted
                ||| event matches EventView::Output { chunk, .. } && run.output_open && 4 * ((
                chunk.len() + 2) / 3) <= isize::MAX
            },
            SessionView::Finishing { .. } => event is Released,
            SessionView::Closed => false,
        },
{
}

/// Whether a message tells how a command ended: its exit code, or -1 where it has none, the
/// numeral of its signal where it has one, and that it did not time out.
pub open spec fn tells_exit(message: MessageView, exec_id: Seq<char>, exit: ExitStatus) -> bool {
    &&& message is ExecExited
    &&& message->ExecExited_exec_id == exec_id
    &&& exit.code matches Some(code) ==> message->exit_code == code
    &&& exit.code is None ==> message->exit_code == -1
    &&& exit.signal matches Some(signal) ==> message->signal == Some(decimal_text(signal as int))
    &&& exit.signal is None ==> message->signal is None
    &&& message->timed_out == Some(false)
}

/// Once what a command needed is cleared up, its end is told exactly as it came, and the next
/// request is awaited.
pub proof fn law_exit_is_told(exec_id: Seq<char>, exit: ExitStatus)
    ensures
        ({
            let step = next(SessionView::Finishing { exec_id, exit }, EventView::Released);
            &&& step is Ok
            &&& step->Ok_0.session is Idle && step->Ok_0.action is Read && step->Ok_0.notice is None
            &&& step->Ok_0.messages.len() == 1
            &&& tells_exit(step->Ok_0.messages[0], exec_id, exit)
        }),
{
}

/// The ends of commands among some events, each with the command's identifier, in order.
pub open spec fn ended(events: Seq<EventView>) -> Seq<(Seq<char>, ExitStatus)>
    decreases events.len(),
{
    if events.len() == 0 {
        Seq::empty()
    } else {
        match (events.last(), state_after(events.drop_last())) {
            (EventView::Exited(exit), SessionView::Running { run }) => ended(
                events.drop_last(),
            ).push((run.exec_id, exit)),
            _ => ended(events.drop_last()),
        }
    }
}

/// The messages that tell the end of a command, in order.
pub open spec fn told(messages: Seq<MessageView>) -> Seq<MessageView>
    decreases messages.len(),
{
    if messages.len() == 0 {
        Seq::empty()
    } else if messages.last() is ExecExited {
        told(messages.drop_last()).push(messages.last())
    } else {
        told(messages.drop_last())
    }
}

/// The end of a command that is still to be told.
pub open spec fn untold(session: SessionView) -> Option<(Seq<char>, ExitStatus)> {
    match session {
        SessionView::Running { run } => match run.exit {
            Some(exit) => Some((run.exec_id, exit)),
            None => None,
        },
        SessionView::AwaitingSubcommandApproval { run, .. } => match run.exit {
            Some(exit) => Some((run.exec_id, exit)),
            None => None,
        },
        SessionView::Finishing { exec_id, exit } => Some((exec_id, exit)),
        _ => None,
    }
}

/// Every end of a command is told once, in order and exactly as it came, but for one that is still
/// to be told.
pub proof fn law_every_exit_is_told(events: Seq<EventView>)
    requires
        possible(events),
    ensures
        ({
            let ends = ended(events);
            let messages = told(said(events));
            &&& match untold(state_after(events)) {
                Some(end) => ends.len() == messages.len() + 1 && ends.last() == end,
                None => ends.len() == messages.len(),
            }
            &&& forall|i: int|
                0 <= i < messages.len() ==> tells_exit(
                    #[trigger] messages[i],
                    ends[i].0,
                    ends[i].1,
                )
        }),
    decreases events.len(),
{
    if events.len() > 0 {
        let earlier = events.drop_last();
        let session = state_after(earlier);
        let event = events.last();
        law_every_exit_is_told(earlier);
        lemma_step_says(session, event);
        let messages = last_step(events)->Ok_0.messages;
        if messages == Seq::<MessageView>::empty() {
            assert(said(events) =~= said(earlier));
        } else if messages.len() == 1 {
            lemma_one_more(said(earlier), messages[0]);
        } else if let SessionView::Launching { id, exec_id } = session {
            let answered = said(earlier) + seq![MessageView::Done { id }];
            let started = MessageView::ExecStarted { exec_id };
            lemma_one_more(said(earlier), MessageView::Done { id });
            assert(told(answered) == told(said(earlier)));
            lemma_one_more(answered, started);
            assert(said(events) =~= answered + seq![started]);
        }
    }
}

/// The end of input ends a session that awaits a request, in silence.
pub proof fn law_end_of_input_ends_an_idle_session()
    ensures
        next(SessionView::Idle, EventView::InputClosed) == Ok::<StepView, ErrorView>(
            StepView {
                session: SessionView::Closed,
                messages: seq![],
                action: ActionView::Exit,
                notice: None,
            },
        ),
{
}

/// A wrapper's question is asked about under two tokens, whole: the step is the one that the
/// question leads to under these tokens, and each token is a random UUID.
pub proof fn law_question_is_asked_whole(
    step: StepView,
    session: SessionView,
    request: WrapperExecRequestView,
    callback_token: Seq<char>,
    approval_token: Seq<char>,
)
    requires
        asks_about(step, session, request, callback_token, approval_token),
    ensures
        next(session, EventView::Intercepted { request, callback_token, approval_token }) == Ok::<
            StepView,
            ErrorView,
        >(step),
        callback_token.len() == 36,
        callback_token[14] == '4',
        approval_token.len() == 36,
        approval_token[14] == '4',
{
}

} // verus!
