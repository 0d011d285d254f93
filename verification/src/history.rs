//! What holds of every session from its start on, whatever happens to it.

use crate::approval::{
    grants, refusal, reply_of, ApprovalDecision, ApprovalReply, RequestApprovalResult,
};
use crate::chunk::base64_text;
use crate::decode::{member, named, params_from, FromJson};
use crate::error::ErrorView;
use crate::json::{parsed, reading, JsonView};
use crate::message::{
    carries, message_tree, text_tree, texts_tree, ApprovalParamsView, MessageView, OutputStream,
    METHOD_ZSH_EXEC_INTERRUPT, METHOD_ZSH_SHUTDOWN,
};
use crate::params::{ExecStartParams, IdView, JsonRpcId};
use crate::session::{
    awaited, complete, exec_callback_id, exec_question, expects, message_step, method_of, next,
    subcommand_callback_id, subcommand_question, ActionView, EventView, LaunchPlanView, RunView,
    SessionView, StepView, NOT_APPROVED,
};
use crate::text::trimmed;
use crate::wrapper::{
    target_words, wrapper_request_tree, WrapperExecAction, WrapperExecRequest,
    WrapperExecRequestView,
};
use crate::wrapper_json::law_wrapper_request_is_read_back;
use vstd::prelude::*;
use vstd::string::*;
use vstd::utf8::*;

verus! {

/// The state of a session after some events.
pub open spec fn state_after(events: Seq<EventView>) -> SessionView
    decreases events.len(),
{
    if events.len() == 0 {
        SessionView::Idle
    } else {
        next(state_after(events.drop_last()), events.last())->Ok_0.session
    }
}

/// The step that the last of some events leads to.
pub open spec fn last_step(events: Seq<EventView>) -> Result<StepView, ErrorView> {
    next(state_after(events.drop_last()), events.last())
}

/// Everything that a session has said after some events.
pub open spec fn said(events: Seq<EventView>) -> Seq<MessageView>
    decreases events.len(),
{
    if events.len() == 0 {
        Seq::empty()
    } else {
        said(events.drop_last()) + last_step(events)->Ok_0.messages
    }
}

/// Events that can happen to a session one after the other without its giving up.
pub open spec fn possible(events: Seq<EventView>) -> bool
    decreases events.len(),
{
    events.len() == 0 || {
        &&& possible(events.drop_last())
        &&& expects(state_after(events.drop_last()), events.last())
        &&& last_step(events) is Ok
    }
}

/// The request that a session takes up in an event: its identifier.
pub open spec fn request_in(session: SessionView, event: EventView) -> Seq<IdView> {
    match event {
        EventView::Line(line) => if session is Idle && trimmed(line).len() > 0 {
            match parsed(line) {
                Ok(message) => match member(message, "id"@) {
                    Some(id) => match JsonRpcId::from_tree(id) {
                        Ok(id) => seq![id],
                        Err(_) => Seq::empty(),
                    },
                    None => Seq::empty(),
                },
                Err(_) => Seq::empty(),
            }
        } else {
            Seq::empty()
        },
        _ => Seq::empty(),
    }
}

/// The requests that a session has taken up, in order.
pub open spec fn requests(events: Seq<EventView>) -> Seq<IdView>
    decreases events.len(),
{
    if events.len() == 0 {
        Seq::empty()
    } else {
        requests(events.drop_last()) + request_in(state_after(events.drop_last()), events.last())
    }
}

/// The request that a message answers.
pub open spec fn answer_in(message: MessageView) -> Seq<IdView> {
    match message {
        MessageView::Initialized { id } => seq![id],
        MessageView::Done { id } => seq![id],
        MessageView::Failed { id, .. } => seq![id],
        _ => Seq::empty(),
    }
}

/// The requests that messages answer, in order.
pub open spec fn answers(messages: Seq<MessageView>) -> Seq<IdView>
    decreases messages.len(),
{
    if messages.len() == 0 {
        Seq::empty()
    } else {
        answers(messages.drop_last()) + answer_in(messages.last())
    }
}

/// The request that a session still owes an answer to.
pub open spec fn pending(session: SessionView) -> Seq<IdView> {
    match session {
        SessionView::AwaitingExecApproval { id, .. } => seq![id],
        SessionView::Launching { id, .. } => seq![id],
        _ => Seq::empty(),
    }
}

pub proof fn lemma_one_more(messages: Seq<MessageView>, message: MessageView)
    ensures
        (messages + seq![message]).drop_last() == messages,
        (messages + seq![message]).last() == message,
        answers(messages + seq![message]) == answers(messages) + answer_in(message),
{
    assert((messages + seq![message]).drop_last() =~= messages);
}

/// What the steps of a session say: nothing, one message, or that a command was started.
pub proof fn lemma_step_says(session: SessionView, event: EventView)
    requires
        expects(session, event),
        next(session, event) is Ok,
    ensures
        ({
            let messages = next(session, event)->Ok_0.messages;
            ||| messages == Seq::<MessageView>::empty()
            ||| messages == seq![messages[0]]
            ||| session matches SessionView::Launching { id, exec_id } && event is Spawned
                && messages == seq![MessageView::Done { id }, MessageView::ExecStarted { exec_id }]
        }),
{
    let messages = next(session, event)->Ok_0.messages;
    if messages.len() == 1 {
        assert(messages =~= seq![messages[0]]);
    } else if messages.len() == 0 {
        assert(messages =~= Seq::<MessageView>::empty());
    }
}

/// Every request is answered once, under its own identifier, in the order in which requests come;
/// at most one is not answered yet.
pub proof fn law_requests_are_answered_in_order(events: Seq<EventView>)
    requires
        possible(events),
    ensures
        requests(events) == answers(said(events)) + pending(state_after(events)),
        pending(state_after(events)).len() <= 1,
    decreases events.len(),
{
    if events.len() > 0 {
        let earlier = events.drop_last();
        let session = state_after(earlier);
        let event = events.last();
        law_requests_are_answered_in_order(earlier);
        lemma_step_says(session, event);
        let messages = last_step(events)->Ok_0.messages;
        if messages == Seq::<MessageView>::empty() {
            assert(said(events) =~= said(earlier));
        } else if messages.len() == 1 {
            lemma_one_more(said(earlier), messages[0]);
        } else if let SessionView::Launching { id, exec_id } = session {
            let answered = said(earlier) + seq![MessageView::Done { id }];
            let started = MessageView::ExecStarted { exec_id };
            lemma_one_more(said(earlier), MessageView::Done { id });
            lemma_one_more(answered, started);
            assert(said(events) =~= answered + seq![started]);
        }
        assert(requests(events) =~= answers(said(events)) + pending(state_after(events)));
    }
}

/// The command that runs after messages: the last that was started, unless it has ended.
pub open spec fn running(messages: Seq<MessageView>) -> Option<Seq<char>>
    decreases messages.len(),
{
    if messages.len() == 0 {
        None
    } else {
        match messages.last() {
            MessageView::ExecStarted { exec_id } => Some(exec_id),
            MessageView::ExecExited { .. } => None,
            _ => running(messages.drop_last()),
        }
    }
}

/// Whether a message can follow while a command runs, or while none does.
pub open spec fn may_follow(run: Option<Seq<char>>, message: MessageView) -> bool {
    match message {
        MessageView::ExecOutput { exec_id, .. } => run == Some(exec_id),
        MessageView::ExecExited { exec_id, .. } => run == Some(exec_id),
        MessageView::ApprovalRequest { params, .. } => run is None || run == Some(params.exec_id),
        _ => run is None,
    }
}

/// Whether messages keep to the order of events: a command is started when none runs, its output
/// and its end follow, and nothing else but questions about it comes between.
pub open spec fn well_ordered(messages: Seq<MessageView>) -> bool
    decreases messages.len(),
{
    messages.len() == 0 || {
        &&& well_ordered(messages.drop_last())
        &&& may_follow(running(messages.drop_last()), messages.last())
    }
}

/// The command that runs in a state.
pub open spec fn run_in(session: SessionView) -> Option<Seq<char>> {
    match session {
        SessionView::Running { run } => Some(run.exec_id),
        SessionView::AwaitingSubcommandApproval { run, .. } => Some(run.exec_id),
        SessionView::Finishing { exec_id, .. } => Some(exec_id),
        _ => None,
    }
}

/// What a session says keeps to the order of events: `execStarted` comes first, output and
/// questions about subcommands follow under the same identifier, and `execExited` comes once and
/// last. A request is answered only when no command runs.
pub proof fn law_events_are_ordered(events: Seq<EventView>)
    requires
        possible(events),
    ensures
        well_ordered(said(events)),
        running(said(events)) == run_in(state_after(events)),
    decreases events.len(),
{
    if events.len() > 0 {
        let earlier = events.drop_last();
        let session = state_after(earlier);
        let event = events.last();
        law_events_are_ordered(earlier);
        lemma_step_says(session, event);
        let messages = last_step(events)->Ok_0.messages;
        if messages == Seq::<MessageView>::empty() {
            assert(said(events) =~= said(earlier));
        } else if messages.len() == 1 {
            lemma_one_more(said(earlier), messages[0]);
        } else if let SessionView::Launching { id, exec_id } = session {
            let answered = said(earlier) + seq![MessageView::Done { id }];
            let started = MessageView::ExecStarted { exec_id };
            lemma_one_more(said(earlier), MessageView::Done { id });
            assert(well_ordered(answered) && running(answered) is None);
            lemma_one_more(answered, started);
            assert(said(events) =~= answered + seq![started]);
        }
    }
}

/// The output that an event brings.
pub open spec fn output_in(event: EventView) -> Seq<(OutputStream, Seq<char>)> {
    match event {
        EventView::Output { stream, chunk } => seq![(stream, base64_text(chunk))],
        _ => Seq::empty(),
    }
}

/// The output that events bring, in order.
pub open spec fn output(events: Seq<EventView>) -> Seq<(OutputStream, Seq<char>)>
    decreases events.len(),
{
    if events.len() == 0 {
        Seq::empty()
    } else {
        output(events.drop_last()) + output_in(events.last())
    }
}

/// The output that messages carry, in order.
pub open spec fn carried(messages: Seq<MessageView>) -> Seq<(OutputStream, Seq<char>)>
    decreases messages.len(),
{
    if messages.len() == 0 {
        Seq::empty()
    } else {
        carried(messages.drop_last()) + match messages.last() {
            MessageView::ExecOutput { stream, chunk_base64, .. } => seq![(stream, chunk_base64)],
            _ => Seq::empty(),
        }
    }
}

/// The host is sent all output, each chunk once, on the stream it came from and in order.
pub proof fn law_output_is_passed_on(events: Seq<EventView>)
    requires
        possible(events),
    ensures
        carried(said(events)) == output(events),
    decreases events.len(),
{
    if events.len() > 0 {
        let earlier = events.drop_last();
        let session = state_after(earlier);
        let event = events.last();
        law_output_is_passed_on(earlier);
        lemma_step_says(session, event);
        let messages = last_step(events)->Ok_0.messages;
        if messages == Seq::<MessageView>::empty() {
            assert(said(events) =~= said(earlier));
        } else if messages.len() == 1 {
            lemma_one_more(said(earlier), messages[0]);
        } else if let SessionView::Launching { id, exec_id } = session {
            let answered = said(earlier) + seq![MessageView::Done { id }];
            let started = MessageView::ExecStarted { exec_id };
            lemma_one_more(said(earlier), MessageView::Done { id });
            assert(carried(answered) =~= carried(said(earlier)));
            lemma_one_more(answered, started);
            assert(said(events) =~= answered + seq![started]);
        }
        assert(carried(said(events)) =~= output(events));
    }
}

/// Whether an event is the host's answer to question `id`, and lets the command run.
pub open spec fn granted_by(event: EventView, id: IdView) -> bool {
    &&& event matches EventView::Line(line)
    &&& parsed(line) matches Ok(message)
    &&& reply_of(message, id) matches Ok(ApprovalReply::Decided(decision))
    &&& grants(decision)
}

/// The question about a command that a plan starts.
pub open spec fn plan_question(exec_id: Seq<char>, plan: LaunchPlanView) -> MessageView {
    MessageView::ApprovalRequest {
        id: IdView::Text(exec_callback_id(exec_id)),
        params: ApprovalParamsView {
            approval_id: exec_callback_id(exec_id),
            exec_id,
            command: seq![plan.program] + plan.args,
            cwd: plan.cwd,
            reason: "zsh sidecar execStart command approval"@,
            proposed_execpolicy_amendment: None,
        },
    }
}

/// The latest of some events in which a subcommand was held up.
pub open spec fn latest_hold(events: Seq<EventView>) -> Option<EventView>
    decreases events.len(),
{
    if events.len() == 0 {
        None
    } else if events.last() is Intercepted {
        Some(events.last())
    } else {
        latest_hold(events.drop_last())
    }
}

/// Whether a message is the question about a subcommand of a run that was held up in an event.
pub open spec fn asks_about_hold(
    message: MessageView,
    exec_id: Seq<char>,
    event: Option<EventView>,
) -> bool {
    event matches Some(
        EventView::Intercepted { request, callback_token, approval_token },
    ) && message == subcommand_question(exec_id, request, callback_token, approval_token)
}

/// While a decision is awaited, the last thing said is the question, under the identifier that
/// the answer is to have: about the command that is to start, or about the subcommand that was
/// held up last.
pub proof fn law_question_is_the_last_word(events: Seq<EventView>)
    requires
        possible(events),
        awaited(state_after(events)) is Some,
    ensures
        said(events).len() > 0,
        match state_after(events) {
            SessionView::AwaitingExecApproval { callback_id, exec_id, plan, .. } => {
                &&& callback_id == IdView::Text(exec_callback_id(exec_id))
                &&& said(events).last() == plan_question(exec_id, plan)
            },
            SessionView::AwaitingSubcommandApproval { run, callback_id } => {
                &&& said(events).last() matches MessageView::ApprovalRequest { id, .. } && id
                    == callback_id
                &&& asks_about_hold(said(events).last(), run.exec_id, latest_hold(events))
            },
            _ => false,
        },
    decreases events.len(),
{
    let earlier = events.drop_last();
    let session = state_after(earlier);
    let event = events.last();
    lemma_step_says(session, event);
    let messages = last_step(events)->Ok_0.messages;
    if awaited(session) is Some {
        law_question_is_the_last_word(earlier);
        assert(messages == Seq::<MessageView>::empty());
        assert(said(events) =~= said(earlier));
    } else {
        assert(messages == seq![messages[0]]);
        lemma_one_more(said(earlier), messages[0]);
        if let SessionView::AwaitingExecApproval { exec_id, plan, .. } = state_after(events) {
            lemma_question_matches_plan(session, event);
        }
    }
}

/// The question about a command is about the command of the plan.
proof fn lemma_question_matches_plan(session: SessionView, event: EventView)
    requires
        session is Idle,
        expects(session, event),
        next(session, event)->Ok_0.session is AwaitingExecApproval,
    ensures
        next(session, event) matches Ok(step) && step.session
            matches SessionView::AwaitingExecApproval { exec_id, plan, .. } && step.messages
            == seq![plan_question(exec_id, plan)],
{
    let step = next(session, event)->Ok_0;
    if let SessionView::AwaitingExecApproval { exec_id, plan, .. } = step.session {
        if let EventView::Line(line) = event {
            let message = parsed(line)->Ok_0;
            let params = params_from::<ExecStartParams>(message)->Ok_0;
            assert(step.messages == seq![exec_question(params)]);
            assert(seq![plan.program] + plan.args =~= params.command);
        }
    }
}

/// A command is launched only when the host was asked about this very command, in this very
/// directory, and answered the question with a decision that grants it.
pub proof fn law_launch_is_approved(events: Seq<EventView>)
    requires
        possible(events),
        events.len() > 0,
        last_step(events)->Ok_0.action is Launch,
    ensures
        ({
            let plan = last_step(events)->Ok_0.action->Launch_0;
            &&& state_after(events) matches SessionView::Launching { exec_id, .. }
            &&& said(events).len() > 0
            &&& said(events).last() == plan_question(exec_id, plan)
            &&& granted_by(events.last(), IdView::Text(exec_callback_id(exec_id)))
        }),
{
    let earlier = events.drop_last();
    let session = state_after(earlier);
    assert(session is AwaitingExecApproval);
    law_question_is_the_last_word(earlier);
    assert(said(events) =~= said(earlier));
}

/// Whether a command is launched under an identifier in the last of some events.
pub open spec fn launches(events: Seq<EventView>, exec_id: Seq<char>) -> bool {
    &&& possible(events)
    &&& events.len() > 0
    &&& last_step(events)->Ok_0.action is Launch
    &&& state_after(events) matches SessionView::Launching { exec_id: launched, .. } && launched
        == exec_id
}

/// A session comes to launch a command only by the step that says so.
proof fn lemma_launching_is_new(session: SessionView, event: EventView)
    requires
        expects(session, event),
        next(session, event) is Ok,
        next(session, event)->Ok_0.session is Launching,
    ensures
        next(session, event)->Ok_0.action is Launch,
{
}

/// Every `execStarted` that a session says goes back to a launch, and so to an approval, of the
/// command it names.
pub proof fn law_every_start_was_launched(events: Seq<EventView>, exec_id: Seq<char>)
    requires
        possible(events),
        said(events).contains(MessageView::ExecStarted { exec_id }),
    ensures
        exists|count: int|
            0 < count <= events.len() && launches(#[trigger] events.take(count), exec_id),
    decreases events.len(),
{
    let started = MessageView::ExecStarted { exec_id };
    let earlier = events.drop_last();
    let session = state_after(earlier);
    let event = events.last();
    lemma_step_says(session, event);
    let messages = last_step(events)->Ok_0.messages;
    assert(said(earlier).contains(started) || messages.contains(started)) by {
        let i = choose|i: int| 0 <= i < said(events).len() && said(events)[i] == started;
        if i < said(earlier).len() {
            assert(said(earlier)[i] == started);
        } else {
            assert(messages[i - said(earlier).len()] == started);
        }
    }
    if said(earlier).contains(started) {
        law_every_start_was_launched(earlier, exec_id);
        let count = choose|count: int|
            0 < count <= earlier.len() && launches(#[trigger] earlier.take(count), exec_id);
        assert(earlier.take(count) =~= events.take(count));
    } else {
        assert(session is Launching && session->Launching_exec_id == exec_id);
        assert(earlier.len() > 0);
        assert(possible(earlier));
        lemma_launching_is_new(state_after(earlier.drop_last()), earlier.last());
        assert(events.take(earlier.len() as int) =~= earlier);
        assert(launches(events.take(earlier.len() as int), exec_id));
    }
}

/// A subcommand is let run only when the host was asked about this very subcommand, the one that
/// was held up last, and answered the question with a decision that grants it.
pub proof fn law_subcommand_is_approved(events: Seq<EventView>)
    requires
        possible(events),
        events.len() > 0,
        last_step(events)->Ok_0.action matches ActionView::Answer(answer) && answer.action
            == WrapperExecAction::Run,
    ensures
        said(events).len() > 0,
        run_in(state_after(events)) matches Some(exec_id) && asks_about_hold(
            said(events).last(),
            exec_id,
            latest_hold(events),
        ),
        said(events).last() matches MessageView::ApprovalRequest { id, .. } && granted_by(
            events.last(),
            id,
        ),
{
    let earlier = events.drop_last();
    assert(state_after(earlier) is AwaitingSubcommandApproval);
    law_question_is_the_last_word(earlier);
    assert(said(events) =~= said(earlier));
}

/// What a wrapper sends is what the host is asked about: the bytes of its line, as UTF-8 and
/// without the white space around them, are a value that is read as its question, and the host is
/// asked about the target's own words, or its path where it has none, in the wrapper's own
/// directory.
pub proof fn law_wrapper_question_reaches_the_host(
    args: Seq<Seq<char>>,
    cwd: Seq<char>,
    line: Seq<char>,
    run: RunView,
    callback_token: Seq<char>,
    approval_token: Seq<char>,
)
    requires
        args.len() >= 2,
        carries(
            line,
            wrapper_request_tree(
                WrapperExecRequestView { file: args[1], argv: target_words(args), cwd },
            ),
        ),
    ensures
        ({
            let request = WrapperExecRequestView {
                file: args[1],
                argv: target_words(args),
                cwd,
            };
            let asked = next(
                SessionView::Running { run },
                EventView::Intercepted { request, callback_token, approval_token },
            );
            let question = asked->Ok_0.messages[0];
            let params = member(message_tree(question), "params"@);
            &&& valid_utf8(encode_utf8(line))
            &&& parsed(trimmed(decode_utf8(encode_utf8(line)))) == reading(
                wrapper_request_tree(request),
            )
            &&& WrapperExecRequest::from_tree(wrapper_request_tree(request)) == Ok::<
                WrapperExecRequestView,
                Seq<char>,
            >(request)
            &&& asked is Ok && asked->Ok_0.messages.len() == 1
            &&& question is ApprovalRequest
            &&& params is Some
            &&& member(params->0, "command"@) == Some(
                texts_tree(
                    if args.len() > 2 {
                        args.skip(2)
                    } else {
                        seq![args[1]]
                    },
                ),
            )
            &&& member(params->0, "cwd"@) == Some(text_tree(cwd))
        }),
{
    broadcast use encode_utf8_valid_utf8, encode_utf8_decode_utf8;

    let request = WrapperExecRequestView { file: args[1], argv: target_words(args), cwd };
    law_wrapper_request_is_read_back(request);
    let question = subcommand_question(run.exec_id, request, callback_token, approval_token);
    let outer = message_tree(question)->Object_0;
    let inner = outer[3].1->Object_0;
    reveal_strlit("jsonrpc");
    reveal_strlit("id");
    reveal_strlit("method");
    reveal_strlit("params");
    reveal_strlit("approvalId");
    reveal_strlit("execId");
    reveal_strlit("command");
    reveal_strlit("cwd");
    assert("jsonrpc"@.len() == 7 && "id"@.len() == 2 && "method"@.len() == 6);
    assert("params"@.len() == 6 && "method"@[0] != "params"@[0]);
    assert("approvalId"@.len() == 10 && "execId"@.len() == 6);
    assert("command"@.len() == 7 && "cwd"@.len() == 3);
    reveal_with_fuel(named, 5);
    assert(outer.drop_first()[0] == outer[1]);
    assert(outer.drop_first().drop_first()[0] == outer[2]);
    assert(outer.drop_first().drop_first().drop_first()[0] == outer[3]);
    assert(inner.drop_first()[0] == inner[1]);
    assert(inner.drop_first().drop_first()[0] == inner[2]);
    assert(inner.drop_first().drop_first().drop_first()[0] == inner[3]);
}

/// A command that the host refuses is not started: its request is answered with the reason.
pub proof fn law_refused_command_is_not_started(
    session: SessionView,
    line: Seq<char>,
    message: JsonView,
    decision: ApprovalDecision,
)
    requires
        session is AwaitingExecApproval,
        trimmed(line).len() > 0,
        parsed(line) == Ok::<JsonView, Seq<char>>(message),
        reply_of(message, awaited(session)->0) == Ok::<ApprovalReply, ErrorView>(
            ApprovalReply::Decided(decision),
        ),
        !grants(decision),
    ensures
        next(session, EventView::Line(line)) == Ok::<StepView, ErrorView>(
            StepView {
                session: SessionView::Idle,
                messages: seq![
                    MessageView::Failed {
                        id: pending(session)[0],
                        code: NOT_APPROVED as int,
                        message: refusal(decision)->0,
                    },
                ],
                action: ActionView::Read,
                notice: None,
            },
        ),
{
}

/// While a decision is awaited, a blank line, a message without an identifier and the answer to
/// another question change nothing.
pub proof fn law_other_input_is_passed_over(session: SessionView, line: Seq<char>)
    requires
        awaited(session) is Some,
        trimmed(line).len() == 0 || (parsed(line) matches Ok(message) && {
            ||| member(message, "id"@) is None
            ||| JsonRpcId::from_tree(member(message, "id"@)->0) matches Ok(id) && Some(id)
                != awaited(session)
        }),
    ensures
        next(session, EventView::Line(line)) matches Ok(step) && step.session == session
            && step.messages.len() == 0 && step.action is Read,
{
}

/// A line that is no answer to the question, or an answer without a decision that can be read,
/// makes the session give up: nothing is started or let run on its account.
pub proof fn law_malformed_answer_is_an_error(session: SessionView, line: Seq<char>)
    requires
        awaited(session) is Some,
        trimmed(line).len() > 0,
        match parsed(line) {
            Err(_) => true,
            Ok(message) => member(message, "id"@) is Some && match JsonRpcId::from_tree(
                member(message, "id"@)->0,
            ) {
                Err(_) => true,
                Ok(id) => Some(id) == awaited(session) && {
                    ||| member(message, "error"@) is Some
                    ||| member(message, "result"@) is None
                    ||| RequestApprovalResult::from_tree(member(message, "result"@)->0) is Err
                },
            },
        },
    ensures
        next(session, EventView::Line(line)) is Err,
{
}

/// The end of input is an error while a decision is awaited, and the end of the session while a
/// request is.
pub proof fn law_end_of_input(session: SessionView)
    requires
        expects(session, EventView::InputClosed),
    ensures
        awaited(session) is Some ==> next(session, EventView::InputClosed) == Err::<
            StepView,
            ErrorView,
        >(ErrorView::InputClosed),
        session is Idle ==> (next(session, EventView::InputClosed) matches Ok(step)
            && step.session is Closed && step.action is Exit && step.messages.len() == 0),
{
}

/// An interrupt never succeeds: whatever it names, it is answered with an error.
pub proof fn law_interrupt_fails(message: JsonView, id: IdView)
    requires
        member(message, "id"@) is Some,
        JsonRpcId::from_tree(member(message, "id"@)->0) == Ok::<IdView, Seq<char>>(id),
        method_of(message) == METHOD_ZSH_EXEC_INTERRUPT@,
    ensures
        message_step(message).session is Idle,
        message_step(message).messages.len() == 1,
        message_step(message).messages[0] matches MessageView::Failed { id: answered, .. }
            && answered == id,
{
    reveal_strlit("zsh/execInterrupt");
    reveal_strlit("zsh/initialize");
    reveal_strlit("zsh/execStart");
    assert("zsh/execInterrupt"@.len() == 17);
    assert("zsh/initialize"@.len() == 14);
    assert("zsh/execStart"@.len() == 13);
}

/// A session closes only when it is asked to, or when input ends, and only between commands.
pub proof fn law_closes_only_when_asked(session: SessionView, event: EventView)
    requires
        expects(session, event),
        next(session, event) is Ok,
        next(session, event)->Ok_0.session is Closed,
    ensures
        session is Idle,
        event is InputClosed || (event matches EventView::Line(line) && parsed(line) matches Ok(
            message,
        ) && method_of(message) == METHOD_ZSH_SHUTDOWN@),
{
}

/// Once a session is closed, nothing more happens to it.
pub proof fn law_closed_is_final(event: EventView)
    ensures
        !expects(SessionView::Closed, event),
{
}

/// A command that has ended and whose output has ended runs no longer: its end is told next.
pub proof fn law_complete_run_is_finished(events: Seq<EventView>)
    requires
        possible(events),
    ensures
        match state_after(events) {
            SessionView::Running { run } => !complete(run),
            SessionView::AwaitingSubcommandApproval { run, .. } => !complete(run),
            _ => true,
        },
    decreases events.len(),
{
    if events.len() > 0 {
        law_complete_run_is_finished(events.drop_last());
    }
}

/// Questions under different tokens have different identifiers, and none has the identifier of
/// the question about the command itself.
pub proof fn law_questions_are_told_apart(
    exec_id: Seq<char>,
    left: Seq<char>,
    right: Seq<char>,
)
    requires
        left != right,
    ensures
        subcommand_callback_id(exec_id, left) != subcommand_callback_id(exec_id, right),
        subcommand_callback_id(exec_id, left) != exec_callback_id(exec_id),
{
    reveal_strlit("-");
    let start = "approval-"@ + exec_id + "-"@;
    assert("-"@.len() == 1);
    if subcommand_callback_id(exec_id, left) == subcommand_callback_id(exec_id, right) {
        assert((start + left).skip(start.len() as int) =~= left);
        assert((start + right).skip(start.len() as int) =~= right);
    }
    assert(subcommand_callback_id(exec_id, left).len() > exec_callback_id(exec_id).len());
}

} // verus!
