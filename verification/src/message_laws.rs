//! What the sidecar's words look like on the wire, member by member.

use crate::decode::member;
use crate::json::{exact, parsed, written, JsonView};
use crate::message::{
    carries, law_message_is_exact, line_of, message_tree, sendable, MessageView, OutputStream,
};
use crate::params::IdView;
use crate::reading_laws::{law_first_member_is_found, word_array};
use crate::text::trimmed;
use vstd::prelude::*;
use vstd::string::*;

verus! {

/// The names of the members of an object, in order.
pub open spec fn member_names(tree: JsonView) -> Seq<Seq<char>> {
    Seq::new(tree->Object_0.len(), |i: int| tree->Object_0[i].0)
}

/// Whether a value is an object with these members and no others, in this order.
pub open spec fn has_members(tree: JsonView, names: Seq<Seq<char>>) -> bool {
    tree is Object && member_names(tree) == names
}

/// The JSON form of an identifier: a number or a string.
pub open spec fn id_value(id: IdView) -> JsonView {
    match id {
        IdView::Number(n) => JsonView::Integer(n),
        IdView::Text(text) => JsonView::Text(text),
    }
}

/// Whether a message is a JSON-RPC response to a request, with a result or an error.
pub open spec fn is_response(tree: JsonView, id: IdView, outcome: Seq<char>) -> bool {
    &&& has_members(tree, seq!["jsonrpc"@, "id"@, outcome])
    &&& member(tree, "jsonrpc"@) == Some(JsonView::Text("2.0"@))
    &&& member(tree, "id"@) == Some(id_value(id))
    &&& member(tree, outcome) is Some
}

/// Whether a message is a JSON-RPC notification of a method.
pub open spec fn is_notification(tree: JsonView, method: Seq<char>) -> bool {
    &&& has_members(tree, seq!["jsonrpc"@, "method"@, "params"@])
    &&& member(tree, "jsonrpc"@) == Some(JsonView::Text("2.0"@))
    &&& member(tree, "method"@) == Some(JsonView::Text(method))
    &&& member(tree, "params"@) is Some
}

/// In a value without loss every member of an object is found under its name.
proof fn lemma_found(tree: JsonView, at: int)
    requires
        exact(tree),
        tree is Object,
        0 <= at < tree->Object_0.len(),
    ensures
        member(tree, tree->Object_0[at].0) == Some(tree->Object_0[at].1),
        exact(tree->Object_0[at].1),
{
    law_first_member_is_found(tree->Object_0, at);
}

/// `zsh/initialize` is answered under its identifier with protocol version 1 and without a
/// terminal.
pub proof fn law_initialized_on_the_wire(id: IdView)
    requires
        sendable(MessageView::Initialized { id }),
    ensures
        ({
            let tree = message_tree(MessageView::Initialized { id });
            let result = member(tree, "result"@)->0;
            let capabilities = member(result, "capabilities"@)->0;
            &&& is_response(tree, id, "result"@)
            &&& has_members(result, seq!["protocolVersion"@, "capabilities"@])
            &&& member(result, "protocolVersion"@) == Some(JsonView::Integer(1))
            &&& member(result, "capabilities"@) is Some
            &&& has_members(capabilities, seq!["interactivePty"@])
            &&& member(capabilities, "interactivePty"@) == Some(JsonView::Bool(false))
        }),
{
    let tree = message_tree(MessageView::Initialized { id });
    law_message_is_exact(MessageView::Initialized { id });
    lemma_found(tree, 0);
    lemma_found(tree, 1);
    lemma_found(tree, 2);
    let result = tree->Object_0[2].1;
    lemma_found(result, 0);
    lemma_found(result, 1);
    let capabilities = result->Object_0[1].1;
    lemma_found(capabilities, 0);
    assert(member_names(tree) =~= seq!["jsonrpc"@, "id"@, "result"@]);
    assert(member_names(result) =~= seq!["protocolVersion"@, "capabilities"@]);
    assert(member_names(capabilities) =~= seq!["interactivePty"@]);
}

/// A request that succeeds and has nothing to say is answered under its identifier with an empty
/// object.
pub proof fn law_done_on_the_wire(id: IdView)
    requires
        sendable(MessageView::Done { id }),
    ensures
        ({
            let tree = message_tree(MessageView::Done { id });
            &&& is_response(tree, id, "result"@)
            &&& member(tree, "result"@) == Some(JsonView::Object(seq![]))
        }),
{
    let tree = message_tree(MessageView::Done { id });
    law_message_is_exact(MessageView::Done { id });
    lemma_found(tree, 0);
    lemma_found(tree, 1);
    lemma_found(tree, 2);
    assert(member_names(tree) =~= seq!["jsonrpc"@, "id"@, "result"@]);
}

/// A request that fails is answered under its identifier with its code and its message.
pub proof fn law_failed_on_the_wire(id: IdView, code: int, message: Seq<char>)
    requires
        sendable(MessageView::Failed { id, code, message }),
    ensures
        ({
            let tree = message_tree(MessageView::Failed { id, code, message });
            let error = member(tree, "error"@)->0;
            &&& is_response(tree, id, "error"@)
            &&& has_members(error, seq!["code"@, "message"@])
            &&& member(error, "code"@) == Some(JsonView::Integer(code))
            &&& member(error, "message"@) == Some(JsonView::Text(message))
        }),
{
    let tree = message_tree(MessageView::Failed { id, code, message });
    law_message_is_exact(MessageView::Failed { id, code, message });
    lemma_found(tree, 0);
    lemma_found(tree, 1);
    lemma_found(tree, 2);
    let error = tree->Object_0[2].1;
    lemma_found(error, 0);
    lemma_found(error, 1);
    assert(member_names(tree) =~= seq!["jsonrpc"@, "id"@, "error"@]);
    assert(member_names(error) =~= seq!["code"@, "message"@]);
}

/// The start of a command is told under its identifier.
pub proof fn law_started_on_the_wire(exec_id: Seq<char>)
    ensures
        ({
            let tree = message_tree(MessageView::ExecStarted { exec_id });
            let params = member(tree, "params"@)->0;
            &&& is_notification(tree, "zsh/event/execStarted"@)
            &&& has_members(params, seq!["execId"@])
            &&& member(params, "execId"@) == Some(JsonView::Text(exec_id))
        }),
{
    let tree = message_tree(MessageView::ExecStarted { exec_id });
    law_message_is_exact(MessageView::ExecStarted { exec_id });
    lemma_found(tree, 0);
    lemma_found(tree, 1);
    lemma_found(tree, 2);
    let params = tree->Object_0[2].1;
    lemma_found(params, 0);
    assert(member_names(tree) =~= seq!["jsonrpc"@, "method"@, "params"@]);
    assert(member_names(params) =~= seq!["execId"@]);
}

/// Output goes out under the method of its own stream, whatever it holds, with the command's
/// identifier and the text of the chunk.
pub proof fn law_output_on_the_wire(
    stream: OutputStream,
    exec_id: Seq<char>,
    chunk_base64: Seq<char>,
)
    ensures
        ({
            let tree = message_tree(MessageView::ExecOutput { stream, exec_id, chunk_base64 });
            let params = member(tree, "params"@)->0;
            &&& stream == OutputStream::Stdout ==> is_notification(tree, "zsh/event/execStdout"@)
            &&& stream == OutputStream::Stderr ==> is_notification(tree, "zsh/event/execStderr"@)
            &&& has_members(params, seq!["execId"@, "chunkBase64"@])
            &&& member(params, "execId"@) == Some(JsonView::Text(exec_id))
            &&& member(params, "chunkBase64"@) == Some(JsonView::Text(chunk_base64))
        }),
{
    let message = MessageView::ExecOutput { stream, exec_id, chunk_base64 };
    let tree = message_tree(message);
    law_message_is_exact(message);
    lemma_found(tree, 0);
    lemma_found(tree, 1);
    lemma_found(tree, 2);
    let params = tree->Object_0[2].1;
    lemma_found(params, 0);
    lemma_found(params, 1);
    assert(member_names(tree) =~= seq!["jsonrpc"@, "method"@, "params"@]);
    assert(member_names(params) =~= seq!["execId"@, "chunkBase64"@]);
}

/// The end of a command is told with its exit code, its signal or null, and whether it timed out.
pub proof fn law_exited_on_the_wire(
    exec_id: Seq<char>,
    exit_code: int,
    signal: Option<Seq<char>>,
    timed_out: Option<bool>,
)
    requires
        sendable(MessageView::ExecExited { exec_id, exit_code, signal, timed_out }),
    ensures
        ({
            let tree = message_tree(
                MessageView::ExecExited { exec_id, exit_code, signal, timed_out },
            );
            let params = member(tree, "params"@)->0;
            &&& is_notification(tree, "zsh/event/execExited"@)
            &&& has_members(params, seq!["execId"@, "exitCode"@, "signal"@, "timedOut"@])
            &&& member(params, "execId"@) == Some(JsonView::Text(exec_id))
            &&& member(params, "exitCode"@) == Some(JsonView::Integer(exit_code))
            &&& member(params, "signal"@) == Some(
                match signal {
                    Some(text) => JsonView::Text(text),
                    None => JsonView::Null,
                },
            )
            &&& member(params, "timedOut"@) == Some(
                match timed_out {
                    Some(flag) => JsonView::Bool(flag),
                    None => JsonView::Null,
                },
            )
        }),
{
    let message = MessageView::ExecExited { exec_id, exit_code, signal, timed_out };
    let tree = message_tree(message);
    law_message_is_exact(message);
    lemma_found(tree, 0);
    lemma_found(tree, 1);
    lemma_found(tree, 2);
    let params = tree->Object_0[2].1;
    lemma_found(params, 0);
    lemma_found(params, 1);
    lemma_found(params, 2);
    lemma_found(params, 3);
    assert(member_names(tree) =~= seq!["jsonrpc"@, "method"@, "params"@]);
    assert(member_names(params) =~= seq!["execId"@, "exitCode"@, "signal"@, "timedOut"@]);
}

/// A question goes out as a request under its identifier, with every word of the command, the
/// directory, the reason and the proposal, if there is one.
pub proof fn law_question_on_the_wire(message: MessageView)
    requires
        message is ApprovalRequest,
        sendable(message),
    ensures
        ({
            let id = message->ApprovalRequest_id;
            let asked = message->ApprovalRequest_params;
            let tree = message_tree(message);
            let params = member(tree, "params"@)->0;
            let proposal = member(params, "proposedExecpolicyAmendment"@)->0;
            &&& has_members(tree, seq!["jsonrpc"@, "id"@, "method"@, "params"@])
            &&& member(tree, "jsonrpc"@) == Some(JsonView::Text("2.0"@))
            &&& member(tree, "id"@) == Some(id_value(id))
            &&& member(tree, "method"@) == Some(JsonView::Text("zsh/requestApproval"@))
            &&& member(tree, "params"@) is Some
            &&& has_members(
                params,
                seq![
                    "approvalId"@,
                    "execId"@,
                    "command"@,
                    "cwd"@,
                    "reason"@,
                    "proposedExecpolicyAmendment"@,
                ],
            )
            &&& member(params, "approvalId"@) == Some(JsonView::Text(asked.approval_id))
            &&& member(params, "execId"@) == Some(JsonView::Text(asked.exec_id))
            &&& member(params, "command"@) == Some(word_array(asked.command))
            &&& member(params, "cwd"@) == Some(JsonView::Text(asked.cwd))
            &&& member(params, "reason"@) == Some(JsonView::Text(asked.reason))
            &&& match asked.proposed_execpolicy_amendment {
                None => member(params, "proposedExecpolicyAmendment"@) == Some(JsonView::Null),
                Some(proposed) => {
                    &&& member(params, "proposedExecpolicyAmendment"@) is Some
                    &&& has_members(proposal, seq!["commandPrefix"@, "rationale"@])
                    &&& member(proposal, "commandPrefix"@) == Some(
                        word_array(proposed.command_prefix),
                    )
                    &&& member(proposal, "rationale"@) == Some(
                        match proposed.rationale {
                            Some(text) => JsonView::Text(text),
                            None => JsonView::Null,
                        },
                    )
                },
            }
        }),
{
    let asked = message->ApprovalRequest_params;
    let tree = message_tree(message);
    law_message_is_exact(message);
    lemma_found(tree, 0);
    lemma_found(tree, 1);
    lemma_found(tree, 2);
    lemma_found(tree, 3);
    let params = tree->Object_0[3].1;
    lemma_found(params, 0);
    lemma_found(params, 1);
    lemma_found(params, 2);
    lemma_found(params, 3);
    lemma_found(params, 4);
    lemma_found(params, 5);
    assert(member_names(tree) =~= seq!["jsonrpc"@, "id"@, "method"@, "params"@]);
    assert(member_names(params) =~= seq![
        "approvalId"@,
        "execId"@,
        "command"@,
        "cwd"@,
        "reason"@,
        "proposedExecpolicyAmendment"@,
    ]);
    assert(params->Object_0[2].1->Array_0 =~= word_array(asked.command)->Array_0);
    if let Some(proposed) = asked.proposed_execpolicy_amendment {
        let proposal = params->Object_0[5].1;
        lemma_found(proposal, 0);
        lemma_found(proposal, 1);
        assert(member_names(proposal) =~= seq!["commandPrefix"@, "rationale"@]);
        assert(proposal->Object_0[0].1->Array_0 =~= word_array(proposed.command_prefix)->Array_0);
    }
}

/// The line on which a value is sent is its JSON text and a line break.
pub proof fn law_line_is_text_and_break(tree: JsonView)
    ensures
        line_of(tree) == written(tree) + seq!['\n'],
{
    assert(line_of(tree) =~= written(tree) + seq!['\n']);
}

/// A line that carries a value is its JSON text and one line break, and is read as the value both
/// without the line break and without the white space around it.
pub proof fn law_carrying_line_is_read(line: Seq<char>, tree: JsonView)
    requires
        carries(line, tree),
    ensures
        line == written(tree) + seq!['\n'],
        forall|i: int| 0 <= i < line.len() - 1 ==> (#[trigger] line[i]) != '\n',
        line.len() > 1,
        parsed(line.drop_last()) == Ok::<JsonView, Seq<char>>(tree),
        parsed(trimmed(line)) == Ok::<JsonView, Seq<char>>(tree),
{
    assert(line =~= written(tree) + seq!['\n']);
    assert forall|i: int| 0 <= i < line.len() - 1 implies (#[trigger] line[i]) != '\n' by {
        assert(line.drop_last()[i] == line[i]);
    }
}

} // verus!
