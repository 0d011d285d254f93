//! Approval callbacks: what the host decides, and how its answer is read.

use crate::decode::{
    all_or_first, check_fields, fields_check, invalid_length, invalid_type, length_complaint,
    member, missing_complaint, missing_field, named, text_of, type_complaint, FromJson, Record,
};
use crate::error::{ErrorView, SidecarError};
use crate::json::{parse_json, parsed, Json, JsonView};
use crate::message::{
    id_tree, law_identifier_is_read_back, sendable_id, success_tree, text_tree,
};
use crate::params::{IdView, JsonRpcId};
use crate::text::{joined, same_text, trim, trimmed};
use vstd::prelude::*;
use vstd::string::*;

verus! {

/// What the host decides about a command.
#[derive(Debug, Clone, Copy, PartialEq, Eq, Structural)]
pub enum ApprovalDecision {
    Approved,
    ApprovedForSession,
    ApprovedExecpolicyAmendment,
    Denied,
    Abort,
}

impl View for ApprovalDecision {
    type V = ApprovalDecision;

    open spec fn view(&self) -> ApprovalDecision {
        *self
    }
}

/// Whether a decision lets the command run.
pub open spec fn grants(decision: ApprovalDecision) -> bool {
    ||| decision == ApprovalDecision::Approved
    ||| decision == ApprovalDecision::ApprovedForSession
    ||| decision == ApprovalDecision::ApprovedExecpolicyAmendment
}

/// Why a command does not run. Granting decisions have no reason.
pub open spec fn refusal(decision: ApprovalDecision) -> Option<Seq<char>> {
    match decision {
        ApprovalDecision::Denied => Some("command denied by host approval policy"@),
        ApprovalDecision::Abort => Some("command aborted by host approval policy"@),
        _ => None,
    }
}

/// Why a command does not run.
pub fn refusal_reason(decision: ApprovalDecision) -> (reason: Option<String>)
    ensures
        match reason {
            Some(text) => refusal(decision) == Some(text@),
            None => refusal(decision) is None,
        },
        reason is None <==> grants(decision),
{
    match decision {
        ApprovalDecision::Denied => Some("command denied by host approval policy".to_owned()),
        ApprovalDecision::Abort => Some("command aborted by host approval policy".to_owned()),
        _ => None,
    }
}

/// The decision with a name.
pub open spec fn decision_named(name: Seq<char>) -> Option<ApprovalDecision> {
    if name == "approved"@ {
        Some(ApprovalDecision::Approved)
    } else if name == "approved_for_session"@ {
        Some(ApprovalDecision::ApprovedForSession)
    } else if name == "approved_execpolicy_amendment"@ {
        Some(ApprovalDecision::ApprovedExecpolicyAmendment)
    } else if name == "denied"@ {
        Some(ApprovalDecision::Denied)
    } else if name == "abort"@ {
        Some(ApprovalDecision::Abort)
    } else {
        None
    }
}

/// The complaint about a name that no decision has.
pub open spec fn unknown_decision(name: Seq<char>) -> Seq<char> {
    "unknown variant `"@ + name
        + "`, expected one of `approved`, `approved_for_session`, `approved_execpolicy_amendment`, `denied`, `abort`"@
}

fn find_decision(name: &str) -> (result: Result<ApprovalDecision, String>)
    ensures
        match result {
            Ok(decision) => decision_named(name@) == Some(decision),
            Err(error) => decision_named(name@) is None && error@ == unknown_decision(name@),
        },
{
    if same_text(name, "approved") {
        Ok(ApprovalDecision::Approved)
    } else if same_text(name, "approved_for_session") {
        Ok(ApprovalDecision::ApprovedForSession)
    } else if same_text(name, "approved_execpolicy_amendment") {
        Ok(ApprovalDecision::ApprovedExecpolicyAmendment)
    } else if same_text(name, "denied") {
        Ok(ApprovalDecision::Denied)
    } else if same_text(name, "abort") {
        Ok(ApprovalDecision::Abort)
    } else {
        Err(
            joined("unknown variant `", name).concat(
                "`, expected one of `approved`, `approved_for_session`, `approved_execpolicy_amendment`, `denied`, `abort`",
            ),
        )
    }
}

/// The complaint about an object that should have one member, and has none or more.
pub open spec fn no_single_key() -> Seq<char> {
    "invalid value: map, expected map with a single key"@
}

impl FromJson for ApprovalDecision {
    /// A decision is written as its name, or as an object whose one member has that name and
    /// is null.
    open spec fn from_tree(tree: JsonView) -> Result<ApprovalDecision, Seq<char>> {
        match tree {
            JsonView::Text(name) => match decision_named(name) {
                Some(decision) => Ok(decision),
                None => Err(unknown_decision(name)),
            },
            JsonView::Object(members) => if members.len() != 1 {
                Err(no_single_key())
            } else {
                match decision_named(members[0].0) {
                    None => Err(unknown_decision(members[0].0)),
                    Some(decision) => if members[0].1 is Null {
                        Ok(decision)
                    } else {
                        Err(invalid_type(members[0].1, "unit"@))
                    },
                }
            },
            _ => Err(invalid_type(tree, "string or map"@)),
        }
    }

    fn read_json(json: &Json) -> (result: Result<ApprovalDecision, String>) {
        match json {
            Json::Text(name) => find_decision(name.as_str()),
            Json::Object(members) => {
                if members.len() != 1 {
                    return Err("invalid value: map, expected map with a single key".to_owned());
                }
                proof {
                    assert(json@->Object_0[0] == (members@[0].0@, members@[0].1@));
                }
                match find_decision(members[0].0.as_str()) {
                    Err(error) => Err(error),
                    Ok(decision) => match &members[0].1 {
                        Json::Null => Ok(decision),
                        _ => Err(type_complaint(&members[0].1, "unit")),
                    },
                }
            },
            _ => Err(type_complaint(json, "string or map")),
        }
    }
}

/// The result of an approval request.
#[derive(Debug)]
pub struct RequestApprovalResult {
    pub decision: ApprovalDecision,
}

impl View for RequestApprovalResult {
    type V = ApprovalDecision;

    open spec fn view(&self) -> ApprovalDecision {
        self.decision
    }
}

impl Record for RequestApprovalResult {
    open spec fn field_check(member: (Seq<char>, JsonView)) -> Result<(), Seq<char>> {
        if member.0 == "decision"@ && ApprovalDecision::from_tree(member.1) is Err {
            Err(ApprovalDecision::from_tree(member.1)->Err_0)
        } else {
            Ok(())
        }
    }

    fn check_field(name: &str, value: &Json) -> (result: Result<(), String>) {
        if same_text(name, "decision") {
            if let Err(error) = ApprovalDecision::read_json(value) {
                return Err(error);
            }
        }
        Ok(())
    }
}

/// The result of an approval request from an array.
pub open spec fn result_from_items(items: Seq<JsonView>) -> Result<ApprovalDecision, Seq<char>> {
    if items.len() == 0 {
        Err(invalid_length(0, "struct RequestApprovalResult with 1 element"@))
    } else if ApprovalDecision::from_tree(items[0]) is Err {
        Err(ApprovalDecision::from_tree(items[0])->Err_0)
    } else if items.len() > 1 {
        Err(invalid_length(items.len() as int, "fewer elements in array"@))
    } else {
        ApprovalDecision::from_tree(items[0])
    }
}

impl FromJson for RequestApprovalResult {
    open spec fn from_tree(tree: JsonView) -> Result<ApprovalDecision, Seq<char>> {
        match tree {
            JsonView::Object(members) => match fields_check::<RequestApprovalResult>(members) {
                Err(error) => Err(error),
                Ok(_) => match named(members, "decision"@) {
                    None => Err(missing_field("decision"@)),
                    Some(value) => ApprovalDecision::from_tree(value),
                },
            },
            JsonView::Array(items) => result_from_items(items),
            _ => Err(invalid_type(tree, "struct RequestApprovalResult"@)),
        }
    }

    fn read_json(json: &Json) -> (result: Result<RequestApprovalResult, String>) {
        match json {
            Json::Object(_) => {
                if let Err(error) = check_fields::<RequestApprovalResult>(json) {
                    return Err(error);
                }
                match json.get("decision") {
                    Some(value) => match ApprovalDecision::read_json(value) {
                        Ok(decision) => Ok(RequestApprovalResult { decision }),
                        Err(error) => Err(error),
                    },
                    None => Err(missing_complaint("decision")),
                }
            },
            Json::Array(items) => {
                proof {
                    assert(json@->Array_0.len() == items@.len());
                    assert(forall|i: int|
                        0 <= i < items@.len() ==> json@->Array_0[i] == (#[trigger] items@[i])@);
                }
                if items.len() == 0 {
                    return Err(length_complaint(0, "struct RequestApprovalResult with 1 element"));
                }
                match ApprovalDecision::read_json(&items[0]) {
                    Ok(decision) => if items.len() > 1 {
                        Err(length_complaint(items.len(), "fewer elements in array"))
                    } else {
                        Ok(RequestApprovalResult { decision })
                    },
                    Err(error) => Err(error),
                }
            },
            _ => Err(type_complaint(json, "struct RequestApprovalResult")),
        }
    }
}

/// What a message means to one who awaits an approval.
#[derive(Debug, Clone, Copy, PartialEq, Eq, Structural)]
pub enum ApprovalReply {
    /// A message without an `id`: no answer.
    NoAnswer,
    /// An answer to something else.
    OtherAnswer,
    /// The answer.
    Decided(ApprovalDecision),
}

/// The message of an error that the host answered with.
pub open spec fn rejection(error: JsonView) -> Seq<char> {
    match member(error, "message"@) {
        Some(message) => match text_of(message) {
            Some(text) => text,
            None => "unknown host approval callback error"@,
        },
        None => "unknown host approval callback error"@,
    }
}

/// What a message means to one who awaits the answer to request `expected`.
pub open spec fn reply_of(message: JsonView, expected: IdView) -> Result<ApprovalReply, ErrorView> {
    match member(message, "id"@) {
        None => Ok(ApprovalReply::NoAnswer),
        Some(id) => match JsonRpcId::from_tree(id) {
            Err(error) => Err(ErrorView::ApprovalId(error)),
            Ok(id) => if id != expected {
                Ok(ApprovalReply::OtherAnswer)
            } else if member(message, "error"@) is Some {
                Err(ErrorView::ApprovalRejected(rejection(member(message, "error"@)->0)))
            } else {
                match member(message, "result"@) {
                    None => Err(ErrorView::ApprovalResultMissing),
                    Some(result) => match RequestApprovalResult::from_tree(result) {
                        Err(error) => Err(ErrorView::ApprovalResult(error)),
                        Ok(decision) => Ok(ApprovalReply::Decided(decision)),
                    },
                }
            },
        },
    }
}

/// What the reading of a line means to one who awaits an approval.
pub open spec fn reading_reply(
    outcome: Result<JsonView, Seq<char>>,
    expected: IdView,
) -> Result<ApprovalReply, ErrorView> {
    match outcome {
        Err(error) => Err(ErrorView::ApprovalMessage(error)),
        Ok(message) => reply_of(message, expected),
    }
}

/// Reads what a message means to one who awaits the answer to request `expected`.
pub fn read_reply(message: &Json, expected: &JsonRpcId) -> (result: Result<
    ApprovalReply,
    SidecarError,
>)
    ensures
        match result {
            Ok(reply) => reply_of(message@, expected@) == Ok::<ApprovalReply, ErrorView>(reply),
            Err(error) => reply_of(message@, expected@) == Err::<ApprovalReply, ErrorView>(error@),
        },
{
    let id = match message.get("id") {
        None => {
            return Ok(ApprovalReply::NoAnswer);
        },
        Some(value) => match JsonRpcId::read_json(value) {
            Ok(id) => id,
            Err(error) => {
                return Err(SidecarError::ApprovalId(error));
            },
        },
    };
    if !id.same(expected) {
        return Ok(ApprovalReply::OtherAnswer);
    }
    if let Some(error) = message.get("error") {
        let text = match error.get("message") {
            Some(message) => match message.as_text() {
                Some(text) => text.to_owned(),
                None => "unknown host approval callback error".to_owned(),
            },
            None => "unknown host approval callback error".to_owned(),
        };
        return Err(SidecarError::ApprovalRejected(text));
    }
    match message.get("result") {
        None => Err(SidecarError::ApprovalResultMissing),
        Some(result) => match RequestApprovalResult::read_json(result) {
            Ok(result) => Ok(ApprovalReply::Decided(result.decision)),
            Err(error) => Err(SidecarError::ApprovalResult(error)),
        },
    }
}

/// Reads what the reading of a line means to one who awaits the answer to request `expected`.
pub fn read_reading(reading: Result<Json, String>, expected: &JsonRpcId) -> (result: Result<
    ApprovalReply,
    SidecarError,
>)
    ensures
        ({
            let outcome = match reading {
                Ok(message) => Ok(message@),
                Err(error) => Err(error@),
            };
            match result {
                Ok(reply) => reading_reply(outcome, expected@) == Ok::<ApprovalReply, ErrorView>(
                    reply,
                ),
                Err(error) => reading_reply(outcome, expected@) == Err::<ApprovalReply, ErrorView>(
                    error@,
                ),
            }
        }),
{
    match reading {
        Ok(message) => read_reply(&message, expected),
        Err(error) => Err(SidecarError::ApprovalMessage(error)),
    }
}

/// What the next input means to one who awaits an approval. A blank line means nothing; the
/// end of input is an error.
pub open spec fn input_reply(line: Option<Seq<char>>, expected: IdView) -> Result<
    ApprovalReply,
    ErrorView,
> {
    match line {
        None => Err(ErrorView::InputClosed),
        Some(line) => if trimmed(line).len() == 0 {
            Ok(ApprovalReply::NoAnswer)
        } else {
            reading_reply(parsed(line), expected)
        },
    }
}

/// Reads what the next input means to one who awaits the answer to request `expected`; no line
/// stands for the end of input.
pub fn wait_for_approval_result(line: Option<&str>, expected: &JsonRpcId) -> (result: Result<
    ApprovalReply,
    SidecarError,
>)
    ensures
        ({
            let input = match line {
                Some(line) => Some(line@),
                None => None,
            };
            match result {
                Ok(reply) => input_reply(input, expected@) == Ok::<ApprovalReply, ErrorView>(reply),
                Err(error) => input_reply(input, expected@) == Err::<ApprovalReply, ErrorView>(
                    error@,
                ),
            }
        }),
{
    match line {
        None => Err(SidecarError::InputClosed),
        Some(line) => {
            if trim(line).is_empty() {
                return Ok(ApprovalReply::NoAnswer);
            }
            read_reading(parse_json(line), expected)
        },
    }
}

/// The answer to a question, under its identifier and with the name of a decision, is taken for
/// that decision.
pub proof fn law_answer_is_taken(id: IdView, name: Seq<char>)
    requires
        sendable_id(id),
        decision_named(name) is Some,
    ensures
        reply_of(
            success_tree(id, JsonView::Object(seq![("decision"@, text_tree(name))])),
            id,
        ) == Ok::<ApprovalReply, ErrorView>(ApprovalReply::Decided(decision_named(name)->0)),
{
    let members = seq![("decision"@, text_tree(name))];
    let message = success_tree(id, JsonView::Object(members));
    reveal_strlit("jsonrpc");
    reveal_strlit("id");
    reveal_strlit("result");
    reveal_strlit("error");
    assert("jsonrpc"@.len() == 7 && "id"@.len() == 2 && "result"@.len() == 6 && "error"@.len() == 5);
    let all = message->Object_0;
    assert(all.drop_first()[0] == all[1]);
    assert(all.drop_first().drop_first()[0] == all[2]);
    reveal_with_fuel(named, 4);
    law_identifier_is_read_back(id);
    assert(member(message, "id"@) == Some(id_tree(id)));
    assert(member(message, "error"@) is None);
    assert(member(message, "result"@) == Some(JsonView::Object(members)));
    let readings = members.map_values(
        |member: (Seq<char>, JsonView)| RequestApprovalResult::field_check(member),
    );
    assert(readings.len() == 1 && readings[0] is Ok);
    reveal_with_fuel(all_or_first, 2);
    assert(readings.drop_last().len() == 0);
    assert(fields_check::<RequestApprovalResult>(members) is Ok);
    assert(named(members, "decision"@) == Some(text_tree(name)));
}

} // verus!
