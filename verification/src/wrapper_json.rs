//! How what is said between an exec wrapper and the sidecar is read out of JSON values.
//!
//! These readers start from a value. One who reads straight from a text can refuse a text that names
//! a member twice, and can say at which place in the text a complaint arose; a value shows neither.
//! The lines that the library writes name no member twice.

use crate::approval::{grants, no_single_key, refusal, ApprovalDecision};
use crate::decode::{
    all_or_first, check_fields, fields_check, invalid_length, invalid_type, lemma_all_read,
    lemma_named_passes, length_complaint, member, missing_complaint, missing_field, named,
    optional_string_from, params_from, read_optional_string, read_string, read_strings,
    string_from, strings_from, type_complaint, FromJson, Record,
};
use crate::json::{parsed, Json, JsonView};
use crate::message::{carries, text_tree, texts_tree};
use crate::text::{joined, same_text, trimmed};
use crate::wrapper::{
    action_name, arguments, law_decision_reaches_the_wrapper, wrapper_answer, wrapper_next,
    wrapper_request_tree, wrapper_response_tree, WrapperActionView, WrapperEventView,
    WrapperExecAction, WrapperExecRequest, WrapperExecRequestView, WrapperExecResponse,
    WrapperExecResponseView, WrapperModeView,
};
use vstd::prelude::*;
use vstd::string::*;

verus! {

impl Record for WrapperExecRequest {
    open spec fn field_check(member: (Seq<char>, JsonView)) -> Result<(), Seq<char>> {
        if (member.0 == "file"@ || member.0 == "cwd"@) && string_from(member.1) is Err {
            Err(string_from(member.1)->Err_0)
        } else if member.0 == "argv"@ && strings_from(member.1) is Err {
            Err(strings_from(member.1)->Err_0)
        } else {
            Ok(())
        }
    }

    fn check_field(name: &str, value: &Json) -> (result: Result<(), String>) {
        if same_text(name, "file") || same_text(name, "cwd") {
            if let Err(error) = read_string(value) {
                return Err(error);
            }
        }
        if same_text(name, "argv") {
            if let Err(error) = read_strings(value) {
                return Err(error);
            }
        }
        Ok(())
    }
}

/// A wrapper's question from the members of an object whose fields all fit.
pub open spec fn request_from_members(members: Seq<(Seq<char>, JsonView)>) -> Result<
    WrapperExecRequestView,
    Seq<char>,
> {
    if named(members, "file"@) is None {
        Err(missing_field("file"@))
    } else if named(members, "argv"@) is None {
        Err(missing_field("argv"@))
    } else if named(members, "cwd"@) is None {
        Err(missing_field("cwd"@))
    } else {
        Ok(
            WrapperExecRequestView {
                file: string_from(named(members, "file"@)->0)->Ok_0,
                argv: strings_from(named(members, "argv"@)->0)->Ok_0,
                cwd: string_from(named(members, "cwd"@)->0)->Ok_0,
            },
        )
    }
}

/// The complaint about an array that ends before a part of a wrapper's question.
pub open spec fn request_too_short(len: int) -> Seq<char> {
    invalid_length(len, "struct WrapperExecRequest with 3 elements"@)
}

/// A wrapper's question from an array that gives its parts in order.
pub open spec fn request_from_items(items: Seq<JsonView>) -> Result<
    WrapperExecRequestView,
    Seq<char>,
> {
    if items.len() == 0 {
        Err(request_too_short(0))
    } else if string_from(items[0]) is Err {
        Err(string_from(items[0])->Err_0)
    } else if items.len() == 1 {
        Err(request_too_short(1))
    } else if strings_from(items[1]) is Err {
        Err(strings_from(items[1])->Err_0)
    } else if items.len() == 2 {
        Err(request_too_short(2))
    } else if string_from(items[2]) is Err {
        Err(string_from(items[2])->Err_0)
    } else if items.len() > 3 {
        Err(invalid_length(items.len() as int, "fewer elements in array"@))
    } else {
        Ok(
            WrapperExecRequestView {
                file: string_from(items[0])->Ok_0,
                argv: strings_from(items[1])->Ok_0,
                cwd: string_from(items[2])->Ok_0,
            },
        )
    }
}

/// Reads a wrapper's question from an array.
fn read_request_items(json: &Json, items: &Vec<Json>) -> (result: Result<
    WrapperExecRequest,
    String,
>)
    requires
        *json == Json::Array(*items),
    ensures
        match result {
            Ok(read) => request_from_items(json@->Array_0) == Ok::<
                WrapperExecRequestView,
                Seq<char>,
            >(read@),
            Err(error) => request_from_items(json@->Array_0) == Err::<
                WrapperExecRequestView,
                Seq<char>,
            >(error@),
        },
{
    proof {
        assert(json@->Array_0.len() == items@.len());
        assert(forall|i: int| 0 <= i < items@.len() ==> json@->Array_0[i] == (#[trigger] items@[i])@);
    }
    let short = "struct WrapperExecRequest with 3 elements";
    if items.len() == 0 {
        return Err(length_complaint(0, short));
    }
    let file = match read_string(&items[0]) {
        Ok(file) => file,
        Err(error) => {
            return Err(error);
        },
    };
    if items.len() == 1 {
        return Err(length_complaint(1, short));
    }
    let argv = match read_strings(&items[1]) {
        Ok(argv) => argv,
        Err(error) => {
            return Err(error);
        },
    };
    if items.len() == 2 {
        return Err(length_complaint(2, short));
    }
    let cwd = match read_string(&items[2]) {
        Ok(cwd) => cwd,
        Err(error) => {
            return Err(error);
        },
    };
    if items.len() > 3 {
        return Err(length_complaint(items.len(), "fewer elements in array"));
    }
    Ok(WrapperExecRequest { file, argv, cwd })
}

impl FromJson for WrapperExecRequest {
    open spec fn from_tree(tree: JsonView) -> Result<WrapperExecRequestView, Seq<char>> {
        match tree {
            JsonView::Object(members) => match fields_check::<WrapperExecRequest>(members) {
                Err(error) => Err(error),
                Ok(_) => request_from_members(members),
            },
            JsonView::Array(items) => request_from_items(items),
            _ => Err(invalid_type(tree, "struct WrapperExecRequest"@)),
        }
    }

    fn read_json(json: &Json) -> (result: Result<WrapperExecRequest, String>) {
        match json {
            Json::Object(_) => {
                if let Err(error) = check_fields::<WrapperExecRequest>(json) {
                    return Err(error);
                }
                let file = match json.get("file") {
                    Some(value) => {
                        proof {
                            lemma_named_passes::<WrapperExecRequest>(json@->Object_0, "file"@);
                        }
                        read_string(value)
                    },
                    None => Err(missing_complaint("file")),
                };
                let file = match file {
                    Ok(file) => file,
                    Err(error) => {
                        return Err(error);
                    },
                };
                let argv = match json.get("argv") {
                    Some(value) => {
                        proof {
                            lemma_named_passes::<WrapperExecRequest>(json@->Object_0, "argv"@);
                        }
                        read_strings(value)
                    },
                    None => Err(missing_complaint("argv")),
                };
                let argv = match argv {
                    Ok(argv) => argv,
                    Err(error) => {
                        return Err(error);
                    },
                };
                let cwd = match json.get("cwd") {
                    Some(value) => {
                        proof {
                            lemma_named_passes::<WrapperExecRequest>(json@->Object_0, "cwd"@);
                        }
                        read_string(value)
                    },
                    None => Err(missing_complaint("cwd")),
                };
                match cwd {
                    Ok(cwd) => Ok(WrapperExecRequest { file, argv, cwd }),
                    Err(error) => Err(error),
                }
            },
            Json::Array(items) => read_request_items(json, items),
            _ => Err(type_complaint(json, "struct WrapperExecRequest")),
        }
    }
}

/// What a wrapper is told to do, by its name.
pub open spec fn action_named(name: Seq<char>) -> Option<WrapperExecAction> {
    if name == "run"@ {
        Some(WrapperExecAction::Run)
    } else if name == "deny"@ {
        Some(WrapperExecAction::Deny)
    } else {
        None
    }
}

/// The complaint about a name that nothing a wrapper is told to do has.
pub open spec fn unknown_action(name: Seq<char>) -> Seq<char> {
    "unknown variant `"@ + name + "`, expected `run` or `deny`"@
}

fn find_action(name: &str) -> (result: Result<WrapperExecAction, String>)
    ensures
        match result {
            Ok(action) => action_named(name@) == Some(action),
            Err(error) => action_named(name@) is None && error@ == unknown_action(name@),
        },
{
    if same_text(name, "run") {
        Ok(WrapperExecAction::Run)
    } else if same_text(name, "deny") {
        Ok(WrapperExecAction::Deny)
    } else {
        Err(joined("unknown variant `", name).concat("`, expected `run` or `deny`"))
    }
}

impl FromJson for WrapperExecAction {
    /// It is written as its name, or as an object whose one member has that name and is null.
    open spec fn from_tree(tree: JsonView) -> Result<WrapperExecAction, Seq<char>> {
        match tree {
            JsonView::Text(name) => match action_named(name) {
                Some(action) => Ok(action),
                None => Err(unknown_action(name)),
            },
            JsonView::Object(members) => if members.len() != 1 {
                Err(no_single_key())
            } else {
                match action_named(members[0].0) {
                    None => Err(unknown_action(members[0].0)),
                    Some(action) => if members[0].1 is Null {
                        Ok(action)
                    } else {
                        Err(invalid_type(members[0].1, "unit"@))
                    },
                }
            },
            _ => Err(invalid_type(tree, "string or map"@)),
        }
    }

    fn read_json(json: &Json) -> (result: Result<WrapperExecAction, String>) {
        match json {
            Json::Text(name) => find_action(name.as_str()),
            Json::Object(members) => {
                if members.len() != 1 {
                    return Err("invalid value: map, expected map with a single key".to_owned());
                }
                proof {
                    assert(json@->Object_0[0] == (members@[0].0@, members@[0].1@));
                }
                match find_action(members[0].0.as_str()) {
                    Err(error) => Err(error),
                    Ok(action) => match &members[0].1 {
                        Json::Null => Ok(action),
                        _ => Err(type_complaint(&members[0].1, "unit")),
                    },
                }
            },
            _ => Err(type_complaint(json, "string or map")),
        }
    }
}

impl Record for WrapperExecResponse {
    open spec fn field_check(member: (Seq<char>, JsonView)) -> Result<(), Seq<char>> {
        if member.0 == "action"@ && WrapperExecAction::from_tree(member.1) is Err {
            Err(WrapperExecAction::from_tree(member.1)->Err_0)
        } else if member.0 == "reason"@ && optional_string_from(member.1) is Err {
            Err(optional_string_from(member.1)->Err_0)
        } else {
            Ok(())
        }
    }

    fn check_field(name: &str, value: &Json) -> (result: Result<(), String>) {
        if same_text(name, "action") {
            if let Err(error) = WrapperExecAction::read_json(value) {
                return Err(error);
            }
        }
        if same_text(name, "reason") {
            if let Err(error) = read_optional_string(value) {
                return Err(error);
            }
        }
        Ok(())
    }
}

/// The answer to a wrapper from the members of an object whose fields all fit; the reason may be
/// left out.
pub open spec fn response_from_members(members: Seq<(Seq<char>, JsonView)>) -> Result<
    WrapperExecResponseView,
    Seq<char>,
> {
    match named(members, "action"@) {
        None => Err(missing_field("action"@)),
        Some(action) => Ok(
            WrapperExecResponseView {
                action: WrapperExecAction::from_tree(action)->Ok_0,
                reason: match named(members, "reason"@) {
                    Some(reason) => optional_string_from(reason)->Ok_0,
                    None => None,
                },
            },
        ),
    }
}

/// The complaint about an array that ends before a part of the answer to a wrapper.
pub open spec fn response_too_short(len: int) -> Seq<char> {
    invalid_length(len, "struct WrapperExecResponse with 2 elements"@)
}

/// The answer to a wrapper from an array that gives its parts in order.
pub open spec fn response_from_items(items: Seq<JsonView>) -> Result<
    WrapperExecResponseView,
    Seq<char>,
> {
    if items.len() == 0 {
        Err(response_too_short(0))
    } else if WrapperExecAction::from_tree(items[0]) is Err {
        Err(WrapperExecAction::from_tree(items[0])->Err_0)
    } else if items.len() == 1 {
        Err(response_too_short(1))
    } else if optional_string_from(items[1]) is Err {
        Err(optional_string_from(items[1])->Err_0)
    } else if items.len() > 2 {
        Err(invalid_length(items.len() as int, "fewer elements in array"@))
    } else {
        Ok(
            WrapperExecResponseView {
                action: WrapperExecAction::from_tree(items[0])->Ok_0,
                reason: optional_string_from(items[1])->Ok_0,
            },
        )
    }
}

/// Reads the answer to a wrapper from an array.
fn read_response_items(json: &Json, items: &Vec<Json>) -> (result: Result<
    WrapperExecResponse,
    String,
>)
    requires
        *json == Json::Array(*items),
    ensures
        match result {
            Ok(read) => response_from_items(json@->Array_0) == Ok::<
                WrapperExecResponseView,
                Seq<char>,
            >(read@),
            Err(error) => response_from_items(json@->Array_0) == Err::<
                WrapperExecResponseView,
                Seq<char>,
            >(error@),
        },
{
    proof {
        assert(json@->Array_0.len() == items@.len());
        assert(forall|i: int| 0 <= i < items@.len() ==> json@->Array_0[i] == (#[trigger] items@[i])@);
    }
    let short = "struct WrapperExecResponse with 2 elements";
    if items.len() == 0 {
        return Err(length_complaint(0, short));
    }
    let action = match WrapperExecAction::read_json(&items[0]) {
        Ok(action) => action,
        Err(error) => {
            return Err(error);
        },
    };
    if items.len() == 1 {
        return Err(length_complaint(1, short));
    }
    let reason = match read_optional_string(&items[1]) {
        Ok(reason) => reason,
        Err(error) => {
            return Err(error);
        },
    };
    if items.len() > 2 {
        return Err(length_complaint(items.len(), "fewer elements in array"));
    }
    Ok(WrapperExecResponse { action, reason })
}

impl FromJson for WrapperExecResponse {
    open spec fn from_tree(tree: JsonView) -> Result<WrapperExecResponseView, Seq<char>> {
        match tree {
            JsonView::Object(members) => match fields_check::<WrapperExecResponse>(members) {
                Err(error) => Err(error),
                Ok(_) => response_from_members(members),
            },
            JsonView::Array(items) => response_from_items(items),
            _ => Err(invalid_type(tree, "struct WrapperExecResponse"@)),
        }
    }

    fn read_json(json: &Json) -> (result: Result<WrapperExecResponse, String>) {
        match json {
            Json::Object(_) => {
                if let Err(error) = check_fields::<WrapperExecResponse>(json) {
                    return Err(error);
                }
                let action = match json.get("action") {
                    Some(value) => {
                        proof {
                            lemma_named_passes::<WrapperExecResponse>(json@->Object_0, "action"@);
                        }
                        WrapperExecAction::read_json(value)
                    },
                    None => Err(missing_complaint("action")),
                };
                let action = match action {
                    Ok(action) => action,
                    Err(error) => {
                        return Err(error);
                    },
                };
                let reason = match json.get("reason") {
                    Some(value) => {
                        proof {
                            lemma_named_passes::<WrapperExecResponse>(json@->Object_0, "reason"@);
                        }
                        read_optional_string(value)
                    },
                    None => Ok(None),
                };
                match reason {
                    Ok(reason) => Ok(WrapperExecResponse { action, reason }),
                    Err(error) => Err(error),
                }
            },
            Json::Array(items) => read_response_items(json, items),
            _ => Err(type_complaint(json, "struct WrapperExecResponse")),
        }
    }
}

/// A list of strings is read back from its JSON form.
proof fn lemma_texts_are_read_back(strings: Seq<Seq<char>>)
    ensures
        strings_from(texts_tree(strings)) == Ok::<Seq<Seq<char>>, Seq<char>>(strings),
{
    let items = texts_tree(strings)->Array_0;
    let readings = items.map_values(|item: JsonView| string_from(item));
    assert forall|i: int| 0 <= i < readings.len() implies (#[trigger] readings[i]) == Ok::<
        Seq<char>,
        Seq<char>,
    >(strings[i]) by {
        assert(items[i] == JsonView::Text(strings[i]));
    }
    lemma_all_read(readings);
    assert(all_or_first(readings)->Ok_0 =~= strings);
}

/// A wrapper's question is read back from its JSON form: its file, its words and its directory,
/// whatever characters they hold.
pub proof fn law_wrapper_request_is_read_back(request: WrapperExecRequestView)
    ensures
        WrapperExecRequest::from_tree(wrapper_request_tree(request)) == Ok::<
            WrapperExecRequestView,
            Seq<char>,
        >(request),
{
    let members = wrapper_request_tree(request)->Object_0;
    reveal_strlit("file");
    reveal_strlit("argv");
    reveal_strlit("cwd");
    assert("file"@[0] != "argv"@[0]);
    assert("cwd"@.len() == 3 && "file"@.len() == 4 && "argv"@.len() == 4);
    lemma_texts_are_read_back(request.argv);
    let readings = members.map_values(
        |member: (Seq<char>, JsonView)| WrapperExecRequest::field_check(member),
    );
    assert forall|i: int| 0 <= i < readings.len() implies (#[trigger] readings[i]) is Ok by {
        assert(readings[i] == WrapperExecRequest::field_check(members[i]));
        assert(members[0] == ("file"@, text_tree(request.file)));
        assert(members[1] == ("argv"@, texts_tree(request.argv)));
        assert(members[2] == ("cwd"@, text_tree(request.cwd)));
    }
    lemma_all_read(readings);
    assert(fields_check::<WrapperExecRequest>(members) is Ok);
    reveal_with_fuel(named, 4);
    assert(members.drop_first()[0] == members[1]);
    assert(members.drop_first().drop_first()[0] == members[2]);
}

/// The answer to a wrapper is read back from its JSON form: what it is told to do, and why.
pub proof fn law_wrapper_response_is_read_back(response: WrapperExecResponseView)
    ensures
        WrapperExecResponse::from_tree(wrapper_response_tree(response)) == Ok::<
            WrapperExecResponseView,
            Seq<char>,
        >(response),
{
    let members = wrapper_response_tree(response)->Object_0;
    reveal_strlit("action");
    reveal_strlit("reason");
    reveal_strlit("run");
    reveal_strlit("deny");
    assert("action"@[0] != "reason"@[0]);
    assert("run"@.len() == 3 && "deny"@.len() == 4);
    assert(action_named(action_name(response.action)) == Some(response.action));
    let readings = members.map_values(
        |member: (Seq<char>, JsonView)| WrapperExecResponse::field_check(member),
    );
    assert forall|i: int| 0 <= i < readings.len() implies (#[trigger] readings[i]) is Ok by {
        assert(readings[i] == WrapperExecResponse::field_check(members[i]));
        assert(members[0].0 == "action"@);
        assert(members[1].0 == "reason"@);
    }
    lemma_all_read(readings);
    assert(fields_check::<WrapperExecResponse>(members) is Ok);
    reveal_with_fuel(named, 3);
    assert(members.drop_first()[0] == members[1]);
}

/// A wrapper's question that is sent as the parameters of a message is what its parameters are
/// read as.
pub proof fn law_wrapper_request_is_read_as_params(
    message: JsonView,
    request: WrapperExecRequestView,
)
    requires
        member(message, "params"@) == Some(wrapper_request_tree(request)),
    ensures
        params_from::<WrapperExecRequest>(message) == Ok::<WrapperExecRequestView, Seq<char>>(
            request,
        ),
{
    law_wrapper_request_is_read_back(request);
}

/// What the host decides about a subcommand reaches the wrapper: the line it is answered on carries
/// a value, and with what that is read as the wrapper runs its target after a decision that grants
/// it, and gives the reason and fails after any other.
pub proof fn law_answer_reaches_the_wrapper(
    decision: ApprovalDecision,
    line: Seq<char>,
    file: Seq<char>,
    argv: Seq<Seq<char>>,
)
    requires
        carries(line, wrapper_response_tree(wrapper_answer(decision))),
    ensures
        parsed(trimmed(line)) is Ok,
        wrapper_next(
            WrapperModeView::Asking { file, argv },
            WrapperEventView::Answered(
                WrapperExecResponse::from_tree(parsed(trimmed(line))->Ok_0),
            ),
        ) matches Ok((_, action)) && action == if grants(decision) {
            WrapperActionView::Run { program: file, args: arguments(argv) }
        } else {
            WrapperActionView::Refuse {
                notice: "Execution denied: "@ + refusal(decision)->0,
                code: 1,
            }
        },
{
    law_wrapper_response_is_read_back(wrapper_answer(decision));
    law_decision_reaches_the_wrapper(decision, file, argv);
}

/// No two questions of wrappers have the same JSON form.
pub proof fn law_wrapper_requests_are_told_apart(
    left: WrapperExecRequestView,
    right: WrapperExecRequestView,
)
    requires
        wrapper_request_tree(left) == wrapper_request_tree(right),
    ensures
        left == right,
{
    law_wrapper_request_is_read_back(left);
    law_wrapper_request_is_read_back(right);
}

/// No two answers to wrappers have the same JSON form.
pub proof fn law_wrapper_responses_are_told_apart(
    left: WrapperExecResponseView,
    right: WrapperExecResponseView,
)
    requires
        wrapper_response_tree(left) == wrapper_response_tree(right),
    ensures
        left == right,
{
    law_wrapper_response_is_read_back(left);
    law_wrapper_response_is_read_back(right);
}

} // verus!
