//! What the host sends: request identifiers and the parameters of requests.

use crate::decode::{
    check_fields, fields_check, invalid_length, invalid_type, lemma_named_passes, length_complaint,
    missing_complaint, missing_field, named, optional_text_pairs, read_string, read_string_map,
    read_strings, string_from, string_map_from, strings_from, texts, type_complaint, FromJson,
    Record,
};
use crate::json::{Json, JsonView};
use crate::text::same_text;
use vstd::prelude::*;
use vstd::string::*;

verus! {

/// The identifier of a request: a number or a text.
#[derive(Debug)]
pub enum JsonRpcId {
    Number(i64),
    Text(String),
}

/// The value of a request identifier.
pub enum IdView {
    Number(int),
    Text(Seq<char>),
}

impl View for JsonRpcId {
    type V = IdView;

    open spec fn view(&self) -> IdView {
        match self {
            JsonRpcId::Number(n) => IdView::Number(*n as int),
            JsonRpcId::Text(text) => IdView::Text(text@),
        }
    }
}

impl JsonRpcId {
    /// A copy of this identifier.
    pub fn copied(&self) -> (copy: JsonRpcId)
        ensures
            copy@ == self@,
    {
        match self {
            JsonRpcId::Number(n) => JsonRpcId::Number(*n),
            JsonRpcId::Text(text) => JsonRpcId::Text(text.clone()),
        }
    }

    /// Whether two identifiers are the same. A number is never the same as a text.
    pub fn same(&self, other: &JsonRpcId) -> (same: bool)
        ensures
            same == (self@ == other@),
    {
        match (self, other) {
            (JsonRpcId::Number(a), JsonRpcId::Number(b)) => *a == *b,
            (JsonRpcId::Text(a), JsonRpcId::Text(b)) => same_text(a.as_str(), b.as_str()),
            _ => false,
        }
    }
}

/// The complaint about a value that is no request identifier.
pub open spec fn no_identifier() -> Seq<char> {
    "data did not match any variant of untagged enum JsonRpcId"@
}

impl FromJson for JsonRpcId {
    open spec fn from_tree(tree: JsonView) -> Result<IdView, Seq<char>> {
        match tree {
            JsonView::Integer(n) => if i64::MIN <= n <= i64::MAX {
                Ok(IdView::Number(n))
            } else {
                Err(no_identifier())
            },
            JsonView::Text(text) => Ok(IdView::Text(text)),
            _ => Err(no_identifier()),
        }
    }

    fn read_json(json: &Json) -> (result: Result<JsonRpcId, String>) {
        match json {
            Json::Integer(n) => if (i64::MIN as i128) <= *n && *n <= (i64::MAX as i128) {
                return Ok(JsonRpcId::Number(*n as i64));
            },
            Json::Text(text) => {
                return Ok(JsonRpcId::Text(text.clone()));
            },
            _ => {},
        }
        Err("data did not match any variant of untagged enum JsonRpcId".to_owned())
    }
}

/// The parameters of `zsh/execStart`.
#[derive(Debug)]
pub struct ExecStartParams {
    pub exec_id: String,
    pub command: Vec<String>,
    pub cwd: String,
    pub env: Option<Vec<(String, String)>>,
}

/// The values of the parameters of `zsh/execStart`.
pub struct ExecStartParamsView {
    pub exec_id: Seq<char>,
    pub command: Seq<Seq<char>>,
    pub cwd: Seq<char>,
    pub env: Option<Seq<(Seq<char>, Seq<char>)>>,
}

impl View for ExecStartParams {
    type V = ExecStartParamsView;

    open spec fn view(&self) -> ExecStartParamsView {
        ExecStartParamsView {
            exec_id: self.exec_id@,
            command: texts(self.command@),
            cwd: self.cwd@,
            env: optional_text_pairs(self.env),
        }
    }
}

/// The parameters of `zsh/execStart` from the members of an object whose fields all fit.
pub open spec fn exec_start_from_members(members: Seq<(Seq<char>, JsonView)>) -> Result<
    ExecStartParamsView,
    Seq<char>,
> {
    if named(members, "execId"@) is None {
        Err(missing_field("execId"@))
    } else if named(members, "command"@) is None {
        Err(missing_field("command"@))
    } else if named(members, "cwd"@) is None {
        Err(missing_field("cwd"@))
    } else {
        Ok(
            ExecStartParamsView {
                exec_id: string_from(named(members, "execId"@)->0)->Ok_0,
                command: strings_from(named(members, "command"@)->0)->Ok_0,
                cwd: string_from(named(members, "cwd"@)->0)->Ok_0,
                env: match named(members, "env"@) {
                    Some(env) => string_map_from(env)->Ok_0,
                    None => None,
                },
            },
        )
    }
}

/// The complaint about an array that ends before a parameter of `zsh/execStart`.
pub open spec fn exec_start_too_short(len: int) -> Seq<char> {
    invalid_length(len, "struct ExecStartParams with 4 elements"@)
}

/// The parameters of `zsh/execStart` from an array that gives them in order; the environment
/// may be left out.
pub open spec fn exec_start_from_items(items: Seq<JsonView>) -> Result<
    ExecStartParamsView,
    Seq<char>,
> {
    if items.len() == 0 {
        Err(exec_start_too_short(0))
    } else if string_from(items[0]) is Err {
        Err(string_from(items[0])->Err_0)
    } else if items.len() == 1 {
        Err(exec_start_too_short(1))
    } else if strings_from(items[1]) is Err {
        Err(strings_from(items[1])->Err_0)
    } else if items.len() == 2 {
        Err(exec_start_too_short(2))
    } else if string_from(items[2]) is Err {
        Err(string_from(items[2])->Err_0)
    } else if items.len() > 3 && string_map_from(items[3]) is Err {
        Err(string_map_from(items[3])->Err_0)
    } else if items.len() > 4 {
        Err(invalid_length(items.len() as int, "fewer elements in array"@))
    } else {
        Ok(
            ExecStartParamsView {
                exec_id: string_from(items[0])->Ok_0,
                command: strings_from(items[1])->Ok_0,
                cwd: string_from(items[2])->Ok_0,
                env: if items.len() > 3 {
                    string_map_from(items[3])->Ok_0
                } else {
                    None
                },
            },
        )
    }
}

impl Record for ExecStartParams {
    open spec fn field_check(member: (Seq<char>, JsonView)) -> Result<(), Seq<char>> {
        if (member.0 == "execId"@ || member.0 == "cwd"@) && string_from(member.1) is Err {
            Err(string_from(member.1)->Err_0)
        } else if member.0 == "command"@ && strings_from(member.1) is Err {
            Err(strings_from(member.1)->Err_0)
        } else if member.0 == "env"@ && string_map_from(member.1) is Err {
            Err(string_map_from(member.1)->Err_0)
        } else {
            Ok(())
        }
    }

    fn check_field(name: &str, value: &Json) -> (result: Result<(), String>) {
        if same_text(name, "execId") || same_text(name, "cwd") {
            if let Err(error) = read_string(value) {
                return Err(error);
            }
        }
        if same_text(name, "command") {
            if let Err(error) = read_strings(value) {
                return Err(error);
            }
        }
        if same_text(name, "env") {
            if let Err(error) = read_string_map(value) {
                return Err(error);
            }
        }
        Ok(())
    }
}

/// Reads the parameters of `zsh/execStart` from an array.
fn read_exec_start_items(json: &Json, items: &Vec<Json>) -> (result: Result<
    ExecStartParams,
    String,
>)
    requires
        *json == Json::Array(*items),
    ensures
        match result {
            Ok(read) => exec_start_from_items(json@->Array_0) == Ok::<
                ExecStartParamsView,
                Seq<char>,
            >(read@),
            Err(error) => exec_start_from_items(json@->Array_0) == Err::<
                ExecStartParamsView,
                Seq<char>,
            >(error@),
        },
{
    proof {
        assert(json@->Array_0.len() == items@.len());
        assert(forall|i: int| 0 <= i < items@.len() ==> json@->Array_0[i] == (#[trigger] items@[i])@);
    }
    let short = "struct ExecStartParams with 4 elements";
    if items.len() == 0 {
        return Err(length_complaint(0, short));
    }
    let exec_id = match read_string(&items[0]) {
        Ok(exec_id) => exec_id,
        Err(error) => {
            return Err(error);
        },
    };
    if items.len() == 1 {
        return Err(length_complaint(1, short));
    }
    let command = match read_strings(&items[1]) {
        Ok(command) => command,
        Err(error) => {
            return Err(error);
        },
    };
    if items.len() == 2 {
        return Err(length_complaint(2, short));
    }
    let cwd = match read_string(&items[2]) {
        Ok(cwd) => cwd,
        Err(error) => {
            return Err(error);
        },
    };
    let env = if items.len() > 3 {
        match read_string_map(&items[3]) {
            Ok(env) => env,
            Err(error) => {
                return Err(error);
            },
        }
    } else {
        None
    };
    if items.len() > 4 {
        return Err(length_complaint(items.len(), "fewer elements in array"));
    }
    Ok(ExecStartParams { exec_id, command, cwd, env })
}

impl FromJson for ExecStartParams {
    open spec fn from_tree(tree: JsonView) -> Result<ExecStartParamsView, Seq<char>> {
        match tree {
            JsonView::Object(members) => match fields_check::<ExecStartParams>(members) {
                Err(error) => Err(error),
                Ok(_) => exec_start_from_members(members),
            },
            JsonView::Array(items) => exec_start_from_items(items),
            _ => Err(invalid_type(tree, "struct ExecStartParams"@)),
        }
    }

    fn read_json(json: &Json) -> (result: Result<ExecStartParams, String>) {
        match json {
            Json::Object(_) => {
                if let Err(error) = check_fields::<ExecStartParams>(json) {
                    return Err(error);
                }
                let exec_id = match json.get("execId") {
                    Some(value) => {
                        proof {
                            lemma_named_passes::<ExecStartParams>(json@->Object_0, "execId"@);
                        }
                        read_string(value)
                    },
                    None => Err(missing_complaint("execId")),
                };
                let exec_id = match exec_id {
                    Ok(exec_id) => exec_id,
                    Err(error) => {
                        return Err(error);
                    },
                };
                let command = match json.get("command") {
                    Some(value) => {
                        proof {
                            lemma_named_passes::<ExecStartParams>(json@->Object_0, "command"@);
                        }
                        read_strings(value)
                    },
                    None => Err(missing_complaint("command")),
                };
                let command = match command {
                    Ok(command) => command,
                    Err(error) => {
                        return Err(error);
                    },
                };
                let cwd = match json.get("cwd") {
                    Some(value) => {
                        proof {
                            lemma_named_passes::<ExecStartParams>(json@->Object_0, "cwd"@);
                        }
                        read_string(value)
                    },
                    None => Err(missing_complaint("cwd")),
                };
                let cwd = match cwd {
                    Ok(cwd) => cwd,
                    Err(error) => {
                        return Err(error);
                    },
                };
                let env = match json.get("env") {
                    Some(value) => {
                        proof {
                            lemma_named_passes::<ExecStartParams>(json@->Object_0, "env"@);
                        }
                        read_string_map(value)
                    },
                    None => Ok(None),
                };
                match env {
                    Ok(env) => Ok(ExecStartParams { exec_id, command, cwd, env }),
                    Err(error) => Err(error),
                }
            },
            Json::Array(items) => read_exec_start_items(json, items),
            _ => Err(type_complaint(json, "struct ExecStartParams")),
        }
    }
}

/// The parameters of `zsh/execInterrupt`.
#[derive(Debug)]
pub struct ExecInterruptParams {
    pub exec_id: String,
}

/// The values of the parameters of `zsh/execInterrupt`.
pub struct ExecInterruptParamsView {
    pub exec_id: Seq<char>,
}

impl View for ExecInterruptParams {
    type V = ExecInterruptParamsView;

    open spec fn view(&self) -> ExecInterruptParamsView {
        ExecInterruptParamsView { exec_id: self.exec_id@ }
    }
}

impl Record for ExecInterruptParams {
    open spec fn field_check(member: (Seq<char>, JsonView)) -> Result<(), Seq<char>> {
        if member.0 == "execId"@ && string_from(member.1) is Err {
            Err(string_from(member.1)->Err_0)
        } else {
            Ok(())
        }
    }

    fn check_field(name: &str, value: &Json) -> (result: Result<(), String>) {
        if same_text(name, "execId") {
            if let Err(error) = read_string(value) {
                return Err(error);
            }
        }
        Ok(())
    }
}

/// The parameters of `zsh/execInterrupt` from an array.
pub open spec fn exec_interrupt_from_items(items: Seq<JsonView>) -> Result<
    ExecInterruptParamsView,
    Seq<char>,
> {
    if items.len() == 0 {
        Err(invalid_length(0, "struct ExecInterruptParams with 1 element"@))
    } else if string_from(items[0]) is Err {
        Err(string_from(items[0])->Err_0)
    } else if items.len() > 1 {
        Err(invalid_length(items.len() as int, "fewer elements in array"@))
    } else {
        Ok(ExecInterruptParamsView { exec_id: string_from(items[0])->Ok_0 })
    }
}

impl FromJson for ExecInterruptParams {
    open spec fn from_tree(tree: JsonView) -> Result<ExecInterruptParamsView, Seq<char>> {
        match tree {
            JsonView::Object(members) => match fields_check::<ExecInterruptParams>(members) {
                Err(error) => Err(error),
                Ok(_) => match named(members, "execId"@) {
                    None => Err(missing_field("execId"@)),
                    Some(value) => Ok(
                        ExecInterruptParamsView { exec_id: string_from(value)->Ok_0 },
                    ),
                },
            },
            JsonView::Array(items) => exec_interrupt_from_items(items),
            _ => Err(invalid_type(tree, "struct ExecInterruptParams"@)),
        }
    }

    fn read_json(json: &Json) -> (result: Result<ExecInterruptParams, String>) {
        match json {
            Json::Object(_) => {
                if let Err(error) = check_fields::<ExecInterruptParams>(json) {
                    return Err(error);
                }
                match json.get("execId") {
                    Some(value) => {
                        proof {
                            lemma_named_passes::<ExecInterruptParams>(json@->Object_0, "execId"@);
                        }
                        match read_string(value) {
                            Ok(exec_id) => Ok(ExecInterruptParams { exec_id }),
                            Err(error) => Err(error),
                        }
                    },
                    None => Err(missing_complaint("execId")),
                }
            },
            Json::Array(items) => {
                proof {
                    assert(json@->Array_0.len() == items@.len());
                    assert(forall|i: int|
                        0 <= i < items@.len() ==> json@->Array_0[i] == (#[trigger] items@[i])@);
                }
                if items.len() == 0 {
                    return Err(length_complaint(0, "struct ExecInterruptParams with 1 element"));
                }
                match read_string(&items[0]) {
                    Ok(exec_id) => if items.len() > 1 {
                        Err(length_complaint(items.len(), "fewer elements in array"))
                    } else {
                        Ok(ExecInterruptParams { exec_id })
                    },
                    Err(error) => Err(error),
                }
            },
            _ => Err(type_complaint(json, "struct ExecInterruptParams")),
        }
    }
}

} // verus!
