//! What the host's words are read as, said of their JSON form.

use crate::approval::{
    decision_named, grants, input_reply, reading_reply, refusal, reply_of, ApprovalDecision,
    ApprovalReply, RequestApprovalResult,
};
use crate::decode::{
    all_or_first, fields_check, invalid_length, invalid_type, lemma_all_read, lemma_first_error,
    lemma_named_passes, member, named, optional_string_from, pair_from, params_from,
    string_from, string_map_from, strings_from, text_of, FromJson, Record,
};
use crate::error::ErrorView;
use crate::json::{names_differ, parsed, JsonView};
use crate::params::{
    ExecInterruptParams, ExecInterruptParamsView, ExecStartParams, ExecStartParamsView, IdView,
    JsonRpcId,
};
use crate::text::{decimal_text, quoted, trimmed};
use crate::wrapper::{
    WrapperExecAction, WrapperExecRequest, WrapperExecRequestView, WrapperExecResponse,
    WrapperExecResponseView,
};
use vstd::prelude::*;
use vstd::string::*;

verus! {

/// The JSON array of some words.
pub open spec fn word_array(words: Seq<Seq<char>>) -> JsonView {
    JsonView::Array(Seq::new(words.len(), |i: int| JsonView::Text(words[i])))
}

/// The JSON object of some variables.
pub open spec fn variable_object(variables: Seq<(Seq<char>, Seq<char>)>) -> JsonView {
    JsonView::Object(
        Seq::new(variables.len(), |i: int| (variables[i].0, JsonView::Text(variables[i].1))),
    )
}

/// Of the members of an object, the first with a name is the one that is found under it.
pub proof fn law_first_member_is_found(members: Seq<(Seq<char>, JsonView)>, at: int)
    requires
        0 <= at < members.len(),
        forall|j: int| 0 <= j < at ==> (#[trigger] members[j]).0 != members[at].0,
    ensures
        member(JsonView::Object(members), members[at].0) == Some(members[at].1),
    decreases at,
{
    if at > 0 {
        let rest = members.drop_first();
        assert(members[0].0 != members[at].0);
        assert(rest[at - 1] == members[at]);
        assert forall|j: int| 0 <= j < at - 1 implies (#[trigger] rest[j]).0 != rest[at - 1].0 by {
            assert(rest[j] == members[j + 1]);
        }
        law_first_member_is_found(rest, at - 1);
    }
}

/// What is found under a name stands in the object under that name, and where nothing is found
/// nothing stands there. Only objects have members.
pub proof fn law_member_stands_where_it_is_found(tree: JsonView, name: Seq<char>)
    ensures
        match member(tree, name) {
            Some(value) => tree is Object && tree->Object_0.contains((name, value)),
            None => tree is Object ==> forall|j: int|
                0 <= j < tree->Object_0.len() ==> (#[trigger] tree->Object_0[j]).0 != name,
        },
    decreases tree,
{
    if let JsonView::Object(members) = tree {
        lemma_named_stands(members, name);
    }
}

proof fn lemma_named_stands(members: Seq<(Seq<char>, JsonView)>, name: Seq<char>)
    ensures
        match named(members, name) {
            Some(value) => members.contains((name, value)),
            None => forall|j: int| 0 <= j < members.len() ==> (#[trigger] members[j]).0 != name,
        },
    decreases members.len(),
{
    if members.len() > 0 {
        if members[0].0 == name {
            assert(members[0] == (name, members[0].1));
        } else {
            let rest = members.drop_first();
            lemma_named_stands(rest, name);
            match named(rest, name) {
                Some(value) => {
                    let j = choose|j: int| 0 <= j < rest.len() && rest[j] == (name, value);
                    assert(members[j + 1] == (name, value));
                },
                None => {
                    assert forall|j: int| 0 <= j < members.len() implies (#[trigger] members[j]).0
                        != name by {
                        if j > 0 {
                            assert(rest[j - 1] == members[j]);
                        }
                    }
                },
            }
        }
    }
}

/// A value is a text exactly where it is a JSON string.
pub proof fn law_text_is_a_string(tree: JsonView, text: Seq<char>)
    ensures
        text_of(tree) == Some(text) <==> tree == JsonView::Text(text),
        string_from(tree) == Ok::<Seq<char>, Seq<char>>(text) <==> tree == JsonView::Text(text),
        optional_string_from(tree) == Ok::<Option<Seq<char>>, Seq<char>>(Some(text)) <==> tree
            == JsonView::Text(text),
        optional_string_from(tree) == Ok::<Option<Seq<char>>, Seq<char>>(None) <==> tree
            == JsonView::Null,
{
}

/// Where a list of readings gives all that was read, no reading fails, and each gives its own.
proof fn lemma_each_was_read<A>(readings: Seq<Result<A, Seq<char>>>)
    requires
        all_or_first(readings) is Ok,
    ensures
        all_or_first(readings)->Ok_0.len() == readings.len(),
        forall|i: int|
            0 <= i < readings.len() ==> (#[trigger] readings[i]) == Ok::<A, Seq<char>>(
                all_or_first(readings)->Ok_0[i],
            ),
    decreases readings.len(),
{
    if readings.len() > 0 {
        lemma_each_was_read(readings.drop_last());
        assert forall|i: int| 0 <= i < readings.len() implies (#[trigger] readings[i]) == Ok::<
            A,
            Seq<char>,
        >(all_or_first(readings)->Ok_0[i]) by {
            if i < readings.len() - 1 {
                assert(readings.drop_last()[i] == readings[i]);
            }
        }
    }
}

/// A value is read as a list of words exactly where it is the JSON array of these words, all of
/// them and in order.
pub proof fn law_words_are_an_array_of_strings(tree: JsonView, words: Seq<Seq<char>>)
    ensures
        strings_from(tree) == Ok::<Seq<Seq<char>>, Seq<char>>(words) <==> tree == word_array(words),
{
    if let JsonView::Array(items) = tree {
        let readings = items.map_values(|item: JsonView| string_from(item));
        if strings_from(tree) is Ok {
            let read = strings_from(tree)->Ok_0;
            lemma_each_was_read(readings);
            assert forall|i: int| 0 <= i < items.len() implies items[i] == JsonView::Text(
                read[i],
            ) by {
                assert(readings[i] == string_from(items[i]));
            }
            assert(items =~= word_array(read)->Array_0);
        }
        if tree == word_array(words) {
            assert forall|i: int| 0 <= i < readings.len() implies (#[trigger] readings[i])
                == Ok::<Seq<char>, Seq<char>>(words[i]) by {
                assert(items[i] == JsonView::Text(words[i]));
            }
            lemma_all_read(readings);
            assert(all_or_first(readings)->Ok_0 =~= words);
        }
    }
}

/// A value is read as variables exactly where it is the JSON object of these variables, all of
/// them and in order; null stands for none.
pub proof fn law_variables_are_an_object_of_strings(
    tree: JsonView,
    variables: Seq<(Seq<char>, Seq<char>)>,
)
    ensures
        string_map_from(tree) == Ok::<Option<Seq<(Seq<char>, Seq<char>)>>, Seq<char>>(
            Some(variables),
        ) <==> tree == variable_object(variables),
        string_map_from(tree) == Ok::<Option<Seq<(Seq<char>, Seq<char>)>>, Seq<char>>(None)
            <==> tree == JsonView::Null,
{
    if let JsonView::Object(members) = tree {
        let readings = members.map_values(
            |member: (Seq<char>, JsonView)| pair_from(member),
        );
        if string_map_from(tree) is Ok {
            let read = string_map_from(tree)->Ok_0->0;
            lemma_each_was_read(readings);
            assert forall|i: int| 0 <= i < members.len() implies members[i] == (
                read[i].0,
                JsonView::Text(read[i].1),
            ) by {
                assert(readings[i] == pair_from(members[i]));
            }
            assert(members =~= variable_object(read)->Object_0);
        }
        if tree == variable_object(variables) {
            assert forall|i: int| 0 <= i < readings.len() implies (#[trigger] readings[i])
                == Ok::<(Seq<char>, Seq<char>), Seq<char>>(variables[i]) by {
                assert(members[i] == (variables[i].0, JsonView::Text(variables[i].1)));
            }
            lemma_all_read(readings);
            assert(all_or_first(readings)->Ok_0 =~= variables);
        }
    }
}

/// The complaint about a value of the wrong type names the value and says what was expected.
pub proof fn law_wrong_type_is_named(tree: JsonView, expected: Seq<char>)
    ensures
        invalid_type(tree, expected) == "invalid type: "@ + (match tree {
            JsonView::Null => "null"@,
            JsonView::Bool(true) => "boolean `true`"@,
            JsonView::Bool(false) => "boolean `false`"@,
            JsonView::Integer(n) => "integer `"@ + decimal_text(n) + "`"@,
            JsonView::Float(text) => "floating point `"@ + text + "`"@,
            JsonView::Text(text) => "string "@ + quoted(text),
            JsonView::Array(_) => "sequence"@,
            JsonView::Object(_) => "map"@,
        }) + ", expected "@ + expected,
{
}

/// The complaint about an array of the wrong length gives its length and says what was expected.
pub proof fn law_wrong_length_is_given(len: int, expected: Seq<char>)
    ensures
        invalid_length(len, expected) == "invalid length "@ + decimal_text(len) + ", expected "@
            + expected,
{
}

/// A value that is no string is refused, as a string and as the first word that is none.
pub proof fn law_first_bad_word_is_refused(items: Seq<JsonView>, at: int)
    requires
        0 <= at < items.len(),
        forall|j: int| 0 <= j < at ==> (#[trigger] items[j]) is Text,
        !(items[at] is Text),
    ensures
        string_from(items[at]) == Err::<Seq<char>, Seq<char>>(invalid_type(items[at], "a string"@)),
        strings_from(JsonView::Array(items)) == Err::<Seq<Seq<char>>, Seq<char>>(
            invalid_type(items[at], "a string"@),
        ),
{
    let readings = items.map_values(|item: JsonView| string_from(item));
    assert forall|j: int| 0 <= j < at implies (#[trigger] readings.take(at)[j]) is Ok by {
        assert(items[j] is Text);
    }
    lemma_all_read(readings.take(at));
    lemma_first_error(readings, at);
}

/// The first variable whose value is no string is refused.
pub proof fn law_first_bad_variable_is_refused(members: Seq<(Seq<char>, JsonView)>, at: int)
    requires
        0 <= at < members.len(),
        forall|j: int| 0 <= j < at ==> (#[trigger] members[j]).1 is Text,
        !(members[at].1 is Text),
    ensures
        string_map_from(JsonView::Object(members)) == Err::<
            Option<Seq<(Seq<char>, Seq<char>)>>,
            Seq<char>,
        >(invalid_type(members[at].1, "a string"@)),
{
    let readings = members.map_values(
        |member: (Seq<char>, JsonView)| pair_from(member),
    );
    assert forall|j: int| 0 <= j < at implies (#[trigger] readings.take(at)[j]) is Ok by {
        assert(members[j].1 is Text);
    }
    lemma_all_read(readings.take(at));
    lemma_first_error(readings, at);
}

/// A value that is no array is no list of words, one that is neither an object nor null holds no
/// variables, and one that is neither a string nor null is no optional string.
pub proof fn law_wrong_collection_is_refused(tree: JsonView)
    ensures
        !(tree is Text) ==> string_from(tree) == Err::<Seq<char>, Seq<char>>(
            invalid_type(tree, "a string"@),
        ),
        !(tree is Text) && !(tree is Null) ==> optional_string_from(tree) == Err::<
            Option<Seq<char>>,
            Seq<char>,
        >(invalid_type(tree, "a string"@)),
        !(tree is Array) ==> strings_from(tree) == Err::<Seq<Seq<char>>, Seq<char>>(
            invalid_type(tree, "a sequence"@),
        ),
        !(tree is Object) && !(tree is Null) ==> string_map_from(tree) == Err::<
            Option<Seq<(Seq<char>, Seq<char>)>>,
            Seq<char>,
        >(invalid_type(tree, "a map"@)),
{
}

/// A value is an identifier exactly where it is a string, or an integer of 64 bits with a sign; it
/// is then that identifier.
pub proof fn law_identifier_is_a_string_or_an_integer(tree: JsonView)
    ensures
        match tree {
            JsonView::Text(text) => JsonRpcId::from_tree(tree) == Ok::<IdView, Seq<char>>(
                IdView::Text(text),
            ),
            JsonView::Integer(n) => if -0x8000_0000_0000_0000 <= n <= 0x7fff_ffff_ffff_ffff {
                JsonRpcId::from_tree(tree) == Ok::<IdView, Seq<char>>(IdView::Number(n))
            } else {
                JsonRpcId::from_tree(tree) == Err::<IdView, Seq<char>>(
                    "data did not match any variant of untagged enum JsonRpcId"@,
                )
            },
            _ => JsonRpcId::from_tree(tree) == Err::<IdView, Seq<char>>(
                "data did not match any variant of untagged enum JsonRpcId"@,
            ),
        },
{
}

/// The parameters of a message are read from its member `params`; without it, or where it cannot be
/// read, the complaint says so.
pub proof fn law_params_are_a_member<T: FromJson>(message: JsonView)
    ensures
        match member(message, "params"@) {
            None => params_from::<T>(message) == Err::<T::V, Seq<char>>("missing params"@),
            Some(params) => match T::from_tree(params) {
                Ok(read) => params_from::<T>(message) == Ok::<T::V, Seq<char>>(read),
                Err(error) => params_from::<T>(message) == Err::<T::V, Seq<char>>(
                    "invalid params: "@ + error,
                ),
            },
        },
{
}

/// Whether an object's member `env` gives some variables: it holds them, or is null or left out
/// where there are none.
pub open spec fn gives_variables(
    tree: JsonView,
    env: Option<Seq<(Seq<char>, Seq<char>)>>,
) -> bool {
    match env {
        Some(variables) => member(tree, "env"@) == Some(variable_object(variables)),
        None => member(tree, "env"@) is None || member(tree, "env"@) == Some(JsonView::Null),
    }
}

/// Whether an object's members give the parameters of `zsh/execStart`.
pub open spec fn gives_exec_start(tree: JsonView, params: ExecStartParamsView) -> bool {
    &&& member(tree, "execId"@) == Some(JsonView::Text(params.exec_id))
    &&& member(tree, "command"@) == Some(word_array(params.command))
    &&& member(tree, "cwd"@) == Some(JsonView::Text(params.cwd))
    &&& gives_variables(tree, params.env)
}

/// The parameters of `zsh/execStart` are read from an object exactly as its members give them: the
/// identifier, every word of the command, the directory and every variable.
pub proof fn law_exec_start_is_read_from_its_members(
    members: Seq<(Seq<char>, JsonView)>,
    params: ExecStartParamsView,
)
    requires
        names_differ(members),
    ensures
        ExecStartParams::from_tree(JsonView::Object(members)) == Ok::<
            ExecStartParamsView,
            Seq<char>,
        >(params) <==> gives_exec_start(JsonView::Object(members), params),
{
    let tree = JsonView::Object(members);
    if gives_exec_start(tree, params) {
        law_words_are_an_array_of_strings(word_array(params.command), params.command);
        if let Some(variables) = params.env {
            law_variables_are_an_object_of_strings(variable_object(variables), variables);
        }
        assert forall|i: int| 0 <= i < members.len() implies ExecStartParams::field_check(
            #[trigger] members[i],
        ) is Ok by {
            law_first_member_is_found(members, i);
        }
        lemma_fields_pass::<ExecStartParams>(members);
    }
    if ExecStartParams::from_tree(tree) is Ok {
        let read = ExecStartParams::from_tree(tree)->Ok_0;
        lemma_named_passes::<ExecStartParams>(members, "execId"@);
        lemma_named_passes::<ExecStartParams>(members, "command"@);
        lemma_named_passes::<ExecStartParams>(members, "cwd"@);
        law_words_are_an_array_of_strings(named(members, "command"@)->0, read.command);
        lemma_literals();
        if named(members, "env"@) is Some {
            lemma_named_passes::<ExecStartParams>(members, "env"@);
            let env = named(members, "env"@)->0;
            law_variables_are_an_object_of_strings(env, read.env->0);
        }
        assert(gives_exec_start(tree, read));
        if gives_exec_start(tree, params) {
            lemma_word_arrays_differ(read.command, params.command);
            if read.env is Some && params.env is Some {
                lemma_variable_objects_differ(read.env->0, params.env->0);
            }
        }
    }
}

proof fn lemma_word_arrays_differ(left: Seq<Seq<char>>, right: Seq<Seq<char>>)
    requires
        word_array(left) == word_array(right),
    ensures
        left == right,
{
    law_words_are_an_array_of_strings(word_array(left), left);
    law_words_are_an_array_of_strings(word_array(right), right);
}

proof fn lemma_variable_objects_differ(
    left: Seq<(Seq<char>, Seq<char>)>,
    right: Seq<(Seq<char>, Seq<char>)>,
)
    requires
        variable_object(left) == variable_object(right),
    ensures
        left == right,
{
    law_variables_are_an_object_of_strings(variable_object(left), left);
    law_variables_are_an_object_of_strings(variable_object(right), right);
}

/// Where each member of an object passes, all do.
proof fn lemma_fields_pass<R: Record>(members: Seq<(Seq<char>, JsonView)>)
    requires
        forall|i: int| 0 <= i < members.len() ==> R::field_check(#[trigger] members[i]) is Ok,
    ensures
        fields_check::<R>(members) is Ok,
{
    let readings = members.map_values(|member: (Seq<char>, JsonView)| R::field_check(member));
    assert forall|i: int| 0 <= i < readings.len() implies (#[trigger] readings[i]) is Ok by {
        assert(R::field_check(members[i]) is Ok);
    }
    lemma_all_read(readings);
}

/// The first member of an object that does not pass is complained about.
proof fn lemma_first_fault<R: Record>(members: Seq<(Seq<char>, JsonView)>, at: int)
    requires
        0 <= at < members.len(),
        forall|j: int| 0 <= j < at ==> R::field_check(#[trigger] members[j]) is Ok,
        R::field_check(members[at]) is Err,
    ensures
        fields_check::<R>(members) == Err::<Seq<()>, Seq<char>>(
            R::field_check(members[at])->Err_0,
        ),
{
    let readings = members.map_values(|member: (Seq<char>, JsonView)| R::field_check(member));
    assert forall|j: int| 0 <= j < at implies (#[trigger] readings.take(at)[j]) is Ok by {
        assert(R::field_check(members[j]) is Ok);
    }
    lemma_all_read(readings.take(at));
    lemma_first_error(readings, at);
}

proof fn lemma_literals()
    ensures
        "execId"@ != "command"@,
        "execId"@ != "cwd"@,
        "execId"@ != "env"@,
        "command"@ != "cwd"@,
        "command"@ != "env"@,
        "cwd"@ != "env"@,
{
    reveal_strlit("execId");
    reveal_strlit("command");
    reveal_strlit("cwd");
    reveal_strlit("env");
    assert("execId"@.len() == 6 && "command"@.len() == 7 && "cwd"@.len() == 3 && "env"@.len() == 3);
    assert("cwd"@[0] == 'c' && "env"@[0] == 'e');
}

/// The parameters of `zsh/execStart` are read from an array exactly as its items give them in order;
/// the variables may be null or left out. No other value than an object or an array gives them.
pub proof fn law_exec_start_is_read_from_its_items(items: Seq<JsonView>, params: ExecStartParamsView)
    ensures
        ExecStartParams::from_tree(JsonView::Array(items)) == Ok::<ExecStartParamsView, Seq<char>>(
            params,
        ) <==> {
            &&& items.len() == 3 || items.len() == 4
            &&& items[0] == JsonView::Text(params.exec_id)
            &&& items[1] == word_array(params.command)
            &&& items[2] == JsonView::Text(params.cwd)
            &&& match params.env {
                Some(variables) => items.len() == 4 && items[3] == variable_object(variables),
                None => items.len() == 4 ==> items[3] == JsonView::Null,
            }
        },
        forall|tree: JsonView|
            !(tree is Object) && !(tree is Array) ==> #[trigger] ExecStartParams::from_tree(tree)
                == Err::<ExecStartParamsView, Seq<char>>(
                invalid_type(tree, "struct ExecStartParams"@),
            ),
{
    let tree = JsonView::Array(items);
    law_words_are_an_array_of_strings(items[1], params.command);
    if let Some(variables) = params.env {
        law_variables_are_an_object_of_strings(items[3], variables);
    }
    law_variables_are_an_object_of_strings(items[3], Seq::empty());
}

/// An array that ends before the directory, or holds more than the variables, gives no parameters
/// of `zsh/execStart`.
pub proof fn law_exec_start_items_are_counted(items: Seq<JsonView>)
    ensures
        items.len() == 0 ==> ExecStartParams::from_tree(JsonView::Array(items)) == Err::<
            ExecStartParamsView,
            Seq<char>,
        >(invalid_length(0, "struct ExecStartParams with 4 elements"@)),
        items.len() == 1 && items[0] is Text ==> ExecStartParams::from_tree(JsonView::Array(items))
            == Err::<ExecStartParamsView, Seq<char>>(
            invalid_length(1, "struct ExecStartParams with 4 elements"@),
        ),
        items.len() == 2 && items[0] is Text && strings_from(items[1]) is Ok
            ==> ExecStartParams::from_tree(JsonView::Array(items)) == Err::<
            ExecStartParamsView,
            Seq<char>,
        >(invalid_length(2, "struct ExecStartParams with 4 elements"@)),
        items.len() > 4 && items[0] is Text && strings_from(items[1]) is Ok && items[2] is Text
            && string_map_from(items[3]) is Ok ==> ExecStartParams::from_tree(
            JsonView::Array(items),
        ) == Err::<ExecStartParamsView, Seq<char>>(
            invalid_length(items.len() as int, "fewer elements in array"@),
        ),
{
}

/// The first item of an array that does not fit is complained about.
pub proof fn law_exec_start_item_faults_are_told(items: Seq<JsonView>)
    ensures
        ({
            let read = ExecStartParams::from_tree(JsonView::Array(items));
            &&& items.len() > 0 && string_from(items[0]) is Err ==> read == Err::<
                ExecStartParamsView,
                Seq<char>,
            >(string_from(items[0])->Err_0)
            &&& items.len() > 1 && items[0] is Text && strings_from(items[1]) is Err ==> read
                == Err::<ExecStartParamsView, Seq<char>>(strings_from(items[1])->Err_0)
            &&& items.len() > 2 && items[0] is Text && strings_from(items[1]) is Ok && string_from(
                items[2],
            ) is Err ==> read == Err::<ExecStartParamsView, Seq<char>>(
                string_from(items[2])->Err_0,
            )
            &&& items.len() > 3 && items[0] is Text && strings_from(items[1]) is Ok && items[2]
                is Text && string_map_from(items[3]) is Err ==> read == Err::<
                ExecStartParamsView,
                Seq<char>,
            >(string_map_from(items[3])->Err_0)
        }),
{
}

/// The complaint about a member of the parameters of `zsh/execStart`, where it is one of them and
/// does not fit.
pub open spec fn exec_start_fault(member: (Seq<char>, JsonView)) -> Option<Seq<char>> {
    if member.0 == "execId"@ || member.0 == "cwd"@ {
        match string_from(member.1) {
            Ok(_) => None,
            Err(error) => Some(error),
        }
    } else if member.0 == "command"@ {
        match strings_from(member.1) {
            Ok(_) => None,
            Err(error) => Some(error),
        }
    } else if member.0 == "env"@ {
        match string_map_from(member.1) {
            Ok(_) => None,
            Err(error) => Some(error),
        }
    } else {
        None
    }
}

/// Of the members of an object, the first that does not fit is complained about; where all fit,
/// the first parameter of `zsh/execStart` that is missing.
pub proof fn law_exec_start_faults_are_told(members: Seq<(Seq<char>, JsonView)>, at: int)
    ensures
        0 <= at < members.len() && exec_start_fault(members[at]) is Some && (forall|j: int|
            0 <= j < at ==> exec_start_fault(#[trigger] members[j]) is None)
            ==> ExecStartParams::from_tree(JsonView::Object(members)) == Err::<
            ExecStartParamsView,
            Seq<char>,
        >(exec_start_fault(members[at])->0),
        (forall|j: int| 0 <= j < members.len() ==> exec_start_fault(#[trigger] members[j]) is None)
            ==> {
            let tree = JsonView::Object(members);
            let read = ExecStartParams::from_tree(tree);
            &&& member(tree, "execId"@) is None ==> read == Err::<ExecStartParamsView, Seq<char>>(
                "missing field `"@ + "execId"@ + "`"@,
            )
            &&& member(tree, "execId"@) is Some && member(tree, "command"@) is None ==> read
                == Err::<ExecStartParamsView, Seq<char>>("missing field `"@ + "command"@ + "`"@)
            &&& member(tree, "execId"@) is Some && member(tree, "command"@) is Some && member(
                tree,
                "cwd"@,
            ) is None ==> read == Err::<ExecStartParamsView, Seq<char>>(
                "missing field `"@ + "cwd"@ + "`"@,
            )
        },
{
    lemma_literals();
    assert forall|j: int| 0 <= j < members.len() implies (ExecStartParams::field_check(
        #[trigger] members[j],
    ) is Ok <==> exec_start_fault(members[j]) is None) by {}
    if 0 <= at < members.len() && exec_start_fault(members[at]) is Some && (forall|j: int|
        0 <= j < at ==> exec_start_fault(#[trigger] members[j]) is None) {
        assert forall|j: int| 0 <= j < at implies ExecStartParams::field_check(
            #[trigger] members[j],
        ) is Ok by {
            assert(exec_start_fault(members[j]) is None);
        }
        lemma_first_fault::<ExecStartParams>(members, at);
    }
    if forall|j: int| 0 <= j < members.len() ==> exec_start_fault(#[trigger] members[j]) is None {
        assert forall|j: int| 0 <= j < members.len() implies ExecStartParams::field_check(
            #[trigger] members[j],
        ) is Ok by {
            assert(exec_start_fault(members[j]) is None);
        }
        lemma_fields_pass::<ExecStartParams>(members);
    }
}

/// The parameters of `zsh/execInterrupt` are an object whose member `execId` is a string, or an
/// array of one string; they are then that string.
pub proof fn law_exec_interrupt_is_read(tree: JsonView, exec_id: Seq<char>)
    requires
        tree is Object ==> names_differ(tree->Object_0),
    ensures
        ExecInterruptParams::from_tree(tree) == Ok::<ExecInterruptParamsView, Seq<char>>(
            ExecInterruptParamsView { exec_id },
        ) <==> {
            ||| member(tree, "execId"@) == Some(JsonView::Text(exec_id))
            ||| tree is Array && tree->Array_0.len() == 1 && tree->Array_0[0] == JsonView::Text(
                exec_id,
            )
        },
        ExecInterruptParams::from_tree(tree) is Err ==> {
            let error = ExecInterruptParams::from_tree(tree)->Err_0;
            &&& tree is Object && member(tree, "execId"@) is None ==> error == "missing field `"@
                + "execId"@ + "`"@
            &&& tree is Object && member(tree, "execId"@) is Some ==> error == invalid_type(
                member(tree, "execId"@)->0,
                "a string"@,
            )
            &&& tree is Array && tree->Array_0.len() == 0 ==> error == invalid_length(
                0,
                "struct ExecInterruptParams with 1 element"@,
            )
            &&& tree is Array && tree->Array_0.len() > 0 && !(tree->Array_0[0] is Text) ==> error
                == invalid_type(tree->Array_0[0], "a string"@)
            &&& tree is Array && tree->Array_0.len() > 1 && tree->Array_0[0] is Text ==> error
                == invalid_length(tree->Array_0.len() as int, "fewer elements in array"@)
            &&& !(tree is Object) && !(tree is Array) ==> error == invalid_type(
                tree,
                "struct ExecInterruptParams"@,
            )
        },
{
    if let JsonView::Object(members) = tree {
        lemma_one_field::<ExecInterruptParams>(members, "execId"@);
        law_member_stands_where_it_is_found(tree, "execId"@);
    }
}

/// Where only one member can fail to pass, the object passes or fails with it.
proof fn lemma_one_field<R: Record>(members: Seq<(Seq<char>, JsonView)>, name: Seq<char>)
    requires
        names_differ(members),
        forall|other: (Seq<char>, JsonView)| other.0 != name ==> (#[trigger] R::field_check(other)) is Ok,
    ensures
        match named(members, name) {
            None => fields_check::<R>(members) is Ok,
            Some(value) => match R::field_check((name, value)) {
                Ok(_) => fields_check::<R>(members) is Ok,
                Err(error) => fields_check::<R>(members) == Err::<Seq<()>, Seq<char>>(error),
            },
        },
{
    lemma_named_stands(members, name);
    if named(members, name) is Some && R::field_check((name, named(members, name)->0)) is Err {
        let value = named(members, name)->0;
        let at = choose|j: int| 0 <= j < members.len() && members[j] == (name, value);
        assert forall|j: int| 0 <= j < at implies R::field_check(#[trigger] members[j]) is Ok by {
            assert(members[j].0 != members[at].0);
        }
        lemma_first_fault::<R>(members, at);
    } else {
        assert forall|j: int| 0 <= j < members.len() implies R::field_check(
            #[trigger] members[j],
        ) is Ok by {
            if members[j].0 == name {
                law_first_member_is_found(members, j);
            }
        }
        lemma_fields_pass::<R>(members);
    }
}

/// The name that a decision has on the wire.
pub open spec fn wire_name(decision: ApprovalDecision) -> Seq<char> {
    match decision {
        ApprovalDecision::Approved => "approved"@,
        ApprovalDecision::ApprovedForSession => "approved_for_session"@,
        ApprovalDecision::ApprovedExecpolicyAmendment => "approved_execpolicy_amendment"@,
        ApprovalDecision::Denied => "denied"@,
        ApprovalDecision::Abort => "abort"@,
    }
}

/// A value is a decision exactly where it is the decision's name, or an object whose one member has
/// that name and is null.
pub proof fn law_decision_is_read_by_its_name(tree: JsonView, decision: ApprovalDecision)
    ensures
        ApprovalDecision::from_tree(tree) == Ok::<ApprovalDecision, Seq<char>>(decision) <==> {
            ||| tree == JsonView::Text(wire_name(decision))
            ||| tree is Object && tree->Object_0.len() == 1 && tree->Object_0[0] == (
                wire_name(decision),
                JsonView::Null,
            )
        },
{
    lemma_decision_names();
}

proof fn lemma_decision_names()
    ensures
        forall|name: Seq<char>, decision: ApprovalDecision|
            #![trigger decision_named(name), wire_name(decision)]
            decision_named(name) == Some(decision) <==> name == wire_name(decision),
{
    reveal_strlit("approved");
    reveal_strlit("approved_for_session");
    reveal_strlit("approved_execpolicy_amendment");
    reveal_strlit("denied");
    reveal_strlit("abort");
    assert("approved"@.len() == 8);
    assert("approved_for_session"@.len() == 20);
    assert("approved_execpolicy_amendment"@.len() == 29);
    assert("denied"@.len() == 6);
    assert("abort"@.len() == 5);
}

/// A value that is no decision is complained about.
pub proof fn law_no_decision_is_told(tree: JsonView)
    requires
        ApprovalDecision::from_tree(tree) is Err,
    ensures
        ({
            let error = ApprovalDecision::from_tree(tree)->Err_0;
            let unknown = |name: Seq<char>|
                "unknown variant `"@ + name
                    + "`, expected one of `approved`, `approved_for_session`, `approved_execpolicy_amendment`, `denied`, `abort`"@;
            &&& tree is Text ==> error == unknown(tree->Text_0)
            &&& tree is Object && tree->Object_0.len() != 1 ==> error
                == "invalid value: map, expected map with a single key"@
            &&& tree is Object && tree->Object_0.len() == 1 ==> {
                let only = tree->Object_0[0];
                error == if exists|decision: ApprovalDecision|
                    only.0 == #[trigger] wire_name(decision) {
                    invalid_type(only.1, "unit"@)
                } else {
                    unknown(only.0)
                }
            }
            &&& !(tree is Text) && !(tree is Object) ==> error == invalid_type(
                tree,
                "string or map"@,
            )
        }),
{
    lemma_decision_names();
    if tree is Object && tree->Object_0.len() == 1 {
        let only = tree->Object_0[0];
        if let Some(decision) = decision_named(only.0) {
            assert(only.0 == wire_name(decision));
        }
    }
}

/// An approval result is an object whose member `decision` is a decision, or an array of one
/// decision; it is then that decision.
pub proof fn law_approval_result_is_read(tree: JsonView, decision: ApprovalDecision)
    requires
        tree is Object ==> names_differ(tree->Object_0),
    ensures
        RequestApprovalResult::from_tree(tree) == Ok::<ApprovalDecision, Seq<char>>(decision)
            <==> {
            ||| member(tree, "decision"@) is Some && ApprovalDecision::from_tree(
                member(tree, "decision"@)->0,
            ) == Ok::<ApprovalDecision, Seq<char>>(decision)
            ||| tree is Array && tree->Array_0.len() == 1 && ApprovalDecision::from_tree(
                tree->Array_0[0],
            ) == Ok::<ApprovalDecision, Seq<char>>(decision)
        },
        RequestApprovalResult::from_tree(tree) is Err ==> {
            let error = RequestApprovalResult::from_tree(tree)->Err_0;
            &&& tree is Object && member(tree, "decision"@) is None ==> error == "missing field `"@
                + "decision"@ + "`"@
            &&& tree is Object && member(tree, "decision"@) is Some ==> Err::<
                ApprovalDecision,
                Seq<char>,
            >(error) == ApprovalDecision::from_tree(member(tree, "decision"@)->0)
            &&& tree is Array && tree->Array_0.len() == 0 ==> error == invalid_length(
                0,
                "struct RequestApprovalResult with 1 element"@,
            )
            &&& tree is Array && tree->Array_0.len() > 0 && ApprovalDecision::from_tree(
                tree->Array_0[0],
            ) is Err ==> error == ApprovalDecision::from_tree(tree->Array_0[0])->Err_0
            &&& tree is Array && tree->Array_0.len() > 1 && ApprovalDecision::from_tree(
                tree->Array_0[0],
            ) is Ok ==> error == invalid_length(
                tree->Array_0.len() as int,
                "fewer elements in array"@,
            )
            &&& !(tree is Object) && !(tree is Array) ==> error == invalid_type(
                tree,
                "struct RequestApprovalResult"@,
            )
        },
{
    if let JsonView::Object(members) = tree {
        lemma_one_field::<RequestApprovalResult>(members, "decision"@);
    }
}

/// Every decision but a denial and an abort lets a command run, and these two say why it does not.
pub proof fn law_only_denial_and_abort_refuse(decision: ApprovalDecision)
    ensures
        grants(decision) <==> decision != ApprovalDecision::Denied && decision
            != ApprovalDecision::Abort,
        refusal(decision) is None <==> grants(decision),
        refusal(ApprovalDecision::Denied) == Some("command denied by host approval policy"@),
        refusal(ApprovalDecision::Abort) == Some("command aborted by host approval policy"@),
{
}

/// What a message means to one who awaits an answer: without an identifier it is none, under
/// another identifier it is not this one, and under this identifier it is a rejection where it has
/// an error, and else the decision that its result holds.
pub proof fn law_reply_is_read_under_its_identifier(message: JsonView, expected: IdView)
    ensures
        ({
            let reply = reply_of(message, expected);
            let id = member(message, "id"@);
            let error = member(message, "error"@);
            let result = member(message, "result"@);
            &&& id is None ==> reply == Ok::<ApprovalReply, ErrorView>(ApprovalReply::NoAnswer)
            &&& id is Some ==> match JsonRpcId::from_tree(id->0) {
                Err(cause) => reply == Err::<ApprovalReply, ErrorView>(
                    ErrorView::ApprovalId(cause),
                ),
                Ok(id) => {
                    &&& id != expected ==> reply == Ok::<ApprovalReply, ErrorView>(
                        ApprovalReply::OtherAnswer,
                    )
                    &&& id == expected && error is Some ==> reply == Err::<
                        ApprovalReply,
                        ErrorView,
                    >(
                        ErrorView::ApprovalRejected(
                            match member(error->0, "message"@) {
                                Some(JsonView::Text(text)) => text,
                                _ => "unknown host approval callback error"@,
                            },
                        ),
                    )
                    &&& id == expected && error is None && result is None ==> reply == Err::<
                        ApprovalReply,
                        ErrorView,
                    >(ErrorView::ApprovalResultMissing)
                    &&& id == expected && error is None && result is Some
                        ==> match RequestApprovalResult::from_tree(result->0) {
                        Ok(decision) => reply == Ok::<ApprovalReply, ErrorView>(
                            ApprovalReply::Decided(decision),
                        ),
                        Err(cause) => reply == Err::<ApprovalReply, ErrorView>(
                            ErrorView::ApprovalResult(cause),
                        ),
                    }
                },
            }
        }),
{
}

/// What the next input means to one who awaits an answer: its end is an error, a blank line means
/// nothing, a line that is no JSON is an error, and any other line means what its message does.
pub proof fn law_input_is_read_while_awaiting(line: Seq<char>, expected: IdView)
    ensures
        input_reply(None, expected) == Err::<ApprovalReply, ErrorView>(ErrorView::InputClosed),
        trimmed(line).len() == 0 ==> input_reply(Some(line), expected) == Ok::<
            ApprovalReply,
            ErrorView,
        >(ApprovalReply::NoAnswer),
        trimmed(line).len() > 0 ==> match parsed(line) {
            Ok(message) => input_reply(Some(line), expected) == reply_of(message, expected),
            Err(error) => input_reply(Some(line), expected) == Err::<ApprovalReply, ErrorView>(
                ErrorView::ApprovalMessage(error),
            ),
        },
{
}

/// What a reading means to one who awaits an answer: one that failed is an error, and any other
/// means what its message does.
pub proof fn law_reading_is_taken_while_awaiting(
    message: JsonView,
    error: Seq<char>,
    expected: IdView,
)
    ensures
        reading_reply(Ok(message), expected) == reply_of(message, expected),
        reading_reply(Err(error), expected) == Err::<ApprovalReply, ErrorView>(
            ErrorView::ApprovalMessage(error),
        ),
{
}

/// A wrapper's question is read from an object exactly as its members give it, and from an array
/// exactly as its three items give it in order.
pub proof fn law_wrapper_request_is_read(tree: JsonView, request: WrapperExecRequestView)
    requires
        tree is Object ==> names_differ(tree->Object_0),
    ensures
        WrapperExecRequest::from_tree(tree) == Ok::<WrapperExecRequestView, Seq<char>>(request)
            <==> {
            ||| {
                &&& member(tree, "file"@) == Some(JsonView::Text(request.file))
                &&& member(tree, "argv"@) == Some(word_array(request.argv))
                &&& member(tree, "cwd"@) == Some(JsonView::Text(request.cwd))
            }
            ||| tree == JsonView::Array(
                seq![
                    JsonView::Text(request.file),
                    word_array(request.argv),
                    JsonView::Text(request.cwd),
                ],
            )
        },
{
    reveal_strlit("file");
    reveal_strlit("argv");
    reveal_strlit("cwd");
    assert("file"@[0] != "argv"@[0]);
    assert("cwd"@.len() == 3 && "file"@.len() == 4 && "argv"@.len() == 4);
    law_words_are_an_array_of_strings(word_array(request.argv), request.argv);
    if let JsonView::Object(members) = tree {
        if {
            &&& member(tree, "file"@) == Some(JsonView::Text(request.file))
            &&& member(tree, "argv"@) == Some(word_array(request.argv))
            &&& member(tree, "cwd"@) == Some(JsonView::Text(request.cwd))
        } {
            assert forall|i: int| 0 <= i < members.len() implies WrapperExecRequest::field_check(
                #[trigger] members[i],
            ) is Ok by {
                law_first_member_is_found(members, i);
            }
            lemma_fields_pass::<WrapperExecRequest>(members);
        }
        if WrapperExecRequest::from_tree(tree) is Ok {
            let read = WrapperExecRequest::from_tree(tree)->Ok_0;
            lemma_named_passes::<WrapperExecRequest>(members, "file"@);
            lemma_named_passes::<WrapperExecRequest>(members, "argv"@);
            lemma_named_passes::<WrapperExecRequest>(members, "cwd"@);
            law_words_are_an_array_of_strings(named(members, "argv"@)->0, read.argv);
        }
    }
    if let JsonView::Array(items) = tree {
        law_words_are_an_array_of_strings(items[1], request.argv);
        if WrapperExecRequest::from_tree(tree) == Ok::<WrapperExecRequestView, Seq<char>>(request) {
            assert(items =~= seq![
                JsonView::Text(request.file),
                word_array(request.argv),
                JsonView::Text(request.cwd),
            ]);
        }
    }
}

/// The answer to a wrapper is read from an object exactly as its members give it, and from an array
/// exactly as its two items give it in order: `run` or `deny`, and a reason or null.
pub proof fn law_wrapper_response_is_read(tree: JsonView, response: WrapperExecResponseView)
    requires
        tree is Object ==> names_differ(tree->Object_0),
    ensures
        WrapperExecResponse::from_tree(tree) == Ok::<WrapperExecResponseView, Seq<char>>(response)
            <==> {
            ||| {
                &&& member(tree, "action"@) is Some && is_action(
                    member(tree, "action"@)->0,
                    response.action,
                )
                &&& match response.reason {
                    Some(reason) => member(tree, "reason"@) == Some(JsonView::Text(reason)),
                    None => member(tree, "reason"@) is None || member(tree, "reason"@) == Some(
                        JsonView::Null,
                    ),
                }
            }
            ||| {
                &&& tree is Array && tree->Array_0.len() == 2
                &&& is_action(tree->Array_0[0], response.action)
                &&& tree->Array_0[1] == match response.reason {
                    Some(reason) => JsonView::Text(reason),
                    None => JsonView::Null,
                }
            }
        },
{
    reveal_strlit("run");
    reveal_strlit("deny");
    reveal_strlit("action");
    reveal_strlit("reason");
    assert("run"@.len() == 3 && "deny"@.len() == 4);
    assert("action"@[0] != "reason"@[0]);
    assert forall|value: JsonView, action: WrapperExecAction|
        #![trigger is_action(value, action)]
        is_action(value, action) <==> WrapperExecAction::from_tree(value) == Ok::<
            WrapperExecAction,
            Seq<char>,
        >(action) by {}
    if let JsonView::Object(members) = tree {
        if WrapperExecResponse::from_tree(tree) is Ok {
            lemma_named_passes::<WrapperExecResponse>(members, "action"@);
            if named(members, "reason"@) is Some {
                lemma_named_passes::<WrapperExecResponse>(members, "reason"@);
            }
        }
        if member(tree, "action"@) is Some && WrapperExecAction::from_tree(
            member(tree, "action"@)->0,
        ) is Ok && (member(tree, "reason"@) is None || optional_string_from(
            member(tree, "reason"@)->0,
        ) is Ok) {
            assert forall|i: int| 0 <= i < members.len() implies WrapperExecResponse::field_check(
                #[trigger] members[i],
            ) is Ok by {
                law_first_member_is_found(members, i);
            }
            lemma_fields_pass::<WrapperExecResponse>(members);
        }
    }
}

/// Whether a value says what a wrapper is told to do: by the name `run` or `deny`, or by an object
/// whose one member has that name and is null.
pub open spec fn is_action(value: JsonView, action: WrapperExecAction) -> bool {
    let name = match action {
        WrapperExecAction::Run => "run"@,
        WrapperExecAction::Deny => "deny"@,
    };
    ||| value == JsonView::Text(name)
    ||| value is Object && value->Object_0.len() == 1 && value->Object_0[0] == (
        name,
        JsonView::Null,
    )
}

/// A wrapper's question that cannot be read is complained about: its first member or item that does
/// not fit, else what is missing, else what it holds too much.
pub proof fn law_wrapper_request_faults_are_told(
    members: Seq<(Seq<char>, JsonView)>,
    items: Seq<JsonView>,
    tree: JsonView,
    at: int,
)
    ensures
        ({
            let fault = |member: (Seq<char>, JsonView)|
                if member.0 == "file"@ || member.0 == "cwd"@ {
                    string_from(member.1) is Err
                } else {
                    member.0 == "argv"@ && strings_from(member.1) is Err
                };
            let read = WrapperExecRequest::from_tree(JsonView::Object(members));
            &&& 0 <= at < members.len() && fault(members[at]) && (forall|j: int|
                0 <= j < at ==> !fault(#[trigger] members[j])) ==> read == Err::<
                WrapperExecRequestView,
                Seq<char>,
            >(
                if members[at].0 == "argv"@ {
                    strings_from(members[at].1)->Err_0
                } else {
                    string_from(members[at].1)->Err_0
                },
            )
            &&& (forall|j: int| 0 <= j < members.len() ==> !fault(#[trigger] members[j])) ==> {
                let whole = JsonView::Object(members);
                &&& member(whole, "file"@) is None ==> read == Err::<
                    WrapperExecRequestView,
                    Seq<char>,
                >("missing field `"@ + "file"@ + "`"@)
                &&& member(whole, "file"@) is Some && member(whole, "argv"@) is None ==> read
                    == Err::<WrapperExecRequestView, Seq<char>>(
                    "missing field `"@ + "argv"@ + "`"@,
                )
                &&& member(whole, "file"@) is Some && member(whole, "argv"@) is Some && member(
                    whole,
                    "cwd"@,
                ) is None ==> read == Err::<WrapperExecRequestView, Seq<char>>(
                    "missing field `"@ + "cwd"@ + "`"@,
                )
            }
        }),
        ({
            let read = WrapperExecRequest::from_tree(JsonView::Array(items));
            let short = |len: int|
                Err::<WrapperExecRequestView, Seq<char>>(
                    invalid_length(len, "struct WrapperExecRequest with 3 elements"@),
                );
            &&& items.len() == 0 ==> read == short(0)
            &&& items.len() > 0 && !(items[0] is Text) ==> read == Err::<
                WrapperExecRequestView,
                Seq<char>,
            >(invalid_type(items[0], "a string"@))
            &&& items.len() == 1 && items[0] is Text ==> read == short(1)
            &&& items.len() > 1 && items[0] is Text && strings_from(items[1]) is Err ==> read
                == Err::<WrapperExecRequestView, Seq<char>>(strings_from(items[1])->Err_0)
            &&& items.len() == 2 && items[0] is Text && strings_from(items[1]) is Ok ==> read
                == short(2)
            &&& items.len() > 2 && items[0] is Text && strings_from(items[1]) is Ok && !(items[2]
                is Text) ==> read == Err::<WrapperExecRequestView, Seq<char>>(
                invalid_type(items[2], "a string"@),
            )
            &&& items.len() > 3 && items[0] is Text && strings_from(items[1]) is Ok && items[2]
                is Text ==> read == Err::<WrapperExecRequestView, Seq<char>>(
                invalid_length(items.len() as int, "fewer elements in array"@),
            )
        }),
        !(tree is Object) && !(tree is Array) ==> WrapperExecRequest::from_tree(tree) == Err::<
            WrapperExecRequestView,
            Seq<char>,
        >(invalid_type(tree, "struct WrapperExecRequest"@)),
{
    reveal_strlit("file");
    reveal_strlit("argv");
    reveal_strlit("cwd");
    assert("file"@[0] != "argv"@[0]);
    assert("cwd"@.len() == 3 && "file"@.len() == 4 && "argv"@.len() == 4);
    let fault = |member: (Seq<char>, JsonView)|
        if member.0 == "file"@ || member.0 == "cwd"@ {
            string_from(member.1) is Err
        } else {
            member.0 == "argv"@ && strings_from(member.1) is Err
        };
    if 0 <= at < members.len() && fault(members[at]) && (forall|j: int|
        0 <= j < at ==> !fault(#[trigger] members[j])) {
        assert forall|j: int| 0 <= j < at implies WrapperExecRequest::field_check(
            #[trigger] members[j],
        ) is Ok by {
            assert(!fault(members[j]));
        }
        lemma_first_fault::<WrapperExecRequest>(members, at);
    }
    if forall|j: int| 0 <= j < members.len() ==> !fault(#[trigger] members[j]) {
        assert forall|j: int| 0 <= j < members.len() implies WrapperExecRequest::field_check(
            #[trigger] members[j],
        ) is Ok by {
            assert(!fault(members[j]));
        }
        lemma_fields_pass::<WrapperExecRequest>(members);
    }
}

/// An answer to a wrapper that cannot be read is complained about: its first member or item that
/// does not fit, else what is missing, else what it holds too much.
pub proof fn law_wrapper_response_faults_are_told(
    members: Seq<(Seq<char>, JsonView)>,
    items: Seq<JsonView>,
    tree: JsonView,
    at: int,
)
    ensures
        ({
            let fault = |member: (Seq<char>, JsonView)|
                if member.0 == "action"@ {
                    WrapperExecAction::from_tree(member.1) is Err
                } else {
                    member.0 == "reason"@ && optional_string_from(member.1) is Err
                };
            let read = WrapperExecResponse::from_tree(JsonView::Object(members));
            &&& 0 <= at < members.len() && fault(members[at]) && (forall|j: int|
                0 <= j < at ==> !fault(#[trigger] members[j])) ==> read == Err::<
                WrapperExecResponseView,
                Seq<char>,
            >(
                if members[at].0 == "action"@ {
                    WrapperExecAction::from_tree(members[at].1)->Err_0
                } else {
                    invalid_type(members[at].1, "a string"@)
                },
            )
            &&& (forall|j: int| 0 <= j < members.len() ==> !fault(#[trigger] members[j])) && member(
                JsonView::Object(members),
                "action"@,
            ) is None ==> read == Err::<WrapperExecResponseView, Seq<char>>(
                "missing field `"@ + "action"@ + "`"@,
            )
        }),
        ({
            let read = WrapperExecResponse::from_tree(JsonView::Array(items));
            let short = |len: int|
                Err::<WrapperExecResponseView, Seq<char>>(
                    invalid_length(len, "struct WrapperExecResponse with 2 elements"@),
                );
            &&& items.len() == 0 ==> read == short(0)
            &&& items.len() > 0 && WrapperExecAction::from_tree(items[0]) is Err ==> read == Err::<
                WrapperExecResponseView,
                Seq<char>,
            >(WrapperExecAction::from_tree(items[0])->Err_0)
            &&& items.len() == 1 && WrapperExecAction::from_tree(items[0]) is Ok ==> read == short(1)
            &&& items.len() > 1 && WrapperExecAction::from_tree(items[0]) is Ok
                && optional_string_from(items[1]) is Err ==> read == Err::<
                WrapperExecResponseView,
                Seq<char>,
            >(invalid_type(items[1], "a string"@))
            &&& items.len() > 2 && WrapperExecAction::from_tree(items[0]) is Ok
                && optional_string_from(items[1]) is Ok ==> read == Err::<
                WrapperExecResponseView,
                Seq<char>,
            >(invalid_length(items.len() as int, "fewer elements in array"@))
        }),
        !(tree is Object) && !(tree is Array) ==> WrapperExecResponse::from_tree(tree) == Err::<
            WrapperExecResponseView,
            Seq<char>,
        >(invalid_type(tree, "struct WrapperExecResponse"@)),
        tree is Text && tree->Text_0 != "run"@ && tree->Text_0 != "deny"@
            ==> WrapperExecAction::from_tree(tree) == Err::<WrapperExecAction, Seq<char>>(
            "unknown variant `"@ + tree->Text_0 + "`, expected `run` or `deny`"@,
        ),
        !(tree is Text) && !(tree is Object) ==> WrapperExecAction::from_tree(tree) == Err::<
            WrapperExecAction,
            Seq<char>,
        >(invalid_type(tree, "string or map"@)),
{
    reveal_strlit("action");
    reveal_strlit("reason");
    assert("action"@[0] != "reason"@[0]);
    let fault = |member: (Seq<char>, JsonView)|
        if member.0 == "action"@ {
            WrapperExecAction::from_tree(member.1) is Err
        } else {
            member.0 == "reason"@ && optional_string_from(member.1) is Err
        };
    if 0 <= at < members.len() && fault(members[at]) && (forall|j: int|
        0 <= j < at ==> !fault(#[trigger] members[j])) {
        assert forall|j: int| 0 <= j < at implies WrapperExecResponse::field_check(
            #[trigger] members[j],
        ) is Ok by {
            assert(!fault(members[j]));
        }
        lemma_first_fault::<WrapperExecResponse>(members, at);
    }
    if forall|j: int| 0 <= j < members.len() ==> !fault(#[trigger] members[j]) {
        assert forall|j: int| 0 <= j < members.len() implies WrapperExecResponse::field_check(
            #[trigger] members[j],
        ) is Ok by {
            assert(!fault(members[j]));
        }
        lemma_fields_pass::<WrapperExecResponse>(members);
    }
}

} // verus!
