//! Reading the protocol's types out of JSON values.

use crate::json::{Json, JsonView};
use crate::text::{decimal, decimal_text, joined, quote, quoted, same_text};
use vstd::prelude::*;
use vstd::string::*;

verus! {

/// The value of the first member with a name, in a list of members.
pub open spec fn named(members: Seq<(Seq<char>, JsonView)>, name: Seq<char>) -> Option<JsonView>
    decreases members.len(),
{
    if members.len() == 0 {
        None
    } else if members[0].0 == name {
        Some(members[0].1)
    } else {
        named(members.drop_first(), name)
    }
}

/// The member of a value with a name. A value that is no object has none.
pub open spec fn member(tree: JsonView, name: Seq<char>) -> Option<JsonView> {
    match tree {
        JsonView::Object(members) => named(members, name),
        _ => None,
    }
}

/// The text that a value is. A value that is no string has none.
pub open spec fn text_of(tree: JsonView) -> Option<Seq<char>> {
    match tree {
        JsonView::Text(text) => Some(text),
        _ => None,
    }
}

impl Json {
    /// The member with a name.
    pub fn get(&self, name: &str) -> (found: Option<&Json>)
        ensures
            match found {
                Some(json) => member(self@, name@) == Some(json@),
                None => member(self@, name@) is None,
            },
    {
        match self {
            Json::Object(members) => {
                let ghost all = self@->Object_0;
                let mut i: usize = 0;
                proof {
                    assert(all.skip(0) =~= all);
                }
                while i < members.len()
                    invariant
                        *self == Json::Object(*members),
                        all == self@->Object_0,
                        self@ is Object,
                        i <= members@.len(),
                        named(all, name@) == named(all.skip(i as int), name@),
                    decreases members@.len() - i,
                {
                    proof {
                        assert(all.skip(i as int)[0] == all[i as int]);
                        assert(all[i as int] == (members@[i as int].0@, members@[i as int].1@));
                        assert(all.skip(i as int).drop_first() =~= all.skip(i + 1));
                    }
                    if same_text(members[i].0.as_str(), name) {
                        return Some(&members[i].1);
                    }
                    i += 1;
                }
                None
            },
            _ => None,
        }
    }

    /// The text that this value is.
    pub fn as_text(&self) -> (text: Option<&str>)
        ensures
            match text {
                Some(text) => text_of(self@) == Some(text@),
                None => text_of(self@) is None,
            },
    {
        match self {
            Json::Text(text) => Some(text.as_str()),
            _ => None,
        }
    }
}

/// How a complaint names a value that was not expected.
pub open spec fn unexpected(tree: JsonView) -> Seq<char> {
    match tree {
        JsonView::Null => "null"@,
        JsonView::Bool(b) => if b {
            "boolean `true`"@
        } else {
            "boolean `false`"@
        },
        JsonView::Integer(n) => "integer `"@ + decimal_text(n) + "`"@,
        JsonView::Float(text) => "floating point `"@ + text + "`"@,
        JsonView::Text(text) => "string "@ + quoted(text),
        JsonView::Array(_) => "sequence"@,
        JsonView::Object(_) => "map"@,
    }
}

/// The complaint about a value of the wrong type.
pub open spec fn invalid_type(tree: JsonView, expected: Seq<char>) -> Seq<char> {
    "invalid type: "@ + unexpected(tree) + ", expected "@ + expected
}

/// The complaint about an array with too few or too many items.
pub open spec fn invalid_length(len: int, expected: Seq<char>) -> Seq<char> {
    "invalid length "@ + decimal_text(len) + ", expected "@ + expected
}

/// The complaint about a member that is not there.
pub open spec fn missing_field(name: Seq<char>) -> Seq<char> {
    "missing field `"@ + name + "`"@
}

fn describe(json: &Json) -> (text: String)
    ensures
        text@ == unexpected(json@),
{
    match json {
        Json::Null => "null".to_owned(),
        Json::Bool(b) => if *b {
            "boolean `true`".to_owned()
        } else {
            "boolean `false`".to_owned()
        },
        Json::Integer(n) => joined("integer `", decimal(*n).as_str()).concat("`"),
        Json::Float(text) => joined("floating point `", text.as_str()).concat("`"),
        Json::Text(text) => joined("string ", quote(text.as_str()).as_str()),
        Json::Array(_) => "sequence".to_owned(),
        Json::Object(_) => "map".to_owned(),
    }
}

pub fn type_complaint(json: &Json, expected: &str) -> (text: String)
    ensures
        text@ == invalid_type(json@, expected@),
{
    joined("invalid type: ", describe(json).as_str()).concat(", expected ").concat(expected)
}

pub fn length_complaint(len: usize, expected: &str) -> (text: String)
    ensures
        text@ == invalid_length(len as int, expected@),
{
    joined("invalid length ", decimal(len as i128).as_str()).concat(", expected ").concat(expected)
}

pub fn missing_complaint(name: &str) -> (text: String)
    ensures
        text@ == missing_field(name@),
{
    joined("missing field `", name).concat("`")
}

/// What a list of readings gives: all that was read, or the first error.
pub open spec fn all_or_first<A>(readings: Seq<Result<A, Seq<char>>>) -> Result<Seq<A>, Seq<char>>
    decreases readings.len(),
{
    if readings.len() == 0 {
        Ok(Seq::empty())
    } else {
        match all_or_first(readings.drop_last()) {
            Err(error) => Err(error),
            Ok(before) => match readings.last() {
                Err(error) => Err(error),
                Ok(here) => Ok(before.push(here)),
            },
        }
    }
}

/// Where no reading of a list fails, the list gives all that was read.
pub proof fn lemma_all_read<A>(readings: Seq<Result<A, Seq<char>>>)
    requires
        forall|i: int| 0 <= i < readings.len() ==> (#[trigger] readings[i]) is Ok,
    ensures
        all_or_first(readings) is Ok,
        all_or_first(readings)->Ok_0 == Seq::new(readings.len(), |i: int| readings[i]->Ok_0),
    decreases readings.len(),
{
    let all = Seq::new(readings.len(), |i: int| readings[i]->Ok_0);
    if readings.len() > 0 {
        let before = readings.drop_last();
        lemma_all_read(before);
        assert(all_or_first(readings)->Ok_0 =~= all);
    } else {
        assert(all_or_first(readings)->Ok_0 =~= all);
    }
}

/// Where one reading of a list fails behind readings that do not, its error comes first.
pub proof fn lemma_first_error<A>(readings: Seq<Result<A, Seq<char>>>, at: int)
    requires
        0 <= at < readings.len(),
        all_or_first(readings.take(at)) is Ok,
        readings[at] is Err,
    ensures
        all_or_first(readings) == Err::<Seq<A>, Seq<char>>(readings[at]->Err_0),
    decreases readings.len(),
{
    if at == readings.len() - 1 {
        assert(readings.drop_last() =~= readings.take(at));
    } else {
        assert(readings.drop_last().take(at) =~= readings.take(at));
        lemma_first_error(readings.drop_last(), at);
    }
}

/// A string.
pub open spec fn string_from(tree: JsonView) -> Result<Seq<char>, Seq<char>> {
    match tree {
        JsonView::Text(text) => Ok(text),
        _ => Err(invalid_type(tree, "a string"@)),
    }
}

/// A list of strings.
pub open spec fn strings_from(tree: JsonView) -> Result<Seq<Seq<char>>, Seq<char>> {
    match tree {
        JsonView::Array(items) => all_or_first(items.map_values(|item: JsonView| string_from(item))),
        _ => Err(invalid_type(tree, "a sequence"@)),
    }
}

/// A string, or nothing where the value is null.
pub open spec fn optional_string_from(tree: JsonView) -> Result<Option<Seq<char>>, Seq<char>> {
    match tree {
        JsonView::Null => Ok(None),
        _ => match string_from(tree) {
            Ok(text) => Ok(Some(text)),
            Err(error) => Err(error),
        },
    }
}

/// A member whose value is a string, with its name.
pub open spec fn pair_from(member: (Seq<char>, JsonView)) -> Result<
    (Seq<char>, Seq<char>),
    Seq<char>,
> {
    match string_from(member.1) {
        Ok(text) => Ok((member.0, text)),
        Err(error) => Err(error),
    }
}

/// A map from strings to strings, or nothing where the value is null.
pub open spec fn string_map_from(tree: JsonView) -> Result<
    Option<Seq<(Seq<char>, Seq<char>)>>,
    Seq<char>,
> {
    match tree {
        JsonView::Null => Ok(None),
        JsonView::Object(members) => match all_or_first(
            members.map_values(|member: (Seq<char>, JsonView)| pair_from(member)),
        ) {
            Ok(pairs) => Ok(Some(pairs)),
            Err(error) => Err(error),
        },
        _ => Err(invalid_type(tree, "a map"@)),
    }
}

/// The texts of a list of strings.
pub open spec fn texts(strings: Seq<String>) -> Seq<Seq<char>> {
    Seq::new(strings.len(), |i: int| strings[i]@)
}

/// The texts of a list of pairs of strings.
pub open spec fn text_pairs(pairs: Seq<(String, String)>) -> Seq<(Seq<char>, Seq<char>)> {
    Seq::new(pairs.len(), |i: int| (pairs[i].0@, pairs[i].1@))
}

/// The texts of an optional list of pairs of strings.
pub open spec fn optional_text_pairs(pairs: Option<Vec<(String, String)>>) -> Option<
    Seq<(Seq<char>, Seq<char>)>,
> {
    match pairs {
        Some(pairs) => Some(text_pairs(pairs@)),
        None => None,
    }
}

/// Reads a string.
pub fn read_string(json: &Json) -> (result: Result<String, String>)
    ensures
        match result {
            Ok(text) => string_from(json@) == Ok::<Seq<char>, Seq<char>>(text@),
            Err(error) => string_from(json@) == Err::<Seq<char>, Seq<char>>(error@),
        },
{
    match json {
        Json::Text(text) => Ok(text.clone()),
        _ => Err(type_complaint(json, "a string")),
    }
}

/// Reads a string, or nothing where the value is null.
pub fn read_optional_string(json: &Json) -> (result: Result<Option<String>, String>)
    ensures
        match result {
            Ok(None) => optional_string_from(json@) == Ok::<Option<Seq<char>>, Seq<char>>(None),
            Ok(Some(text)) => optional_string_from(json@) == Ok::<Option<Seq<char>>, Seq<char>>(
                Some(text@),
            ),
            Err(error) => optional_string_from(json@) == Err::<Option<Seq<char>>, Seq<char>>(
                error@,
            ),
        },
{
    match json {
        Json::Null => Ok(None),
        _ => match read_string(json) {
            Ok(text) => Ok(Some(text)),
            Err(error) => Err(error),
        },
    }
}

/// Reads a list of strings.
pub fn read_strings(json: &Json) -> (result: Result<Vec<String>, String>)
    ensures
        match result {
            Ok(strings) => strings_from(json@) == Ok::<Seq<Seq<char>>, Seq<char>>(texts(strings@)),
            Err(error) => strings_from(json@) == Err::<Seq<Seq<char>>, Seq<char>>(error@),
        },
{
    match json {
        Json::Array(items) => {
            let ghost readings = json@->Array_0.map_values(|item: JsonView| string_from(item));
            let mut strings: Vec<String> = Vec::new();
            let mut i: usize = 0;
            proof {
                assert(readings.take(0) =~= Seq::empty());
                assert(texts(strings@) =~= Seq::empty());
            }
            while i < items.len()
                invariant
                    *json == Json::Array(*items),
                    json@ is Array,
                    readings == json@->Array_0.map_values(|item: JsonView| string_from(item)),
                    readings.len() == items@.len(),
                    i <= items@.len(),
                    all_or_first(readings.take(i as int)) == Ok::<Seq<Seq<char>>, Seq<char>>(
                        texts(strings@),
                    ),
                decreases items@.len() - i,
            {
                proof {
                    assert(readings[i as int] == string_from(items@[i as int]@));
                }
                match read_string(&items[i]) {
                    Ok(text) => {
                        let ghost before = texts(strings@);
                        strings.push(text);
                        proof {
                            assert(readings.take(i + 1).drop_last() =~= readings.take(i as int));
                            assert(texts(strings@) =~= before.push(text@));
                        }
                    },
                    Err(error) => {
                        proof {
                            lemma_first_error(readings, i as int);
                        }
                        return Err(error);
                    },
                }
                i += 1;
            }
            assert(readings.take(i as int) =~= readings);
            Ok(strings)
        },
        _ => Err(type_complaint(json, "a sequence")),
    }
}

/// Reads a map from strings to strings; null stands for none.
pub fn read_string_map(json: &Json) -> (result: Result<Option<Vec<(String, String)>>, String>)
    ensures
        match result {
            Ok(pairs) => string_map_from(json@) == Ok::<
                Option<Seq<(Seq<char>, Seq<char>)>>,
                Seq<char>,
            >(optional_text_pairs(pairs)),
            Err(error) => string_map_from(json@) == Err::<
                Option<Seq<(Seq<char>, Seq<char>)>>,
                Seq<char>,
            >(error@),
        },
{
    match json {
        Json::Null => Ok(None),
        Json::Object(members) => {
            let ghost readings = json@->Object_0.map_values(
                |member: (Seq<char>, JsonView)| pair_from(member),
            );
            let mut pairs: Vec<(String, String)> = Vec::new();
            let mut i: usize = 0;
            proof {
                assert(readings.take(0) =~= Seq::empty());
                assert(text_pairs(pairs@) =~= Seq::empty());
            }
            while i < members.len()
                invariant
                    *json == Json::Object(*members),
                    json@ is Object,
                    readings == json@->Object_0.map_values(
                        |member: (Seq<char>, JsonView)| pair_from(member),
                    ),
                    readings.len() == members@.len(),
                    i <= members@.len(),
                    all_or_first(readings.take(i as int)) == Ok::<
                        Seq<(Seq<char>, Seq<char>)>,
                        Seq<char>,
                    >(text_pairs(pairs@)),
                decreases members@.len() - i,
            {
                proof {
                    assert(readings[i as int] == pair_from(
                        (members@[i as int].0@, members@[i as int].1@),
                    ));
                }
                match read_string(&members[i].1) {
                    Ok(text) => {
                        let ghost before = text_pairs(pairs@);
                        pairs.push((members[i].0.clone(), text));
                        proof {
                            assert(readings.take(i + 1).drop_last() =~= readings.take(i as int));
                            assert(text_pairs(pairs@) =~= before.push(
                                (members@[i as int].0@, text@),
                            ));
                        }
                    },
                    Err(error) => {
                        proof {
                            lemma_first_error(readings, i as int);
                        }
                        return Err(error);
                    },
                }
                i += 1;
            }
            assert(readings.take(i as int) =~= readings);
            Ok(Some(pairs))
        },
        _ => Err(type_complaint(json, "a map")),
    }
}

/// A type that is read out of a JSON value.
pub trait FromJson: Sized + View {
    /// What a value is read as, or the complaint about it.
    spec fn from_tree(tree: JsonView) -> Result<Self::V, Seq<char>>;

    /// Reads a value.
    fn read_json(json: &Json) -> (result: Result<Self, String>)
        ensures
            match result {
                Ok(read) => Self::from_tree(json@) == Ok::<Self::V, Seq<char>>(read@),
                Err(error) => Self::from_tree(json@) == Err::<Self::V, Seq<char>>(error@),
            },
    ;
}

/// A record: a type that is written as an object, or as an array of its fields in order.
pub trait Record: Sized {
    /// The check of one member: whether it is a field of the record whose value does not
    /// fit. A member that is no field of the record passes.
    spec fn field_check(member: (Seq<char>, JsonView)) -> Result<(), Seq<char>>;

    /// Checks one member.
    fn check_field(name: &str, value: &Json) -> (result: Result<(), String>)
        ensures
            match result {
                Ok(_) => Self::field_check((name@, value@)) is Ok,
                Err(error) => Self::field_check((name@, value@)) == Err::<(), Seq<char>>(error@),
            },
    ;
}

/// The check of all members of an object, in order: it fails as the first member that fails.
pub open spec fn fields_check<R: Record>(members: Seq<(Seq<char>, JsonView)>) -> Result<
    Seq<()>,
    Seq<char>,
> {
    all_or_first(members.map_values(|member: (Seq<char>, JsonView)| R::field_check(member)))
}

/// Checks all members of an object.
pub fn check_fields<R: Record>(json: &Json) -> (result: Result<(), String>)
    requires
        json@ is Object,
    ensures
        match result {
            Ok(_) => fields_check::<R>(json@->Object_0) is Ok,
            Err(error) => fields_check::<R>(json@->Object_0) == Err::<Seq<()>, Seq<char>>(error@),
        },
{
    match json {
        Json::Object(members) => {
            let ghost readings = json@->Object_0.map_values(
                |member: (Seq<char>, JsonView)| R::field_check(member),
            );
            let mut i: usize = 0;
            proof {
                assert(readings.take(0) =~= Seq::empty());
            }
            while i < members.len()
                invariant
                    *json == Json::Object(*members),
                    json@ is Object,
                    readings == json@->Object_0.map_values(
                        |member: (Seq<char>, JsonView)| R::field_check(member),
                    ),
                    readings.len() == members@.len(),
                    i <= members@.len(),
                    all_or_first(readings.take(i as int)) is Ok,
                decreases members@.len() - i,
            {
                proof {
                    assert(readings[i as int] == R::field_check(
                        (members@[i as int].0@, members@[i as int].1@),
                    ));
                    assert(readings.take(i + 1).drop_last() =~= readings.take(i as int));
                }
                match R::check_field(members[i].0.as_str(), &members[i].1) {
                    Ok(_) => {},
                    Err(error) => {
                        proof {
                            lemma_first_error(readings, i as int);
                        }
                        return Err(error);
                    },
                }
                i += 1;
            }
            assert(readings.take(i as int) =~= readings);
            Ok(())
        },
        _ => Ok(()),
    }
}

/// Where all members of an object pass, each of them passes.
pub proof fn lemma_named_passes<R: Record>(members: Seq<(Seq<char>, JsonView)>, name: Seq<char>)
    requires
        fields_check::<R>(members) is Ok,
        named(members, name) is Some,
    ensures
        R::field_check((name, named(members, name)->0)) is Ok,
    decreases members.len(),
{
    let readings = members.map_values(|member: (Seq<char>, JsonView)| R::field_check(member));
    let at = lemma_named_is_somewhere(members, name);
    if readings[at] is Err {
        lemma_ok_before(readings, at);
        lemma_first_error(readings, at);
    }
}

/// The place of a named member.
proof fn lemma_named_is_somewhere(members: Seq<(Seq<char>, JsonView)>, name: Seq<char>) -> (at: int)
    requires
        named(members, name) is Some,
    ensures
        0 <= at < members.len(),
        members[at] == (name, named(members, name)->0),
    decreases members.len(),
{
    if members[0].0 == name {
        0
    } else {
        1 + lemma_named_is_somewhere(members.drop_first(), name)
    }
}

/// Where a list of readings gives all that was read, so does every list that it starts with.
proof fn lemma_ok_before<A>(readings: Seq<Result<A, Seq<char>>>, at: int)
    requires
        0 <= at <= readings.len(),
        all_or_first(readings) is Ok,
    ensures
        all_or_first(readings.take(at)) is Ok,
    decreases readings.len(),
{
    if at == readings.len() {
        assert(readings.take(at) =~= readings);
    } else {
        assert(readings.drop_last().take(at) =~= readings.take(at));
        lemma_ok_before(readings.drop_last(), at);
    }
}

/// What the parameters of a message are read as, or the complaint about them.
pub open spec fn params_from<T: FromJson>(message: JsonView) -> Result<T::V, Seq<char>> {
    match member(message, "params"@) {
        None => Err("missing params"@),
        Some(params) => match T::from_tree(params) {
            Ok(read) => Ok(read),
            Err(error) => Err("invalid params: "@ + error),
        },
    }
}

/// Reads the parameters of a message.
pub fn parse_params<T: FromJson>(message: &Json) -> (result: Result<T, String>)
    ensures
        match result {
            Ok(read) => params_from::<T>(message@) == Ok::<T::V, Seq<char>>(read@),
            Err(error) => params_from::<T>(message@) == Err::<T::V, Seq<char>>(error@),
        },
{
    match message.get("params") {
        None => Err("missing params".to_owned()),
        Some(params) => match T::read_json(params) {
            Ok(read) => Ok(read),
            Err(error) => Err(joined("invalid params: ", error.as_str())),
        },
    }
}

} // verus!
