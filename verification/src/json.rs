//! JSON values: the library's own tree, and its exchange with `serde_json`.

use crate::text::trimmed;
use serde_json::Value;
use vstd::pervasive::unreached;
use vstd::prelude::*;

verus! {

/// A JSON value as the protocol reads it.
///
/// An object keeps its members in the order in which the document gives them.
pub enum JsonView {
    Null,
    Bool(bool),
    Integer(int),
    Float(Seq<char>),
    Text(Seq<char>),
    Array(Seq<JsonView>),
    Object(Seq<(Seq<char>, JsonView)>),
}

/// A JSON value.
///
/// `Integer` holds every number that is written without a fraction or an exponent and fits
/// 64 bits, signed or unsigned; `Float` holds any other number, by its text.
#[derive(Debug)]
pub enum Json {
    Null,
    Bool(bool),
    Integer(i128),
    Float(String),
    Text(String),
    Array(Vec<Json>),
    Object(Vec<(String, Json)>),
}

impl Json {
    /// The value that this tree stands for.
    pub open spec fn tree(self) -> JsonView
        decreases self,
    {
        match self {
            Json::Null => JsonView::Null,
            Json::Bool(b) => JsonView::Bool(b),
            Json::Integer(n) => JsonView::Integer(n as int),
            Json::Float(text) => JsonView::Float(text@),
            Json::Text(text) => JsonView::Text(text@),
            Json::Array(items) => JsonView::Array(
                Seq::new(
                    items@.len(),
                    |i: int|
                        if 0 <= i < items@.len() {
                            items@[i].tree()
                        } else {
                            JsonView::Null
                        },
                ),
            ),
            Json::Object(members) => JsonView::Object(
                Seq::new(
                    members@.len(),
                    |i: int|
                        if 0 <= i < members@.len() {
                            (members@[i].0@, members@[i].1.tree())
                        } else {
                            (Seq::<char>::empty(), JsonView::Null)
                        },
                ),
            ),
        }
    }
}

impl View for Json {
    type V = JsonView;

    open spec fn view(&self) -> JsonView {
        self.tree()
    }
}

/// The values of a list.
pub open spec fn items_view(items: Seq<Json>) -> Seq<JsonView> {
    Seq::new(items.len(), |i: int| items[i]@)
}

/// The names and values of a list of members.
pub open spec fn members_view(members: Seq<(String, Json)>) -> Seq<(Seq<char>, JsonView)> {
    Seq::new(members.len(), |i: int| (members[i].0@, members[i].1@))
}

/// Makes an array.
pub fn array(items: Vec<Json>) -> (json: Json)
    ensures
        json@ == JsonView::Array(items_view(items@)),
{
    let ghost held_items = items@;
    let json = Json::Array(items);
    assert(json@->Array_0 =~= items_view(held_items));
    json
}

/// Makes an object.
pub fn object(members: Vec<(String, Json)>) -> (json: Json)
    ensures
        json@ == JsonView::Object(members_view(members@)),
{
    let ghost held_members = members@;
    let json = Json::Object(members);
    assert(json@->Object_0 =~= members_view(held_members));
    json
}

/// No two members have one name.
pub open spec fn names_differ(members: Seq<(Seq<char>, JsonView)>) -> bool {
    forall|i: int, j: int|
        #![trigger members[i], members[j]]
        0 <= i < j < members.len() ==> members[i].0 != members[j].0
}

/// A value that is written and read back without loss: its integers fit 64 bits signed, it
/// holds no other number, and no object in it names a member twice.
pub open spec fn exact(tree: JsonView) -> bool
    decreases tree,
{
    match tree {
        JsonView::Integer(n) => i64::MIN <= n <= i64::MAX,
        JsonView::Float(_) => false,
        JsonView::Array(items) => forall|i: int| 0 <= i < items.len() ==> exact(#[trigger] items[i]),
        JsonView::Object(members) => {
            &&& names_differ(members)
            &&& forall|i: int| 0 <= i < members.len() ==> exact((#[trigger] members[i]).1)
        },
        _ => true,
    }
}

/// A value in which arrays and objects lie at most `depth` deep.
pub open spec fn nested_within(tree: JsonView, depth: nat) -> bool
    decreases tree,
{
    match tree {
        JsonView::Array(items) => depth > 0 && forall|i: int|
            0 <= i < items.len() ==> nested_within(#[trigger] items[i], (depth - 1) as nat),
        JsonView::Object(members) => depth > 0 && forall|i: int|
            0 <= i < members.len() ==> nested_within(
                (#[trigger] members[i]).1,
                (depth - 1) as nat,
            ),
        _ => true,
    }
}

/// `serde_json::Value`, whose inside stays hidden.
#[verifier::external_type_specification]
#[verifier::external_body]
pub struct ExValue(serde_json::Value);

/// What a `serde_json::Value` holds.
pub uninterp spec fn held(value: serde_json::Value) -> JsonView;

/// What `serde_json::from_str` reads in a text: a value, or the text of its error.
pub uninterp spec fn parsed(text: Seq<char>) -> Result<JsonView, Seq<char>>;

/// The outcome of a reading that gives a value.
pub open spec fn reading(tree: JsonView) -> Result<JsonView, Seq<char>> {
    Ok(tree)
}

/// The outcome of a reading that fails.
pub open spec fn misreading(error: Seq<char>) -> Result<JsonView, Seq<char>> {
    Err(error)
}

/// The text that `serde_json::to_string` writes for a value.
pub uninterp spec fn written(tree: JsonView) -> Seq<char>;

/// One level of a `serde_json::Value`.
enum Node {
    Null,
    Bool(bool),
    Number(Option<i128>, String),
    Text(String),
    Array(Vec<Value>),
    Object(Vec<(String, Value)>),
}

/// The values that a list of `serde_json` values holds.
spec fn held_items(items: Seq<Value>) -> Seq<JsonView> {
    Seq::new(items.len(), |i: int| held(items[i]))
}

/// The members that a list of named `serde_json` values holds.
spec fn held_members(members: Seq<(String, Value)>) -> Seq<(Seq<char>, JsonView)> {
    Seq::new(members.len(), |i: int| (members[i].0@, held(members[i].1)))
}

/// The value of which a node is the topmost level.
spec fn node_view(node: Node) -> JsonView {
    match node {
        Node::Null => JsonView::Null,
        Node::Bool(b) => JsonView::Bool(b),
        Node::Number(Some(n), _) => JsonView::Integer(n as int),
        Node::Number(None, text) => JsonView::Float(text@),
        Node::Text(text) => JsonView::Text(text@),
        Node::Array(items) => JsonView::Array(held_items(items@)),
        Node::Object(members) => JsonView::Object(held_members(members@)),
    }
}

/// A node shows what it holds, whole: numbers and texts as they are, and every item and member with
/// the value it holds, in order.
proof fn law_node_is_shown(node: Node)
    ensures
        match node {
            Node::Null => node_view(node) == JsonView::Null,
            Node::Bool(b) => node_view(node) == JsonView::Bool(b),
            Node::Number(Some(n), _) => node_view(node) == JsonView::Integer(n as int),
            Node::Number(None, text) => node_view(node) == JsonView::Float(text@),
            Node::Text(text) => node_view(node) == JsonView::Text(text@),
            Node::Array(items) => {
                &&& node_view(node) is Array
                &&& node_view(node)->Array_0.len() == items@.len()
                &&& forall|i: int|
                    0 <= i < items@.len() ==> (#[trigger] node_view(node)->Array_0[i]) == held(
                        items@[i],
                    )
            },
            Node::Object(members) => {
                &&& node_view(node) is Object
                &&& node_view(node)->Object_0.len() == members@.len()
                &&& forall|i: int|
                    0 <= i < members@.len() ==> (#[trigger] node_view(node)->Object_0[i]) == (
                        members@[i].0@,
                        held(members@[i].1),
                    )
            },
        },
{
}

/// Lists of values and of members show each of them, in order.
pub proof fn law_lists_are_shown(items: Seq<Json>, members: Seq<(String, Json)>)
    ensures
        items_view(items).len() == items.len(),
        forall|i: int| 0 <= i < items.len() ==> (#[trigger] items_view(items)[i]) == items[i]@,
        members_view(members).len() == members.len(),
        forall|i: int|
            0 <= i < members.len() ==> (#[trigger] members_view(members)[i]) == (
                members[i].0@,
                members[i].1@,
            ),
{
}

/// The outcome of a reading is the value, or the text of the error.
pub proof fn law_reading_is_its_value(tree: JsonView, error: Seq<char>)
    ensures
        reading(tree) == Ok::<JsonView, Seq<char>>(tree),
        misreading(error) == Err::<JsonView, Seq<char>>(error),
{
}

/// Reads a JSON text with `serde_json::from_str`.
///
/// Trusted: the value it gives, or the text of its error, depends on the text alone.
#[verifier::external_body]
fn read_value(text: &str) -> (result: Result<Value, String>)
    ensures
        match result {
            Ok(value) => parsed(text@) == reading(held(value)),
            Err(error) => parsed(text@) == misreading(error@),
        },
{
    serde_json::from_str::<Value>(text).map_err(|error| error.to_string())
}

/// Opens the topmost level of a `serde_json::Value`.
///
/// Trusted: the six variants of the type are told apart. A number is given by
/// `Number::as_i128`, which has a result for integers and for no other number, and by its text.
/// The members of an object come in their own order.
#[verifier::external_body]
fn open_value(value: Value) -> (node: Node)
    ensures
        node_view(node) == held(value),
{
    match value {
        Value::Null => Node::Null,
        Value::Bool(b) => Node::Bool(b),
        Value::Number(n) => Node::Number(n.as_i128(), n.to_string()),
        Value::String(text) => Node::Text(text),
        Value::Array(items) => Node::Array(items),
        Value::Object(members) => Node::Object(members.into_iter().collect()),
    }
}

/// Makes a `serde_json::Value` from its topmost level.
///
/// Trusted: the value holds what the node gives. `serde_json::Map` keeps members in the order
/// in which they are put in; one that is named twice would be kept once, and is ruled out.
#[verifier::external_body]
fn close_value(node: Node) -> (value: Value)
    requires
        node matches Node::Number(n, _) ==> n matches Some(n) && i64::MIN <= n <= i64::MAX,
        node matches Node::Object(members) ==> names_differ(held_members(members@)),
    ensures
        held(value) == node_view(node),
{
    match node {
        Node::Null => Value::Null,
        Node::Bool(b) => Value::Bool(b),
        Node::Number(n, _) => n.and_then(serde_json::Number::from_i128).map_or(Value::Null, Value::Number),
        Node::Text(text) => Value::String(text),
        Node::Array(items) => Value::Array(items),
        Node::Object(members) => Value::Object(members.into_iter().collect()),
    }
}

/// Writes a JSON text with `serde_json::to_string`.
///
/// Trusted: writing a `serde_json::Value` to a string always succeeds, and the text depends on
/// what the value holds alone. The compact text is never empty, and it starts and ends with a
/// quote, a bracket, a letter, a digit or a sign, so that no white space stands around it. It has
/// no line break in it, since control characters are escaped. Read again it gives the value, where that holds integers only and
/// is nested no deeper than the reader goes.
#[verifier::external_body]
fn write_value(value: &Value) -> (result: Result<String, String>)
    ensures
        result is Ok,
        result->Ok_0@ == written(held(*value)),
        result->Ok_0@.len() > 0,
        trimmed(result->Ok_0@) == result->Ok_0@,
        !result->Ok_0@.contains('\n'),
        exact(held(*value)) && nested_within(held(*value), 127) ==> parsed(result->Ok_0@) == reading(
            held(*value),
        ),
{
    serde_json::to_string(value).map_err(|error| error.to_string())
}

/// Takes a `serde_json::Value` over into the library's own tree.
fn json_of(value: Value) -> (json: Json)
    ensures
        json@ == held(value),
    decreases held(value),
{
    match open_value(value) {
        Node::Null => Json::Null,
        Node::Bool(b) => Json::Bool(b),
        Node::Number(Some(n), _) => Json::Integer(n),
        Node::Number(None, text) => Json::Float(text),
        Node::Text(text) => Json::Text(text),
        Node::Array(items) => {
            let ghost sources = items@;
            let ghost tree = held(value);
            let mut taken: Vec<Json> = Vec::new();
            for item in iter: items
                invariant
                    iter.seq() == sources,
                    tree == held(value),
                    tree == JsonView::Array(held_items(sources)),
                    taken@.len() == iter.index(),
                    forall|j: int| 0 <= j < taken@.len() ==> (#[trigger] taken@[j])@ == held(sources[j]),
            {
                proof {
                    let here = tree->Array_0[iter.index() as int];
                    assert(here == held(item));
                    assert(decreases_to!(tree => tree->Array_0));
                    assert(decreases_to!(tree->Array_0 => here));
                }
                taken.push(json_of(item));
            }
            assert(items_view(taken@) =~= held_items(sources));
            array(taken)
        },
        Node::Object(members) => {
            let ghost sources = members@;
            let ghost tree = held(value);
            let mut taken: Vec<(String, Json)> = Vec::new();
            for member in iter: members
                invariant
                    iter.seq() == sources,
                    tree == held(value),
                    tree == JsonView::Object(held_members(sources)),
                    taken@.len() == iter.index(),
                    forall|j: int|
                        0 <= j < taken@.len() ==> (#[trigger] taken@[j]).0@ == sources[j].0@
                            && taken@[j].1@ == held(sources[j].1),
            {
                proof {
                    let here = tree->Object_0[iter.index() as int];
                    assert(here.1 == held(member.1));
                    assert(decreases_to!(tree => tree->Object_0));
                    assert(decreases_to!(tree->Object_0 => here));
                    assert(decreases_to!(here => here.1));
                }
                taken.push((member.0, json_of(member.1)));
            }
            assert(members_view(taken@) =~= held_members(sources));
            object(taken)
        },
    }
}

/// Reads a JSON text.
pub fn parse_json(text: &str) -> (result: Result<Json, String>)
    ensures
        match result {
            Ok(json) => parsed(text@) == reading(json@),
            Err(error) => parsed(text@) == misreading(error@),
        },
{
    match read_value(text) {
        Ok(value) => Ok(json_of(value)),
        Err(error) => Err(error),
    }
}

/// Hands the library's own tree over to `serde_json`.
fn value_of(json: &Json) -> (value: Value)
    requires
        exact(json@),
    ensures
        held(value) == json@,
    decreases json,
{
    match json {
        Json::Null => close_value(Node::Null),
        Json::Bool(b) => close_value(Node::Bool(*b)),
        Json::Integer(n) => close_value(Node::Number(Some(*n), String::new())),
        Json::Float(_) => unreached(),
        Json::Text(text) => close_value(Node::Text(text.clone())),
        Json::Array(items) => {
            let mut taken: Vec<Value> = Vec::new();
            let mut i: usize = 0;
            while i < items.len()
                invariant
                    *json == Json::Array(*items),
                    exact(json@),
                    i <= items@.len(),
                    taken@.len() == i,
                    forall|j: int| 0 <= j < i ==> held(#[trigger] taken@[j]) == items@[j]@,
                decreases items@.len() - i,
            {
                proof {
                    assert(json@->Array_0[i as int] == items@[i as int]@);
                }
                taken.push(value_of(&items[i]));
                i += 1;
            }
            assert(held_items(taken@) =~= json@->Array_0);
            close_value(Node::Array(taken))
        },
        Json::Object(members) => {
            let mut taken: Vec<(String, Value)> = Vec::new();
            let mut i: usize = 0;
            while i < members.len()
                invariant
                    *json == Json::Object(*members),
                    exact(json@),
                    i <= members@.len(),
                    taken@.len() == i,
                    forall|j: int|
                        0 <= j < i ==> (#[trigger] taken@[j]).0@ == members@[j].0@ && held(taken@[j].1)
                            == members@[j].1@,
                decreases members@.len() - i,
            {
                proof {
                    assert(json@->Object_0[i as int] == (members@[i as int].0@, members@[i as int].1@));
                }
                taken.push((members[i].0.clone(), value_of(&members[i].1)));
                i += 1;
            }
            assert(held_members(taken@) =~= json@->Object_0);
            close_value(Node::Object(taken))
        },
    }
}

/// Writes a JSON text.
pub fn json_text(json: &Json) -> (text: String)
    requires
        exact(json@),
    ensures
        text@ == written(json@),
        text@.len() > 0,
        trimmed(text@) == text@,
        !text@.contains('\n'),
        nested_within(json@, 127) ==> parsed(text@) == reading(json@),
{
    match write_value(&value_of(json)) {
        Ok(text) => text,
        Err(_) => unreached(),
    }
}

} // verus!
