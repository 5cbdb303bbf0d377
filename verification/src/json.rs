//! JSON documents as plain values, read with `serde_json`.

use serde_json::Value;
use vstd::prelude::*;

verus! {

/// A JSON document. A number is kept as the text it is written with; the members of an object
/// stand in the order in which they are walked.
#[derive(Debug)]
pub enum Json {
    Null,
    Bool(bool),
    Number(String),
    Text(String),
    Array(Vec<Json>),
    Object(Vec<(String, Json)>),
}

/// What a [`Json`] document says, strings taken as sequences of characters.
#[verifier::ext_equal]
pub enum JsonTree {
    Null,
    Bool(bool),
    Number(Seq<char>),
    Text(Seq<char>),
    Array(Seq<JsonTree>),
    Object(Seq<(Seq<char>, JsonTree)>),
}

/// The trees of the items, in order.
pub open spec fn item_trees(items: Seq<Json>) -> Seq<JsonTree>
    decreases items,
{
    Seq::new(
        items.len(),
        |i: int|
            if 0 <= i < items.len() {
                items[i].tree()
            } else {
                JsonTree::Null
            },
    )
}

/// The names and trees of the members, in order.
pub open spec fn member_trees(members: Seq<(String, Json)>) -> Seq<(Seq<char>, JsonTree)>
    decreases members,
{
    Seq::new(
        members.len(),
        |i: int|
            if 0 <= i < members.len() {
                (members[i].0@, members[i].1.tree())
            } else {
                (Seq::empty(), JsonTree::Null)
            },
    )
}

impl Json {
    /// What the document says.
    pub open spec fn tree(self) -> JsonTree
        decreases self,
    {
        match self {
            Json::Null => JsonTree::Null,
            Json::Bool(b) => JsonTree::Bool(b),
            Json::Number(n) => JsonTree::Number(n@),
            Json::Text(s) => JsonTree::Text(s@),
            Json::Array(items) => JsonTree::Array(item_trees(items@)),
            Json::Object(members) => JsonTree::Object(member_trees(members@)),
        }
    }
}

/// `serde_json::Value`, a parsed document. Verus sees nothing inside it.
#[verifier::external_type_specification]
#[verifier::external_body]
pub struct ExValue(serde_json::Value);

/// `serde_json::Error`, why a document could not be parsed.
#[verifier::external_type_specification]
#[verifier::external_body]
pub struct ExJsonError(serde_json::Error);

/// What a `serde_json::Value` holds.
pub uninterp spec fn value_tree(value: Value) -> JsonTree;

/// What `serde_json` reads in a text: the document, or `None` where the text is none.
pub uninterp spec fn parsed_json(text: Seq<char>) -> Option<JsonTree>;

/// Calls `serde_json::from_str`. The contract says that whether it succeeds, and what the value
/// then holds, depend on the text alone, and gives the two a name.
#[verifier::external_body]
fn parse_value(text: &str) -> (r: Result<Value, serde_json::Error>)
    ensures
        match r {
            Ok(value) => parsed_json(text@) == Some(value_tree(value)),
            Err(_) => parsed_json(text@) is None,
        },
{
    serde_json::from_str::<Value>(text)
}

/// One level of a `serde_json::Value`.
enum Node<'a> {
    Null,
    Bool(bool),
    Number(String),
    Text(&'a String),
    Array(&'a Vec<Value>),
    Object(Vec<(&'a String, &'a Value)>),
}

impl<'a> Node<'a> {
    spec fn tree(self) -> JsonTree {
        match self {
            Node::Null => JsonTree::Null,
            Node::Bool(b) => JsonTree::Bool(b),
            Node::Number(n) => JsonTree::Number(n@),
            Node::Text(s) => JsonTree::Text(s@),
            Node::Array(items) => JsonTree::Array(
                items@.map_values(|item: Value| value_tree(item)),
            ),
            Node::Object(members) => JsonTree::Object(
                members@.map_values(|m: (&String, &Value)| (m.0@, value_tree(*m.1))),
            ),
        }
    }
}

/// Reads the variant of a `serde_json::Value`: an array's items in order, an object's members as
/// `serde_json::Map::iter` walks them, a number as its `Display` writes it. The contract says that
/// the level read, with the values below it, is what the value holds.
#[verifier::external_body]
fn value_node(value: &Value) -> (node: Node<'_>)
    ensures
        node.tree() == value_tree(*value),
{
    match value {
        Value::Null => Node::Null,
        Value::Bool(b) => Node::Bool(*b),
        Value::Number(n) => Node::Number(n.to_string()),
        Value::String(s) => Node::Text(s),
        Value::Array(items) => Node::Array(items),
        Value::Object(map) => Node::Object(map.iter().collect()),
    }
}

/// The document that a `serde_json::Value` holds.
pub fn json_from_value(value: &Value) -> (r: Json)
    ensures
        r.tree() == value_tree(*value),
    decreases value_tree(*value),
{
    match value_node(value) {
        Node::Null => Json::Null,
        Node::Bool(b) => Json::Bool(b),
        Node::Number(n) => Json::Number(n),
        Node::Text(s) => Json::Text(s.clone()),
        Node::Array(items) => {
            let mut out: Vec<Json> = Vec::new();
            let mut i: usize = 0;
            let ghost children = value_tree(*value)->Array_0;
            while i < items.len()
                invariant
                    i <= items.len(),
                    out.len() == i,
                    value_tree(*value) == JsonTree::Array(children),
                    children == items@.map_values(|item: Value| value_tree(item)),
                    forall|j: int| 0 <= j < i ==> (#[trigger] out@[j]).tree() == children[j],
                decreases items.len() - i,
            {
                assert(children[i as int] == value_tree(items@[i as int]));
                assert(decreases_to!(value_tree(*value) => children[i as int])) by {
                    assert(decreases_to!(value_tree(*value) => value_tree(*value)->Array_0));
                    assert(decreases_to!(children => children[i as int]));
                }
                out.push(json_from_value(&items[i]));
                i += 1;
            }
            assert(item_trees(out@) =~= children);
            Json::Array(out)
        },
        Node::Object(members) => {
            let mut out: Vec<(String, Json)> = Vec::new();
            let mut i: usize = 0;
            let ghost children = value_tree(*value)->Object_0;
            while i < members.len()
                invariant
                    i <= members.len(),
                    out.len() == i,
                    value_tree(*value) == JsonTree::Object(children),
                    children == members@.map_values(
                        |m: (&String, &Value)| (m.0@, value_tree(*m.1)),
                    ),
                    forall|j: int|
                        0 <= j < i ==> ((#[trigger] out@[j]).0@, out@[j].1.tree()) == children[j],
                decreases members.len() - i,
            {
                assert(children[i as int] == (
                    members@[i as int].0@,
                    value_tree(*members@[i as int].1),
                ));
                assert(decreases_to!(value_tree(*value) => children[i as int].1)) by {
                    assert(decreases_to!(value_tree(*value) => value_tree(*value)->Object_0));
                    assert(decreases_to!(children => children[i as int]));
                    assert(decreases_to!(children[i as int] => children[i as int].1));
                }
                let name = members[i].0.clone();
                let member = json_from_value(members[i].1);
                out.push((name, member));
                i += 1;
            }
            assert(member_trees(out@) =~= children);
            Json::Object(out)
        },
    }
}

/// Reads a JSON document; `None` where `text` is none.
pub fn parse_json(text: &str) -> (r: Option<Json>)
    ensures
        match r {
            Some(json) => parsed_json(text@) == Some(json.tree()),
            None => parsed_json(text@) is None,
        },
{
    match parse_value(text) {
        Ok(value) => Some(json_from_value(&value)),
        Err(_) => None,
    }
}

/// A document says what its parts say: scalars as they are, the items of an array in order, and the
/// members of an object in order under their names.
pub proof fn document_says_what_its_parts_say(
    flag: bool,
    text: String,
    items: Vec<Json>,
    members: Vec<(String, Json)>,
    i: int,
)
    ensures
        Json::Null.tree() == JsonTree::Null,
        Json::Bool(flag).tree() == JsonTree::Bool(flag),
        Json::Number(text).tree() == JsonTree::Number(text@),
        Json::Text(text).tree() == JsonTree::Text(text@),
        ({
            &&& Json::Array(items).tree() matches JsonTree::Array(trees)
            &&& trees.len() == items.len()
            &&& 0 <= i < items.len() ==> trees[i] == items@[i].tree()
        }),
        ({
            &&& Json::Object(members).tree() matches JsonTree::Object(trees)
            &&& trees.len() == members.len()
            &&& 0 <= i < members.len() ==> trees[i].0 == members@[i].0@ && trees[i].1
                == members@[i].1.tree()
        }),
{
}

} // verus!
