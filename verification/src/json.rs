//! JSON documents as trees, read from text by `serde_json`.

use vstd::prelude::*;

verus! {

/// The mathematical model of a JSON document.
pub enum JsonTree {
    Null,
    Bool(bool),
    Number,
    Text(Seq<char>),
    Array(Seq<JsonTree>),
    Object(Seq<TreeMember>),
}

/// The model of one entry of a JSON object.
pub struct TreeMember {
    pub name: Seq<char>,
    pub value: JsonTree,
}

/// A JSON document. Numbers keep no value: nothing here reads one.
#[derive(Debug, PartialEq, Eq)]
pub enum Json {
    Null,
    Bool(bool),
    Number,
    Text(String),
    Array(Vec<Json>),
    Object(Vec<Member>),
}

/// One entry of a JSON object.
#[derive(Debug, PartialEq, Eq)]
pub struct Member {
    pub name: String,
    pub value: Json,
}

impl View for Json {
    type V = JsonTree;

    open spec fn view(&self) -> JsonTree
        decreases self,
    {
        match self {
            Json::Null => JsonTree::Null,
            Json::Bool(b) => JsonTree::Bool(*b),
            Json::Number => JsonTree::Number,
            Json::Text(text) => JsonTree::Text(text@),
            Json::Array(items) => JsonTree::Array(
                Seq::new(
                    items@.len(),
                    |i: int|
                        if 0 <= i < items@.len() {
                            items@[i].view()
                        } else {
                            JsonTree::Null
                        },
                ),
            ),
            Json::Object(members) => JsonTree::Object(
                Seq::new(
                    members@.len(),
                    |i: int|
                        if 0 <= i < members@.len() {
                            TreeMember { name: members@[i].name@, value: members@[i].value.view() }
                        } else {
                            TreeMember { name: Seq::empty(), value: JsonTree::Null }
                        },
                ),
            ),
        }
    }
}

impl JsonTree {
    /// The value of the first member called `name`, where this is an object
    /// that has such a member.
    pub open spec fn member(self, name: Seq<char>) -> Option<JsonTree> {
        match self {
            JsonTree::Object(members) => first_named(members, name),
            _ => None,
        }
    }

    /// The text under `name`, where this is an object whose member `name` is
    /// a JSON string.
    pub open spec fn text_member(self, name: Seq<char>) -> Option<Seq<char>> {
        match self.member(name) {
            Some(JsonTree::Text(text)) => Some(text),
            _ => None,
        }
    }

    /// The items under `name`, where this is an object whose member `name` is
    /// a JSON array.
    pub open spec fn array_member(self, name: Seq<char>) -> Option<Seq<JsonTree>> {
        match self.member(name) {
            Some(JsonTree::Array(items)) => Some(items),
            _ => None,
        }
    }
}

/// The value of the first of `members` that is called `name`.
pub open spec fn first_named(members: Seq<TreeMember>, name: Seq<char>) -> Option<JsonTree>
    decreases members.len(),
{
    if members.len() == 0 {
        None
    } else if members[0].name == name {
        Some(members[0].value)
    } else {
        first_named(members.drop_first(), name)
    }
}

/// The texts that `items` hold under `name`, in order, where every item is an
/// object whose member `name` is a JSON string.
pub open spec fn texts_named(items: Seq<JsonTree>, name: Seq<char>) -> Option<Seq<Seq<char>>> {
    if forall|i: int| 0 <= i < items.len() ==> (#[trigger] items[i]).text_member(name) is Some {
        Some(Seq::new(items.len(), |i: int| items[i].text_member(name).unwrap()))
    } else {
        None
    }
}

/// The models of `items`, in order.
pub open spec fn trees(items: Seq<Json>) -> Seq<JsonTree> {
    Seq::new(items.len(), |i: int| items[i]@)
}

#[verifier::external_type_specification]
#[verifier::external_body]
pub struct ExValue(serde_json::Value);

#[verifier::external_type_specification]
#[verifier::external_body]
pub struct ExError(serde_json::Error);

/// The document that `serde_json::from_str` reads from `text`, and `None`
/// where it rejects `text`.
pub uninterp spec fn json_text(text: Seq<char>) -> Option<JsonTree>;

/// Whether `text` is a JSON document.
pub open spec fn is_json(text: Seq<char>) -> bool {
    json_text(text) is Some
}

/// The document that a `serde_json::Value` holds.
pub uninterp spec fn value_tree(value: serde_json::Value) -> JsonTree;

/// `serde_json::from_str`, asked for a `serde_json::Value`. The outcome
/// depends on `text` alone: the parser is deterministic and keeps no state.
#[verifier::external_body]
fn parse_value(text: &str) -> (parsed: Result<serde_json::Value, serde_json::Error>)
    ensures
        match parsed {
            Ok(value) => json_text(text@) == Some(value_tree(value)),
            Err(_) => json_text(text@) is None,
        },
{
    serde_json::from_str::<serde_json::Value>(text)
}

/// Copies a `serde_json::Value` into a `Json`, variant by variant; the
/// members of an object come in the order in which its map yields them.
#[verifier::external_body]
fn copy_value(value: &serde_json::Value) -> (json: Json)
    ensures
        json@ == value_tree(*value),
{
    match value {
        serde_json::Value::Null => Json::Null,
        serde_json::Value::Bool(b) => Json::Bool(*b),
        serde_json::Value::Number(_) => Json::Number,
        serde_json::Value::String(text) => Json::Text(text.clone()),
        serde_json::Value::Array(items) => Json::Array(items.iter().map(copy_value).collect()),
        serde_json::Value::Object(map) => Json::Object(
            map.iter().map(|(k, v)| Member { name: k.clone(), value: copy_value(v) }).collect(),
        ),
    }
}

impl Json {
    /// Reads a JSON document from `text`.
    pub fn parse(text: &str) -> (parsed: Option<Json>)
        ensures
            match parsed {
                Some(json) => json_text(text@) == Some(json@),
                None => json_text(text@) is None,
            },
    {
        match parse_value(text) {
            Ok(value) => Some(copy_value(&value)),
            Err(_) => None,
        }
    }

    /// The value of the first member called `name`.
    pub fn member(&self, name: &str) -> (found: Option<&Json>)
        ensures
            match found {
                Some(value) => self@.member(name@) == Some(value@),
                None => self@.member(name@) is None,
            },
    {
        match self {
            Json::Object(members) => {
                let wanted = name.to_owned();
                let mut i: usize = 0;
                assert(self@->Object_0.skip(0) == self@->Object_0);
                while i < members.len()
                    invariant
                        i <= members.len(),
                        wanted@ == name@,
                        self@ is Object,
                        self@->Object_0.len() == members@.len(),
                        forall|k: int|
                            0 <= k < members@.len() ==> #[trigger] self@->Object_0[k]
                                == (TreeMember {
                                name: members@[k].name@,
                                value: members@[k].value@,
                            }),
                        first_named(self@->Object_0, name@) == first_named(
                            self@->Object_0.skip(i as int),
                            name@,
                        ),
                    decreases members.len() - i,
                {
                    let ghost rest = self@->Object_0.skip(i as int);
                    assert(rest[0] == self@->Object_0[i as int]);
                    assert(rest.drop_first() == self@->Object_0.skip(i + 1));
                    if members[i].name == wanted {
                        return Some(&members[i].value);
                    }
                    i += 1;
                }
                None
            },
            _ => None,
        }
    }

    /// The text of the member called `name`, where that member is a string.
    pub fn text_member(&self, name: &str) -> (found: Option<&String>)
        ensures
            match found {
                Some(text) => self@.text_member(name@) == Some(text@),
                None => self@.text_member(name@) is None,
            },
    {
        match self.member(name) {
            Some(Json::Text(text)) => Some(text),
            _ => None,
        }
    }

    /// The items of the member called `name`, where that member is an array.
    pub fn array_member(&self, name: &str) -> (found: Option<&Vec<Json>>)
        ensures
            match found {
                Some(items) => self@.array_member(name@) == Some(trees(items@)),
                None => self@.array_member(name@) is None,
            },
    {
        match self.member(name) {
            Some(Json::Array(items)) => {
                assert(Json::Array(*items)@->Array_0 =~= trees(items@));
                Some(items)
            },
            _ => None,
        }
    }
}

} // verus!
