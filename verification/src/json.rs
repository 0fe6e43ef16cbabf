//! JSON documents as the service sends them.
//!
//! Parsing is `serde_json`'s work; the parsed document is carried over into
//! [`Json`], a tree of plain values that the rest of the crate can read.

use vstd::prelude::*;

verus! {

/// A JSON value.
#[derive(Debug)]
pub enum Json {
    /// `null`.
    Null,
    /// `true` or `false`.
    Bool(bool),
    /// A number, in the decimal notation in which `serde_json` prints it.
    Number(String),
    /// A string.
    Text(String),
    /// An array, in document order.
    Array(Vec<Json>),
    /// An object, as its members.
    Object(Vec<(String, Json)>),
}

/// A [`Json`] as mathematics.
pub enum JsonView {
    /// `null`.
    Null,
    /// `true` or `false`.
    Bool(bool),
    /// A number, in decimal notation.
    Number(Seq<char>),
    /// A string.
    Text(Seq<char>),
    /// An array, in document order.
    Array(Seq<JsonView>),
    /// An object, as its members.
    Object(Seq<(Seq<char>, JsonView)>),
}

/// What `json` holds: the same tree, with texts and sequences in place of
/// strings and vectors.
pub open spec fn json_view(json: Json) -> JsonView
    decreases json,
{
    match json {
        Json::Null => JsonView::Null,
        Json::Bool(b) => JsonView::Bool(b),
        Json::Number(digits) => JsonView::Number(digits@),
        Json::Text(text) => JsonView::Text(text@),
        Json::Array(items) => JsonView::Array(
            Seq::new(
                items@.len(),
                |i: int|
                    if 0 <= i < items@.len() {
                        json_view(items@[i])
                    } else {
                        JsonView::Null
                    },
            ),
        ),
        Json::Object(members) => JsonView::Object(
            Seq::new(
                members@.len(),
                |i: int|
                    if 0 <= i < members@.len() {
                        (members@[i].0@, json_view(members@[i].1))
                    } else {
                        (Seq::empty(), JsonView::Null)
                    },
            ),
        ),
    }
}

impl View for Json {
    type V = JsonView;

    open spec fn view(&self) -> JsonView {
        json_view(*self)
    }
}

/// The views of `items`, entry by entry.
pub open spec fn json_views(items: Seq<Json>) -> Seq<JsonView> {
    Seq::new(items.len(), |i: int| items[i]@)
}

/// The value of the first member of `members` whose key is `key`.
pub open spec fn find_member(members: Seq<(Seq<char>, JsonView)>, key: Seq<char>) -> Option<
    JsonView,
>
    decreases members.len(),
{
    if members.len() == 0 {
        None
    } else if members.first().0 == key {
        Some(members.first().1)
    } else {
        find_member(members.drop_first(), key)
    }
}

impl JsonView {
    /// The value under `key`, where this is an object that has the key.
    pub open spec fn member(self, key: Seq<char>) -> Option<JsonView> {
        match self {
            JsonView::Object(members) => find_member(members, key),
            _ => None,
        }
    }

    /// The text, where this is a string.
    pub open spec fn text(self) -> Option<Seq<char>> {
        match self {
            JsonView::Text(text) => Some(text),
            _ => None,
        }
    }

    /// The elements, where this is an array.
    pub open spec fn items(self) -> Option<Seq<JsonView>> {
        match self {
            JsonView::Array(items) => Some(items),
            _ => None,
        }
    }
}

/// `serde_json::Value`, carried from the parser to the conversion as it is:
/// nothing of its inside is known here.
#[verifier::external_type_specification]
#[verifier::external_body]
pub struct ExValue(serde_json::Value);

/// The document that `serde_json::from_str` reads from `text`, or `None`
/// where it reports an error.
pub uninterp spec fn parsed_document(text: Seq<char>) -> Option<JsonView>;

/// What a `serde_json::Value` holds.
pub uninterp spec fn value_content(value: serde_json::Value) -> JsonView;

/// Calls `serde_json::from_str` for a `serde_json::Value` and drops the
/// detail of an error.  Whether the call succeeds, and with which content,
/// is a function of `text` alone.
#[verifier::external_body]
fn read_value(text: &str) -> (result: Option<serde_json::Value>)
    ensures
        match result {
            Some(value) => parsed_document(text@) == Some(value_content(value)),
            None => parsed_document(text@) is None,
        },
{
    serde_json::from_str::<serde_json::Value>(text).ok()
}

/// Carries a `serde_json::Value` over into a [`Json`], variant by variant:
/// a number becomes its `to_string()`, an array its elements in order, an
/// object its members as `serde_json::Map::iter` yields them.  Nothing is
/// left out or added, and the result depends on the value alone.  The
/// parser nests at most 128 levels deep, and so does this.
#[verifier::external_body]
fn json_from_value(value: &serde_json::Value) -> (json: Json)
    ensures
        json@ == value_content(*value),
{
    match value {
        serde_json::Value::Null => Json::Null,
        serde_json::Value::Bool(b) => Json::Bool(*b),
        serde_json::Value::Number(n) => Json::Number(n.to_string()),
        serde_json::Value::String(s) => Json::Text(s.clone()),
        serde_json::Value::Array(a) => Json::Array(a.iter().map(json_from_value).collect()),
        serde_json::Value::Object(m) => Json::Object(
            m.iter().map(|(k, v)| (k.clone(), json_from_value(v))).collect(),
        ),
    }
}

/// Parses `text` as one JSON document.
pub fn parse(text: &str) -> (document: Option<Json>)
    ensures
        match document {
            Some(document) => parsed_document(text@) == Some(document@),
            None => parsed_document(text@) is None,
        },
{
    match read_value(text) {
        Some(value) => Some(json_from_value(&value)),
        None => None,
    }
}

impl Json {
    /// Looks `key` up in an object: the value of the first member with that
    /// key.  Anything but an object has no members.
    pub fn get(&self, key: &str) -> (value: Option<&Json>)
        ensures
            match value {
                Some(found) => self@.member(key@) == Some(found@),
                None => self@.member(key@) is None,
            },
    {
        match self {
            Json::Object(members) => {
                let ghost pairs = self@->Object_0;
                let wanted = key.to_owned();
                let mut i: usize = 0;
                assert(pairs.skip(0) == pairs);
                while i < members.len()
                    invariant
                        i <= members@.len(),
                        wanted@ == key@,
                        pairs.len() == members@.len(),
                        forall|j: int|
                            0 <= j < members@.len() ==> #[trigger] pairs[j] == (
                                members@[j].0@,
                                members@[j].1@,
                            ),
                        self@.member(key@) == find_member(pairs.skip(i as int), key@),
                    decreases members@.len() - i,
                {
                    let ghost rest = pairs.skip(i as int);
                    assert(rest.drop_first() == pairs.skip(i + 1));
                    if members[i].0 == wanted {
                        return Some(&members[i].1);
                    }
                    i = i + 1;
                }
                None
            },
            _ => None,
        }
    }

    /// The text of a string; `None` for anything else.
    pub fn as_str(&self) -> (text: Option<&str>)
        ensures
            match text {
                Some(text) => self@.text() == Some(text@),
                None => self@.text() is None,
            },
    {
        match self {
            Json::Text(text) => Some(text.as_str()),
            _ => None,
        }
    }

    /// The elements of an array; `None` for anything else.
    pub fn as_array(&self) -> (items: Option<&Vec<Json>>)
        ensures
            match items {
                Some(items) => self@.items() == Some(json_views(items@)),
                None => self@.items() is None,
            },
    {
        match self {
            Json::Array(items) => {
                Some(items)
            },
            _ => None,
        }
    }
}

} // verus!
