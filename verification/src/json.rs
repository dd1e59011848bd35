//! JSON documents as plain values, with the reader and the writer that turn
//! them from and into text.

use crate::text::{chars_of, same};
use serde_json::Value;
use vstd::prelude::*;

verus! {

/// A member of a JSON object.
#[derive(Debug, PartialEq, Eq)]
pub struct Member {
    pub key: String,
    pub value: Json,
}

/// A JSON document.
#[derive(Debug, PartialEq, Eq)]
pub enum Json {
    Null,
    Flag(bool),
    /// A number that is a 64-bit integer.
    Number(i64),
    /// Any other number, as it is written.
    Decimal(String),
    Text(String),
    List(Vec<Json>),
    /// An object, with its members in order.
    Record(Vec<Member>),
}

/// The mathematical value of a [`Json`].
pub enum JsonView {
    Null,
    Flag(bool),
    Number(i64),
    Decimal(Seq<char>),
    Text(Seq<char>),
    List(Seq<JsonView>),
    Record(Seq<(Seq<char>, JsonView)>),
}

/// The mathematical value of a document.
pub open spec fn json_view(j: Json) -> JsonView
    decreases j,
{
    match j {
        Json::Null => JsonView::Null,
        Json::Flag(b) => JsonView::Flag(b),
        Json::Number(n) => JsonView::Number(n),
        Json::Decimal(s) => JsonView::Decimal(s@),
        Json::Text(s) => JsonView::Text(s@),
        Json::List(v) => JsonView::List(
            Seq::new(
                v@.len(),
                |i: int|
                    if 0 <= i < v@.len() {
                        json_view(v@[i])
                    } else {
                        JsonView::Null
                    },
            ),
        ),
        Json::Record(m) => JsonView::Record(
            Seq::new(
                m@.len(),
                |i: int|
                    if 0 <= i < m@.len() {
                        (m@[i].key@, json_view(m@[i].value))
                    } else {
                        (Seq::empty(), JsonView::Null)
                    },
            ),
        ),
    }
}

impl View for Json {
    type V = JsonView;

    open spec fn view(&self) -> JsonView {
        json_view(*self)
    }
}

/// The values of a sequence of documents.
pub open spec fn json_views(v: Seq<Json>) -> Seq<JsonView> {
    Seq::new(v.len(), |i: int| v[i]@)
}

/// The keys and values of a sequence of members.
pub open spec fn member_views(m: Seq<Member>) -> Seq<(Seq<char>, JsonView)> {
    Seq::new(m.len(), |i: int| (m[i].key@, m[i].value@))
}

/// The value of an array is the array of its elements' values.
pub proof fn lemma_list_view(v: Vec<Json>)
    ensures
        Json::List(v)@ == JsonView::List(json_views(v@)),
{
    assert(json_view(Json::List(v))->List_0 =~= json_views(v@));
}

/// The value of an object is the sequence of its members' keys and values.
pub proof fn lemma_record_view(m: Vec<Member>)
    ensures
        Json::Record(m)@ == JsonView::Record(member_views(m@)),
{
    assert(json_view(Json::Record(m))->Record_0 =~= member_views(m@));
}

/// The value of the first of the members from index `i` on that has the
/// key `key`.
pub open spec fn lookup(m: Seq<(Seq<char>, JsonView)>, key: Seq<char>, i: int) -> Option<JsonView>
    decreases m.len() - i,
{
    if i < 0 || i >= m.len() {
        None
    } else if m[i].0 == key {
        Some(m[i].1)
    } else {
        lookup(m, key, i + 1)
    }
}

/// The member `key` of an object; nothing for a document that is no object
/// or has no such member.
pub open spec fn member(j: JsonView, key: Seq<char>) -> Option<JsonView> {
    match j {
        JsonView::Record(m) => lookup(m, key, 0),
        _ => None,
    }
}

/// The element `i` of an array; nothing for a document that is no array or
/// is shorter.
pub open spec fn element(j: JsonView, i: int) -> Option<JsonView> {
    match j {
        JsonView::List(v) => if 0 <= i < v.len() {
            Some(v[i])
        } else {
            None
        },
        _ => None,
    }
}

/// The text of a document that is a string.
pub open spec fn text_in(j: JsonView) -> Option<Seq<char>> {
    match j {
        JsonView::Text(s) => Some(s),
        _ => None,
    }
}

/// The elements of a document that is an array.
pub open spec fn list_in(j: JsonView) -> Option<Seq<JsonView>> {
    match j {
        JsonView::List(v) => Some(v),
        _ => None,
    }
}

/// The type of the JSON reader's documents.
#[verifier::external_type_specification]
#[verifier::external_body]
pub struct ExJsonValue(serde_json::Value);

/// The type of the JSON reader's errors.
#[verifier::external_type_specification]
#[verifier::external_body]
pub struct ExJsonError(serde_json::Error);

/// The document that a text denotes, as the JSON reader reads it; nothing
/// for a text that it rejects.
pub uninterp spec fn json_value(text: Seq<char>) -> Option<JsonView>;

/// The text that the JSON writer gives a document.
pub uninterp spec fn json_text(j: JsonView) -> Seq<char>;

/// Copies a document of the JSON reader (`serde_json::Value`) into a
/// [`Json`], variant by variant: an object gives its members in the order
/// in which the reader holds them, a number that `as_i64` gives is a
/// `Number`, any other number a `Decimal` with its text. Nothing is claimed
/// of the result.
#[verifier::external_body]
fn json_of(v: &serde_json::Value) -> Json {
    match v {
        Value::Null => Json::Null,
        Value::Bool(b) => Json::Flag(*b),
        Value::Number(n) => match n.as_i64() {
            Some(i) => Json::Number(i),
            None => Json::Decimal(n.to_string()),
        },
        Value::String(s) => Json::Text(s.clone()),
        Value::Array(a) => Json::List(a.iter().map(|x| json_of(x)).collect()),
        Value::Object(m) => Json::Record(
            m.iter().map(|(k, x)| Member { key: k.clone(), value: json_of(x) }).collect(),
        ),
    }
}

/// Copies a [`Json`] into a document of the JSON writer
/// (`serde_json::Value`), variant by variant; a `Decimal` becomes what the
/// reader makes of its text, or null. Nothing is claimed of the result.
#[verifier::external_body]
fn value_of(j: &Json) -> serde_json::Value {
    match j {
        Json::Null => Value::Null,
        Json::Flag(b) => Value::Bool(*b),
        Json::Number(n) => Value::from(*n),
        Json::Decimal(s) => serde_json::from_str(s).unwrap_or(Value::Null),
        Json::Text(s) => Value::String(s.clone()),
        Json::List(v) => Value::Array(v.iter().map(|x| value_of(x)).collect()),
        Json::Record(m) => Value::Object(
            m.iter().map(|x| (x.key.clone(), value_of(&x.value))).collect(),
        ),
    }
}

/// `serde_json::from_str` for a `serde_json::Value`: the document that
/// the text denotes, which depends on the text alone, or the reader's error.
#[verifier::external_body]
pub(crate) fn json_parse(text: &str) -> (r: core::result::Result<Json, serde_json::Error>)
    ensures
        match r {
            Ok(j) => json_value(text@) == Some(j@),
            Err(_) => json_value(text@) is None,
        },
{
    serde_json::from_str::<Value>(text).map(|v| json_of(&v))
}

/// `to_string` of a `serde_json::Value`: the text of the document in the
/// writer's compact form, which depends on the document alone.
#[verifier::external_body]
pub(crate) fn json_print(j: &Json) -> (s: String)
    ensures
        s@ == json_text(j@),
{
    value_of(j).to_string()
}

impl Json {
    /// The member `key` of an object.
    pub fn get(&self, key: &str) -> (r: Option<&Json>)
        ensures
            match r {
                Some(j) => member(self@, key@) == Some(j@),
                None => member(self@, key@) is None,
            },
    {
        match self {
            Json::Record(m) => {
                let want = chars_of(key);
                let mut i: usize = 0;
                let ghost all = member_views(m@);
                proof {
                    lemma_record_view(*m);
                }
                while i < m.len()
                    invariant
                        i <= m.len(),
                        want@ == key@,
                        all == member_views(m@),
                        self@ == JsonView::Record(all),
                        lookup(all, key@, i as int) == lookup(all, key@, 0),
                    decreases m.len() - i,
                {
                    if same(&chars_of(m[i].key.as_str()), &want) {
                        return Some(&m[i].value);
                    }
                    i += 1;
                }
                None
            },
            _ => None,
        }
    }

    /// The element `i` of an array.
    pub fn at(&self, i: usize) -> (r: Option<&Json>)
        ensures
            match r {
                Some(j) => element(self@, i as int) == Some(j@),
                None => element(self@, i as int) is None,
            },
    {
        match self {
            Json::List(v) => {
                proof {
                    lemma_list_view(*v);
                }
                if i < v.len() {
                    Some(&v[i])
                } else {
                    None
                }
            },
            _ => None,
        }
    }

    /// The characters of a document that is a string.
    pub fn as_text(&self) -> (r: Option<Vec<char>>)
        ensures
            match r {
                Some(t) => text_in(self@) == Some(t@),
                None => text_in(self@) is None,
            },
    {
        match self {
            Json::Text(s) => Some(chars_of(s.as_str())),
            _ => None,
        }
    }

    /// The elements of a document that is an array.
    pub fn as_list(&self) -> (r: Option<&Vec<Json>>)
        ensures
            match r {
                Some(v) => list_in(self@) == Some(json_views(v@)),
                None => list_in(self@) is None,
            },
    {
        match self {
            Json::List(v) => {
                proof {
                    lemma_list_view(*v);
                }
                Some(v)
            },
            _ => None,
        }
    }
}

} // verus!
