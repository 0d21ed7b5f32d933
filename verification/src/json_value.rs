//! JSON values as the library reads them, the decoding of a frame's bytes
//! by `serde_json`, and member lookup.

use vstd::prelude::*;

use crate::text::str_eq;

verus! {

#[verifier::external_type_specification]
#[verifier::external_body]
pub struct ExSerdeValue(serde_json::Value);

/// A JSON value: numbers kept as the text of their shortest form, object
/// members in the order they were read.
#[derive(Debug)]
pub enum JsonValue {
    Null,
    Bool(bool),
    /// A number: its text as `serde_json` writes it, and its value when it
    /// is an integer that fits in `i64`.
    Number(String, Option<i64>),
    Text(String),
    Array(Vec<JsonValue>),
    Object(Vec<(String, JsonValue)>),
}

/// The mathematical content of a [`JsonValue`].
pub enum JsonView {
    Null,
    Bool(bool),
    Number(Seq<char>, Option<i64>),
    Text(Seq<char>),
    Array(Seq<JsonView>),
    Object(Seq<(Seq<char>, JsonView)>),
}

impl JsonValue {
    pub open spec fn json_view(self) -> JsonView
        decreases self,
    {
        match self {
            JsonValue::Null => JsonView::Null,
            JsonValue::Bool(b) => JsonView::Bool(b),
            JsonValue::Number(n, i) => JsonView::Number(n@, i),
            JsonValue::Text(t) => JsonView::Text(t@),
            JsonValue::Array(items) => JsonView::Array(
                Seq::new(
                    items@.len(),
                    |i: int|
                        if 0 <= i < items@.len() {
                            items@[i].json_view()
                        } else {
                            JsonView::Null
                        },
                ),
            ),
            JsonValue::Object(members) => JsonView::Object(
                Seq::new(
                    members@.len(),
                    |i: int|
                        if 0 <= i < members@.len() {
                            (members@[i].0@, members@[i].1.json_view())
                        } else {
                            (Seq::empty(), JsonView::Null)
                        },
                ),
            ),
        }
    }
}

/// The views of an object's members, in order.
pub open spec fn members_view(members: Seq<(String, JsonValue)>) -> Seq<(Seq<char>, JsonView)> {
    Seq::new(members.len(), |i: int| (members[i].0@, members[i].1.json_view()))
}

/// An object's view is made of its members' views.
pub proof fn lemma_object_view(members: Vec<(String, JsonValue)>)
    ensures
        JsonValue::Object(members).json_view() == JsonView::Object(members_view(members@)),
{
    let v = JsonValue::Object(members);
    match v.json_view() {
        JsonView::Object(m) => {
            assert(m =~= members_view(members@));
        },
        _ => {},
    }
}

/// The value of the first member named `key`.
pub open spec fn member(members: Seq<(Seq<char>, JsonView)>, key: Seq<char>) -> Option<JsonView>
    decreases members.len(),
{
    if members.len() == 0 {
        None
    } else if members[0].0 == key {
        Some(members[0].1)
    } else {
        member(members.drop_first(), key)
    }
}

/// The member `key` of an object; nothing for any other value.
pub open spec fn get(v: JsonView, key: Seq<char>) -> Option<JsonView> {
    match v {
        JsonView::Object(members) => member(members, key),
        _ => None,
    }
}

pub open spec fn opt_json_view(v: Option<JsonValue>) -> Option<JsonView> {
    match v {
        Some(x) => Some(x.json_view()),
        None => None,
    }
}

pub open spec fn opt_ref_view(v: Option<&JsonValue>) -> Option<JsonView> {
    match v {
        Some(x) => Some(x.json_view()),
        None => None,
    }
}

/// Where the first member named `key` stands.
pub fn member_index(members: &Vec<(String, JsonValue)>, key: &str) -> (r: Option<usize>)
    ensures
        match r {
            Some(i) => i < members@.len() && members@[i as int].0@ == key@ && member(
                members_view(members@),
                key@,
            ) == Some(members@[i as int].1.json_view()),
            None => member(members_view(members@), key@) is None,
        },
{
    let ghost mv = members_view(members@);
    let mut i: usize = 0;
    assert(mv.subrange(0, mv.len() as int) =~= mv);
    while i < members.len()
        invariant
            i <= members@.len(),
            mv == members_view(members@),
            member(mv, key@) == member(mv.subrange(i as int, mv.len() as int), key@),
        decreases members@.len() - i,
    {
        let ghost tail = mv.subrange(i as int, mv.len() as int);
        assert(tail[0] == mv[i as int]);
        assert(tail.drop_first() =~= mv.subrange(i + 1, mv.len() as int));
        if str_eq(members[i].0.as_str(), key) {
            return Some(i);
        }
        i += 1;
    }
    assert(mv.subrange(i as int, mv.len() as int) =~= Seq::<(Seq<char>, JsonView)>::empty());
    None
}

/// The member `key` of `v` when `v` is an object that has one.
pub fn get_member<'a>(v: &'a JsonValue, key: &str) -> (r: Option<&'a JsonValue>)
    ensures
        opt_ref_view(r) == get(v.json_view(), key@),
{
    match v {
        JsonValue::Object(members) => {
            proof {
                lemma_object_view(*members);
            }
            match member_index(members, key) {
                Some(i) => Some(&members[i].1),
                None => None,
            }
        },
        _ => None,
    }
}

/// The member `key` of `v` when `v` is an object that has one, moved out.
pub fn take_member(v: JsonValue, key: &str) -> (r: Option<JsonValue>)
    ensures
        opt_json_view(r) == get(v.json_view(), key@),
{
    match v {
        JsonValue::Object(members) => {
            proof {
                lemma_object_view(members);
            }
            match member_index(&members, key) {
                Some(i) => {
                    let mut members = members;
                    let (_, value) = members.remove(i);
                    Some(value)
                },
                None => None,
            }
        },
        _ => None,
    }
}

/// What `serde_json::from_slice::<serde_json::Value>` decodes from `bytes`,
/// as a [`JsonView`]; nothing when the bytes are not one JSON value.
pub uninterp spec fn json_decoded(bytes: Seq<u8>) -> Option<JsonView>;

/// A decoded `serde_json::Value` as a [`JsonValue`], variant for variant.
#[verifier::external_body]
fn from_serde(v: &serde_json::Value) -> JsonValue {
    match v {
        serde_json::Value::Null => JsonValue::Null,
        serde_json::Value::Bool(b) => JsonValue::Bool(*b),
        serde_json::Value::Number(n) => JsonValue::Number(n.to_string(), n.as_i64()),
        serde_json::Value::String(t) => JsonValue::Text(t.clone()),
        serde_json::Value::Array(items) => JsonValue::Array(items.iter().map(from_serde).collect()),
        serde_json::Value::Object(map) => JsonValue::Object(
            map.iter().map(|(k, x)| (k.clone(), from_serde(x))).collect(),
        ),
    }
}

/// Decodes a frame's bytes as one JSON value.
///
/// Calls `serde_json::from_slice::<serde_json::Value>` and converts the value
/// variant for variant (numbers by their text and their `i64` value, object
/// members in map order). What the parser accepts takes a grammar to state,
/// so the result is named by the bytes, not described.
#[verifier::external_body]
pub fn decode_frame(bytes: &[u8]) -> (r: Option<JsonValue>)
    ensures
        opt_json_view(r) == json_decoded(bytes@),
{
    serde_json::from_slice::<serde_json::Value>(bytes).ok().map(|v| from_serde(&v))
}

} // verus!
