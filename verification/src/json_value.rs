//! JSON values as the plan reader sees them: scalars, arrays and objects
//! whose members keep their order.
use crate::text::{copy_string, owned};
use vstd::prelude::*;

verus! {

/// A JSON value. A number is kept as its decimal text; an object's members
/// are kept in order, each key once.
#[derive(Debug, PartialEq, Eq)]
pub enum JsonValue {
    Null,
    Bool(bool),
    Number(String),
    Str(String),
    Array(Vec<JsonValue>),
    Object(Vec<(String, JsonValue)>),
}

/// A JSON value as plain values.
pub enum JsonView {
    Null,
    Bool(bool),
    Number(Seq<char>),
    Str(Seq<char>),
    Array(Seq<JsonView>),
    Object(Seq<(Seq<char>, JsonView)>),
}

/// The plain-value view of a JSON value.
pub open spec fn json_view(v: JsonValue) -> JsonView
    decreases v, 0int,
{
    match v {
        JsonValue::Null => JsonView::Null,
        JsonValue::Bool(b) => JsonView::Bool(b),
        JsonValue::Number(n) => JsonView::Number(n@),
        JsonValue::Str(s) => JsonView::Str(s@),
        JsonValue::Array(items) => JsonView::Array(items_view(items, items@.len() as int)),
        JsonValue::Object(fields) => JsonView::Object(fields_view(fields, fields@.len() as int)),
    }
}

/// The views of the first `n` items.
pub open spec fn items_view(items: Vec<JsonValue>, n: int) -> Seq<JsonView>
    decreases items, n,
{
    if n <= 0 || n > items@.len() {
        Seq::empty()
    } else {
        proof {
            assert(decreases_to!(items => items@));
            assert(decreases_to!(items@ => items@[n - 1]));
        }
        items_view(items, n - 1).push(json_view(items@[n - 1]))
    }
}

/// The views of the first `n` members.
pub open spec fn fields_view(fields: Vec<(String, JsonValue)>, n: int) -> Seq<(Seq<char>, JsonView)>
    decreases fields, n,
{
    if n <= 0 || n > fields@.len() {
        Seq::empty()
    } else {
        proof {
            assert(decreases_to!(fields => fields@));
            assert(decreases_to!(fields@ => fields@[n - 1]));
            assert(decreases_to!(fields@[n - 1] => fields@[n - 1].1));
        }
        fields_view(fields, n - 1).push((fields@[n - 1].0@, json_view(fields@[n - 1].1)))
    }
}

/// The text of a scalar that stands for a string: a string itself, a
/// number's decimal text, or `true`/`false`.
pub open spec fn scalar_text(v: JsonView) -> Option<Seq<char>> {
    match v {
        JsonView::Str(s) => Some(s),
        JsonView::Number(n) => Some(n),
        JsonView::Bool(b) => Some(if b { "true"@ } else { "false"@ }),
        _ => None,
    }
}

/// The text of a scalar that stands for a string.
pub fn scalar_text_of(v: &JsonValue) -> (r: Option<String>)
    ensures
        match r {
            Some(s) => scalar_text(json_view(*v)) == Some(s@),
            None => scalar_text(json_view(*v)) is None,
        },
{
    match v {
        JsonValue::Str(s) => Some(copy_string(s)),
        JsonValue::Number(n) => Some(copy_string(n)),
        JsonValue::Bool(b) => Some(owned(if *b { "true" } else { "false" })),
        _ => None,
    }
}

/// The views of all the items of an array.
pub open spec fn array_view(items: Vec<JsonValue>) -> Seq<JsonView> {
    items_view(items, items@.len() as int)
}

/// The views of all the members of an object.
pub open spec fn object_view(fields: Vec<(String, JsonValue)>) -> Seq<(Seq<char>, JsonView)> {
    fields_view(fields, fields@.len() as int)
}

proof fn lemma_items_view(items: Vec<JsonValue>, n: int)
    requires
        0 <= n <= items@.len(),
    ensures
        items_view(items, n).len() == n,
        forall|i: int| 0 <= i < n ==> #[trigger] items_view(items, n)[i] == json_view(items@[i]),
    decreases n,
{
    if n > 0 {
        lemma_items_view(items, n - 1);
    }
}

proof fn lemma_fields_view(fields: Vec<(String, JsonValue)>, n: int)
    requires
        0 <= n <= fields@.len(),
    ensures
        fields_view(fields, n).len() == n,
        forall|i: int|
            0 <= i < n ==> #[trigger] fields_view(fields, n)[i] == (fields@[i].0@, json_view(fields@[i].1)),
    decreases n,
{
    if n > 0 {
        lemma_fields_view(fields, n - 1);
    }
}

/// The view of an array holds the view of each item, in order.
pub proof fn lemma_array_view(items: Vec<JsonValue>)
    ensures
        array_view(items).len() == items@.len(),
        forall|i: int| 0 <= i < items@.len() ==> #[trigger] array_view(items)[i] == json_view(items@[i]),
{
    lemma_items_view(items, items@.len() as int);
}

/// The view of an object holds the key and the view of each member, in order.
pub proof fn lemma_object_view(fields: Vec<(String, JsonValue)>)
    ensures
        object_view(fields).len() == fields@.len(),
        forall|i: int|
            0 <= i < fields@.len() ==> #[trigger] object_view(fields)[i] == (fields@[i].0@, json_view(fields@[i].1)),
{
    lemma_fields_view(fields, fields@.len() as int);
}

/// The value of the first member with the key.
pub open spec fn member(fields: Seq<(Seq<char>, JsonView)>, key: Seq<char>) -> Option<JsonView>
    decreases fields.len(),
{
    if fields.len() == 0 {
        None
    } else {
        match member(fields.drop_last(), key) {
            Some(v) => Some(v),
            None => if fields.last().0 == key {
                Some(fields.last().1)
            } else {
                None
            },
        }
    }
}

/// The value of the first member with the key.
pub fn member_of<'a>(fields: &'a Vec<(String, JsonValue)>, key: &str) -> (r: Option<&'a JsonValue>)
    ensures
        match r {
            Some(v) => member(object_view(*fields), key@) == Some(json_view(*v)),
            None => member(object_view(*fields), key@) is None,
        },
{
    let ghost fv = object_view(*fields);
    proof {
        lemma_object_view(*fields);
    }
    let mut k: usize = 0;
    while k < fields.len()
        invariant
            k <= fields@.len(),
            fv == object_view(*fields),
            fv.len() == fields@.len(),
            forall|i: int| 0 <= i < fields@.len() ==> #[trigger] fv[i] == (fields@[i].0@, json_view(fields@[i].1)),
            member(fv.take(k as int), key@) is None,
        decreases fields.len() - k,
    {
        proof {
            assert(fv.take(k + 1).drop_last() == fv.take(k as int));
            assert(fv.take(k + 1).last() == fv[k as int]);
        }
        if crate::text::str_eq(fields[k].0.as_str(), key) {
            proof {
                lemma_member_prefix(fv, key@, k as int + 1);
            }
            return Some(&fields[k].1);
        }
        k = k + 1;
    }
    assert(fv.take(fv.len() as int) == fv);
    None
}

/// A member found in a prefix is the member of the whole list.
pub proof fn lemma_member_prefix(fields: Seq<(Seq<char>, JsonView)>, key: Seq<char>, n: int)
    requires
        0 <= n <= fields.len(),
        member(fields.take(n), key) is Some,
    ensures
        member(fields, key) == member(fields.take(n), key),
    decreases fields.len() - n,
{
    if n < fields.len() {
        assert(fields.take(n + 1).drop_last() == fields.take(n));
        lemma_member_prefix(fields, key, n + 1);
    } else {
        assert(fields.take(n) == fields);
    }
}


// ---------------------------------------------------------------------------
// Reading JSON text (serde_json)
// ---------------------------------------------------------------------------

#[verifier::external_type_specification]
#[verifier::external_body]
pub struct ExSerdeJsonValue(serde_json::Value);

/// The value a JSON text denotes, as `serde_json::from_str` reads it into a
/// `serde_json::Value` (object members ordered by key, a repeated key
/// keeping its last value); `None` when the text is not JSON.
pub uninterp spec fn json_document(text: Seq<char>) -> Option<JsonView>;

/// The message of the error `serde_json::from_str` reports for a text that
/// is not JSON.
pub uninterp spec fn json_error_text(text: Seq<char>) -> Seq<char>;

/// `serde_json::from_str::<serde_json::Value>`, with the value converted one
/// for one into a [`JsonValue`] and the error into its message. Which texts
/// are JSON, what they denote and what each error says is named, not
/// stated.
#[verifier::external_body]
pub(crate) fn parse_json(text: &str) -> (r: Result<JsonValue, String>)
    ensures
        match r {
            Ok(v) => json_document(text@) == Some(json_view(v)),
            Err(e) => json_document(text@) is None && e@ == json_error_text(text@),
        },
{
    match serde_json::from_str::<serde_json::Value>(text) {
        Ok(value) => Ok(from_serde(&value)),
        Err(err) => Err(err.to_string()),
    }
}

/// Converts a `serde_json::Value` one for one; nothing is claimed of it
/// beyond what [`parse_json`] states of its result.
#[verifier::external_body]
fn from_serde(value: &serde_json::Value) -> JsonValue {
    match value {
        serde_json::Value::Null => JsonValue::Null,
        serde_json::Value::Bool(b) => JsonValue::Bool(*b),
        serde_json::Value::Number(n) => JsonValue::Number(n.to_string()),
        serde_json::Value::String(s) => JsonValue::Str(s.clone()),
        serde_json::Value::Array(items) => JsonValue::Array(items.iter().map(from_serde).collect()),
        serde_json::Value::Object(map) => JsonValue::Object(
            map.iter().map(|(k, v)| (k.clone(), from_serde(v))).collect(),
        ),
    }
}

} // verus!
