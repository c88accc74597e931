//! JSON values and documents, by way of `serde_json`.
use std::collections::HashMap;
use vstd::prelude::*;
use vstd::utf8::encode_utf8;

use crate::decimal::signed_numeral;

verus! {

/// `serde_json::Value`, a JSON value.
#[verifier::external_type_specification]
#[verifier::external_body]
pub struct ExValue(serde_json::Value);

/// `serde_json::Error`, why a document was refused.
#[verifier::external_type_specification]
#[verifier::external_body]
pub struct ExError(serde_json::Error);

/// The fields of a JSON object that is held in a hash map.
pub uninterp spec fn object_content(object: HashMap<String, serde_json::Value>) -> Map<
    Seq<char>,
    serde_json::Value,
>;

/// What `Display` writes of a `serde_json::Error`.
pub uninterp spec fn json_error_text(error: serde_json::Error) -> Seq<char>;

/// What `serde_json::from_slice` reads from a document that should be an
/// object: its fields, or the text of the error.
pub uninterp spec fn parsed_object(document: Seq<u8>) -> Result<
    Map<Seq<char>, serde_json::Value>,
    Seq<char>,
>;

/// The document that `serde_json::to_vec` writes for a value.
pub uninterp spec fn value_bytes(value: serde_json::Value) -> Seq<u8>;

/// The value that `Value::String` makes of a text.
pub uninterp spec fn value_of_text(text: Seq<char>) -> serde_json::Value;

/// The value that `Value::from` makes of an integer.
pub uninterp spec fn value_of_number(number: int) -> serde_json::Value;

/// The value that `Value::Object` makes of fields.
pub uninterp spec fn value_of_object(fields: Map<Seq<char>, serde_json::Value>) -> serde_json::Value;

/// Which variant of `serde_json::Value` a value is, with the text of a string.
pub uninterp spec fn value_kind(value: serde_json::Value) -> KindView;

/// The kinds of JSON values.
pub enum Kind {
    Null,
    Bool,
    Number,
    Text(String),
    Array,
    Object,
}

/// What a kind holds.
pub enum KindView {
    Null,
    Bool,
    Number,
    Text(Seq<char>),
    Array,
    Object,
}

impl View for Kind {
    type V = KindView;

    open spec fn view(&self) -> KindView {
        match *self {
            Kind::Null => KindView::Null,
            Kind::Bool => KindView::Bool,
            Kind::Number => KindView::Number,
            Kind::Text(text) => KindView::Text(text@),
            Kind::Array => KindView::Array,
            Kind::Object => KindView::Object,
        }
    }
}

/// Calls `serde_json::from_slice` for a map from text to values. The fields, or
/// the error and its text, are determined by the document.
#[verifier::external_body]
pub(crate) fn parse_object(document: &[u8]) -> (r: Result<
    HashMap<String, serde_json::Value>,
    serde_json::Error,
>)
    ensures
        match r {
            Ok(object) => parsed_object(document@) == Ok::<_, Seq<char>>(object_content(object)),
            Err(error) => parsed_object(document@) == Err::<Map<Seq<char>, serde_json::Value>, _>(
                json_error_text(error),
            ),
        },
{
    serde_json::from_slice(document)
}

/// Calls `to_string` of a `serde_json::Error`: the text is determined by the
/// error.
#[verifier::external_body]
pub(crate) fn error_text(error: &serde_json::Error) -> (r: String)
    ensures
        r@ == json_error_text(*error),
{
    error.to_string()
}

/// Calls `serde_json::to_vec`. A value is always written, its document is
/// determined by the value, and that of an `i64` is the decimal numeral.
#[verifier::external_body]
pub(crate) fn value_to_vec(value: &serde_json::Value) -> (r: Result<Vec<u8>, serde_json::Error>)
    ensures
        r is Ok,
        r->Ok_0@ == value_bytes(*value),
        forall|n: i64|
            *value == #[trigger] value_of_number(n as int) ==> r->Ok_0@ == encode_utf8(
                signed_numeral(n as int),
            ),
{
    serde_json::to_vec(value)
}

/// Calls `serde_json::Value::String`.
#[verifier::external_body]
pub(crate) fn text_value(text: String) -> (r: serde_json::Value)
    ensures
        r == value_of_text(text@),
        value_kind(r) == KindView::Text(text@),
{
    serde_json::Value::String(text)
}

/// Calls `serde_json::Value::from` for an `i64`.
#[verifier::external_body]
pub(crate) fn number_value(number: i64) -> (r: serde_json::Value)
    ensures
        r == value_of_number(number as int),
        value_kind(r) == KindView::Number,
{
    serde_json::Value::from(number)
}

/// The fields that a row of entries stands for: of two entries with the same
/// name the later one counts.
pub open spec fn entries_map(entries: Seq<(String, serde_json::Value)>) -> Map<
    Seq<char>,
    serde_json::Value,
>
    decreases entries.len(),
{
    if entries.len() == 0 {
        Map::empty()
    } else {
        entries_map(entries.drop_last()).insert(entries.last().0@, entries.last().1)
    }
}

/// Calls `serde_json::Value::Object` on the entries, collected one after the
/// other.
#[verifier::external_body]
pub(crate) fn object_value(entries: Vec<(String, serde_json::Value)>) -> (r: serde_json::Value)
    ensures
        r == value_of_object(entries_map(entries@)),
        value_kind(r) == KindView::Object,
{
    serde_json::Value::Object(entries.into_iter().collect())
}

/// Calls `HashMap::into_iter`: every field comes out once, in an order that is
/// not determined.
#[verifier::external_body]
pub(crate) fn object_entries(object: HashMap<String, serde_json::Value>) -> (r: Vec<
    (String, serde_json::Value),
>)
    ensures
        entries_map(r@) == object_content(object),
        forall|i: int, j: int|
            0 <= i < j < r@.len() ==> (#[trigger] r@[i]).0@ != (#[trigger] r@[j]).0@,
{
    object.into_iter().collect()
}

/// Matches on a `serde_json::Value`: its kind is determined by the value.
#[verifier::external_body]
pub(crate) fn kind_of(value: &serde_json::Value) -> (r: Kind)
    ensures
        r@ == value_kind(*value),
{
    match value {
        serde_json::Value::Null => Kind::Null,
        serde_json::Value::Bool(_) => Kind::Bool,
        serde_json::Value::Number(_) => Kind::Number,
        serde_json::Value::String(text) => Kind::Text(text.clone()),
        serde_json::Value::Array(_) => Kind::Array,
        serde_json::Value::Object(_) => Kind::Object,
    }
}

} // verus!
