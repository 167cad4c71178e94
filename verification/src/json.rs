//! The trusted boundary around `serde_json`: type declarations, a
//! mathematical model of a JSON document, and small wrappers that parse a
//! document, hand out one decomposition level of a value, and decompose a
//! JSON number into plain values. Everything a JSON value can yield for the
//! pipeline crosses into plain library types here; all decisions on the
//! decomposed values are made in verified code.
//!
//! A JSON value is opaque, so its content is named: `json_model_of` is the
//! document model a value holds, `json_doc_of` the model a text parses to,
//! and the number names carry a number's integer and float readings. Each
//! wrapper's contract ties what it hands out to these names, which makes
//! the success paths of everything downstream statable exactly.

use vstd::prelude::*;
use crate::value::FloatValue;

verus! {

#[verifier::external_type_specification]
#[verifier::external_body]
pub struct ExJsonValue(serde_json::Value);

#[verifier::external_type_specification]
#[verifier::external_body]
pub struct ExJsonNumber(serde_json::Number);

/// Mathematical model of a JSON document. A number carries its exact
/// integer reading (when it has one in the `i64` range) and its float
/// decomposition; an array or object also carries its compact JSON text,
/// the textual fallback nested values resolve to.
pub enum JsonModel {
    Null,
    Bool(bool),
    Num { as_int: Option<i64>, bits: u64, text: Seq<char>, trunc: i64 },
    Text(Seq<char>),
    Arr { elems: Seq<JsonModel>, text: Seq<char> },
    Obj { fields: Seq<(Seq<char>, JsonModel)>, text: Seq<char> },
}

/// The document model a JSON value holds.
pub uninterp spec fn json_model_of(v: serde_json::Value) -> JsonModel;

/// The document model a text parses to, if the text is valid JSON: a
/// function of the text alone.
pub uninterp spec fn json_doc_of(s: Seq<char>) -> Option<JsonModel>;

/// A number's exact integer reading, when it is an integer in the `i64`
/// range.
pub uninterp spec fn number_int_of(n: serde_json::Number) -> Option<i64>;

/// A number's float decomposition: the bit pattern of the nearest 64-bit
/// float, its decimal rendering, and its truncation to `i64`.
pub uninterp spec fn number_float_of(n: serde_json::Number) -> (u64, Seq<char>, i64);

/// One decomposition level of a JSON value: scalars become plain values,
/// while the elements of arrays and the fields of objects stay JSON values
/// to be decomposed in turn.
pub enum JsonShape {
    Null,
    Bool(bool),
    Num(serde_json::Number),
    Text(String),
    Arr(Vec<serde_json::Value>),
    Obj(Vec<(String, serde_json::Value)>),
}

/// One decomposition level agrees with a document model: scalars carry the
/// model's values, a number's readings are its named decompositions, and
/// the elements or fields handed out hold the corresponding sub-models, in
/// order.
pub open spec fn shape_matches(s: JsonShape, m: JsonModel) -> bool {
    match s {
        JsonShape::Null => m is Null,
        JsonShape::Bool(b) => m == JsonModel::Bool(b),
        JsonShape::Num(n) => m == (JsonModel::Num {
            as_int: number_int_of(n),
            bits: number_float_of(n).0,
            text: number_float_of(n).1,
            trunc: number_float_of(n).2,
        }),
        JsonShape::Text(t) => m == JsonModel::Text(t@),
        JsonShape::Arr(items) => m matches JsonModel::Arr { elems, .. } && elems.len()
            == items@.len() && (forall|i: int|
            0 <= i < elems.len() ==> elems[i] == json_model_of(#[trigger] items@[i])),
        JsonShape::Obj(pairs) => m matches JsonModel::Obj { fields, .. } && fields.len()
            == pairs@.len() && (forall|i: int|
            0 <= i < fields.len() ==> #[trigger] fields[i] == (
                pairs@[i].0@,
                json_model_of(pairs@[i].1),
            )),
    }
}

/// A decomposition level and the model it agrees with hold the same
/// variant.
pub proof fn lemma_shape_pins_variant(s: JsonShape, m: JsonModel)
    requires
        shape_matches(s, m),
    ensures
        (s is Null) == (m is Null),
        (s is Bool) == (m is Bool),
        (s is Num) == (m is Num),
        (s is Text) == (m is Text),
        (s is Arr) == (m is Arr),
        (s is Obj) == (m is Obj),
{
    if s is Null {
    } else if s is Bool {
    } else if s is Num {
    } else if s is Text {
    } else if s is Arr {
    } else {
        assert(s is Obj);
    }
}

/// Relies on `serde_json::from_str`: parses a JSON document, or yields
/// nothing exactly when the text is not valid JSON; the parsed value holds
/// the text's document model.
#[verifier::external_body]
pub(crate) fn parse_json(s: &str) -> (r: Option<serde_json::Value>)
    ensures
        r is Some <==> json_doc_of(s@) is Some,
        r matches Some(v) ==> Some(json_model_of(v)) == json_doc_of(s@),
{
    serde_json::from_str(s).ok()
}

/// Relies on the `serde_json::Value` enum: tells its six variants apart and
/// hands the contents out, cloned, one arm each; what is handed out agrees
/// with the value's document model.
#[verifier::external_body]
pub(crate) fn json_shape(v: &serde_json::Value) -> (r: JsonShape)
    ensures
        shape_matches(r, json_model_of(*v)),
{
    match v {
        serde_json::Value::Null => JsonShape::Null,
        serde_json::Value::Bool(b) => JsonShape::Bool(*b),
        serde_json::Value::Number(n) => JsonShape::Num(n.clone()),
        serde_json::Value::String(s) => JsonShape::Text(s.clone()),
        serde_json::Value::Array(a) => JsonShape::Arr(a.clone()),
        serde_json::Value::Object(m) => JsonShape::Obj(
            m.iter().map(|(k, w)| (k.clone(), w.clone())).collect(),
        ),
    }
}

/// Relies on `serde_json::Number::as_i64`: the value of the number when it
/// is an integer within the `i64` range, and nothing otherwise.
#[verifier::external_body]
pub(crate) fn number_as_integer(n: &serde_json::Number) -> (r: Option<i64>)
    ensures
        r == number_int_of(*n),
{
    n.as_i64()
}

/// Relies on `serde_json::Number::as_f64`, which is total on JSON numbers:
/// the number as the nearest 64-bit float, decomposed into its bit pattern,
/// its decimal rendering, and its truncation to `i64` (saturating, as the
/// `as` cast does).
#[verifier::external_body]
pub(crate) fn number_as_float(n: &serde_json::Number) -> (r: Option<FloatValue>)
    ensures
        match r {
            Some(f) => f.bits == number_float_of(*n).0 && f.text@ == number_float_of(*n).1
                && f.trunc == number_float_of(*n).2,
            None => false,
        },
{
    match n.as_f64() {
        Some(x) => Some(FloatValue { bits: x.to_bits(), text: x.to_string(), trunc: x as i64 }),
        None => None,
    }
}

/// Relies on `serde_json::Value`'s `Display`: the compact JSON text of an
/// array or object, the textual fallback for nested values.
#[verifier::external_body]
pub(crate) fn json_value_text(v: &serde_json::Value) -> (r: String)
    ensures
        json_model_of(*v) matches JsonModel::Arr { text, .. } ==> r@ == text,
        json_model_of(*v) matches JsonModel::Obj { text, .. } ==> r@ == text,
{
    v.to_string()
}

/// Relies on `serde_json::Value`'s `Clone`: the copy holds the same
/// document model.
#[verifier::external_body]
pub(crate) fn clone_json_value(v: &serde_json::Value) -> (r: serde_json::Value)
    ensures
        json_model_of(r) == json_model_of(*v),
{
    v.clone()
}

/// The bit pattern of the 64-bit float nearest to `i`: a function of `i`
/// alone.
pub uninterp spec fn double_bits_of_int(i: i64) -> u64;

/// Relies on `serde_json::Number::as_f64` applied to `Number::from(i)`: the
/// conversion of an integer to the nearest 64-bit float depends on the
/// integer alone.
#[verifier::external_body]
pub(crate) fn int_to_double_bits(i: i64) -> (r: u64)
    ensures
        r == double_bits_of_int(i),
{
    serde_json::Number::from(i).as_f64().map(|x| x.to_bits()).unwrap_or(0)
}

} // verus!
