//! Trusted boundary around `serde_json`, and the library's mathematical
//! model of a parsed JSON document.
//!
//! A `serde_json::Value` is opaque to the verifier; what it holds is named:
//! `value_tree` gives the tree a value holds, and `json_tree_of` gives the
//! tree that parsing a text yields, a function of the characters alone.
//! Every wrapper below states exactly what it hands out of that tree, so
//! the verified decoders and the classifier carry exact contracts all the
//! way down to the frame text.

use vstd::prelude::*;
use serde_json::Value;

verus! {

#[verifier::external_type_specification]
#[verifier::external_body]
pub struct ExValue(Value);

/// The mathematical value of a JSON document.  A number carries both what
/// it yields as a signed integer (where representable) and its value as
/// IEEE-754 bits, which is how the library holds the wire's floats.
pub ghost enum JsonV {
    Null,
    Bool(bool),
    Num { as_int: Option<i64>, as_bits: Option<u64> },
    Str(Seq<char>),
    Arr(Seq<JsonV>),
    Obj(Map<Seq<char>, JsonV>),
}

/// The tree a parsed JSON value holds.
pub uninterp spec fn value_tree(v: Value) -> JsonV;

/// The tree that parsing a text yields: `Some` exactly when the text is
/// one well-formed JSON document.  The answer depends on the characters
/// alone.
pub uninterp spec fn json_tree_of(text: Seq<char>) -> Option<JsonV>;

/// The array element at `i`.
pub open spec fn tree_index(t: JsonV, i: int) -> Option<JsonV> {
    match t {
        JsonV::Arr(a) => if 0 <= i < a.len() {
            Some(a[i])
        } else {
            None
        },
        _ => None,
    }
}

/// The object member named `name`.
pub open spec fn tree_field(t: JsonV, name: Seq<char>) -> Option<JsonV> {
    match t {
        JsonV::Obj(m) => if m.dom().contains(name) {
            Some(m[name])
        } else {
            None
        },
        _ => None,
    }
}

/// The characters a JSON string holds.
pub open spec fn tree_str(t: JsonV) -> Option<Seq<char>> {
    match t {
        JsonV::Str(s) => Some(s),
        _ => None,
    }
}

/// The signed integer a JSON number holds, where representable.
pub open spec fn tree_i64(t: JsonV) -> Option<i64> {
    match t {
        JsonV::Num { as_int, .. } => as_int,
        _ => None,
    }
}

/// The boolean a JSON value holds.
pub open spec fn tree_bool(t: JsonV) -> Option<bool> {
    match t {
        JsonV::Bool(b) => Some(b),
        _ => None,
    }
}

/// The IEEE-754 bits of the number a JSON value holds.
pub open spec fn tree_float_bits(t: JsonV) -> Option<u64> {
    match t {
        JsonV::Num { as_bits, .. } => as_bits,
        _ => None,
    }
}

/// The tree an optional value holds.
pub open spec fn opt_value_tree(r: Option<Value>) -> Option<JsonV> {
    match r {
        Some(v) => Some(value_tree(v)),
        None => None,
    }
}

/// Relies on serde_json::from_str: `Some` exactly when the text is one
/// well-formed JSON document, and then the parse of that document.
#[verifier::external_body]
pub(crate) fn parse_json(text: &str) -> (r: Option<Value>)
    ensures
        (r is Some) == (json_tree_of(text@) is Some),
        r matches Some(v) ==> Some(value_tree(v)) == json_tree_of(text@),
{
    serde_json::from_str::<Value>(text).ok()
}

/// Relies on serde_json::Value::get (by index): the array element at `i`,
/// `None` where the value is no array or has no such element; `cloned`
/// keeps the tree.
#[verifier::external_body]
pub(crate) fn json_index(v: &Value, i: usize) -> (r: Option<Value>)
    ensures
        opt_value_tree(r) == tree_index(value_tree(*v), i as int),
{
    v.get(i).cloned()
}

/// Relies on serde_json::Value::get (by key): the member named `name`,
/// `None` where the value is no object or has no such member; `cloned`
/// keeps the tree.
#[verifier::external_body]
pub(crate) fn json_field(v: &Value, name: &str) -> (r: Option<Value>)
    ensures
        opt_value_tree(r) == tree_field(value_tree(*v), name@),
{
    v.get(name).cloned()
}

/// Relies on serde_json::Value::is_object.
#[verifier::external_body]
pub(crate) fn json_is_object(v: &Value) -> (r: bool)
    ensures
        r == (value_tree(*v) is Obj),
{
    v.is_object()
}

/// Relies on serde_json::Value::as_str: the string a JSON string holds;
/// `to_string` keeps the characters.
#[verifier::external_body]
pub(crate) fn json_as_str(v: &Value) -> (r: Option<String>)
    ensures
        (r is Some) == (tree_str(value_tree(*v)) is Some),
        r matches Some(s) ==> Some(s@) == tree_str(value_tree(*v)),
{
    v.as_str().map(|s| s.to_string())
}

/// Relies on serde_json::Value::as_i64: the integer a JSON number holds,
/// where it is representable.
#[verifier::external_body]
pub(crate) fn json_as_i64(v: &Value) -> (r: Option<i64>)
    ensures
        r == tree_i64(value_tree(*v)),
{
    v.as_i64()
}

/// Relies on serde_json::Value::as_bool.
#[verifier::external_body]
pub(crate) fn json_as_bool(v: &Value) -> (r: Option<bool>)
    ensures
        r == tree_bool(value_tree(*v)),
{
    v.as_bool()
}

/// Relies on serde_json::Value::as_f64: the number a JSON number holds,
/// handed out as its IEEE-754 bit pattern, which the session logic stores
/// and clears but never computes with.
#[verifier::external_body]
pub(crate) fn json_as_float_bits(v: &Value) -> (r: Option<u64>)
    ensures
        r == tree_float_bits(value_tree(*v)),
{
    v.as_f64().map(|x| x.to_bits())
}

/// Relies on serde_json::Value::as_array: the elements of a JSON array;
/// `cloned` keeps each element's tree.
#[verifier::external_body]
pub(crate) fn json_as_array(v: &Value) -> (r: Option<Vec<Value>>)
    ensures
        (r is Some) == (value_tree(*v) is Arr),
        r matches Some(a) ==> {
            &&& a@.len() == value_tree(*v)->Arr_0.len()
            &&& forall|i: int| 0 <= i < a@.len() ==> value_tree(a@[i]) == value_tree(*v)->Arr_0[i]
        },
{
    v.as_array().cloned()
}

} // verus!
