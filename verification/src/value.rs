//! The JSON-like value model used at the host boundary.

use vstd::prelude::*;

verus! {

/// A JSON-like number: either a 64-bit signed integer or a 64-bit IEEE 754
/// floating-point value carried by its bit pattern. Carrying the bits keeps
/// the model exact: two numbers are the same number exactly when their
/// representations agree.
#[derive(Clone, Copy, Debug, PartialEq)]
pub enum Number {
    Int(i64),
    Float(u64),
}

/// The tagged union crossing the host boundary: null, boolean, number,
/// string, ordered array, and object. An object is an ordered sequence of
/// key/value entries; insertion order is kept and keys are expected unique.
#[derive(Debug, PartialEq)]
pub enum Value {
    Null,
    Bool(bool),
    Num(Number),
    Str(String),
    Array(Vec<Value>),
    Object(Vec<(String, Value)>),
}

/// The bit pattern of a 64-bit IEEE 754 value is finite (neither an infinity
/// nor a NaN) exactly when its exponent field is not all ones.
pub open spec fn float_bits_finite(bits: u64) -> bool {
    (bits >> 52) & 0x7ff != 0x7ff
}

/// A number the bridge can always carry back and forth: any integer, and any
/// finite float. Non-finite floats have no place in the JSON value model.
pub open spec fn number_wf(n: Number) -> bool {
    match n {
        Number::Int(_) => true,
        Number::Float(bits) => float_bits_finite(bits),
    }
}

/// A value is well formed when every number in it is well formed.
pub open spec fn value_wf(v: Value) -> bool
    decreases v,
{
    match v {
        Value::Null => true,
        Value::Bool(_) => true,
        Value::Num(n) => number_wf(n),
        Value::Str(_) => true,
        Value::Array(elems) => forall|i: int|
            0 <= i < elems@.len() ==> value_wf(#[trigger] elems@[i]),
        Value::Object(entries) => forall|i: int|
            0 <= i < entries@.len() ==> value_wf(#[trigger] entries@[i].1),
    }
}

/// A value that holds no floating-point number at all, integral or not.
pub open spec fn float_free(v: Value) -> bool
    decreases v,
{
    match v {
        Value::Null => true,
        Value::Bool(_) => true,
        Value::Num(n) => n is Int,
        Value::Str(_) => true,
        Value::Array(elems) => forall|i: int|
            0 <= i < elems@.len() ==> float_free(#[trigger] elems@[i]),
        Value::Object(entries) => forall|i: int|
            0 <= i < entries@.len() ==> float_free(#[trigger] entries@[i].1),
    }
}

} // verus!
