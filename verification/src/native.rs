//! The value bridge: total conversion between the JSON-like [`Value`] model
//! and the interpreter's native object model, in both directions.
//!
//! The native model is a closed union of the shapes the interpreter can hand
//! over as results or bridge-call arguments. Booleans stand apart from
//! integers even though the interpreter treats a boolean as an integer
//! subtype: the bridge tests the more specific shape first, so a boolean is
//! never misclassified as a number. Any other object falls to the last-resort
//! branch, which carries only the outcome of a boolean coercion attempt.

use vstd::prelude::*;

use crate::value::{float_bits_finite, float_free, value_wf, Number, Value};

verus! {

/// A native object, as the bridge sees it: one of the supported shapes, or
/// `Opaque` for any other object, carrying only whether a boolean coercion of
/// it succeeded (and with which result).
#[derive(Debug, PartialEq)]
pub enum NativeValue {
    Str(String),
    Bool(bool),
    Int(i128),
    Float(u64),
    Nil,
    List(Vec<NativeValue>),
    Dict(Vec<(NativeValue, NativeValue)>),
    Opaque { truthy: Option<bool> },
}

/// The fatal tier of the error design: a native object holds a shape the
/// JSON-like model cannot represent. These are contract violations, kept
/// distinct from script failures, and are never folded into an evaluation
/// error.
#[derive(Clone, Copy, Debug, PartialEq)]
pub enum BridgeError {
    /// An integer that does not fit in 64 signed bits.
    IntegerOverflow,
    /// A floating-point value with no finite JSON representation.
    NonFiniteFloat,
    /// A mapping whose key is not a string.
    NonStringKey,
    /// An object outside the supported shapes whose boolean coercion failed.
    UnsupportedType,
}

/// Structural equality of two values: same shape everywhere, strings equal as
/// character sequences, numbers equal as representations.
pub open spec fn value_eq(a: Value, b: Value) -> bool
    decreases a,
{
    match (a, b) {
        (Value::Null, Value::Null) => true,
        (Value::Bool(x), Value::Bool(y)) => x == y,
        (Value::Num(x), Value::Num(y)) => x == y,
        (Value::Str(x), Value::Str(y)) => x@ == y@,
        (Value::Array(xs), Value::Array(ys)) => xs@.len() == ys@.len() && forall|i: int|
            0 <= i < xs@.len() ==> value_eq(#[trigger] xs@[i], ys@[i]),
        (Value::Object(xs), Value::Object(ys)) => xs@.len() == ys@.len() && forall|i: int|
            0 <= i < xs@.len() ==> (#[trigger] xs@[i]).0@ == ys@[i].0@ && value_eq(
                xs@[i].1,
                ys@[i].1,
            ),
        _ => false,
    }
}

/// The native objects the bridge can carry into the JSON-like model: integers
/// within 64 signed bits, finite floats, lists and string-keyed mappings of
/// such objects, and otherwise-opaque objects that coerce to a boolean.
pub open spec fn convertible(n: NativeValue) -> bool
    decreases n,
{
    match n {
        NativeValue::Str(_) => true,
        NativeValue::Bool(_) => true,
        NativeValue::Int(i) => i64::MIN <= i <= i64::MAX,
        NativeValue::Float(bits) => float_bits_finite(bits),
        NativeValue::Nil => true,
        NativeValue::List(xs) => forall|i: int|
            0 <= i < xs@.len() ==> convertible(#[trigger] xs@[i]),
        NativeValue::Dict(es) => forall|i: int|
            0 <= i < es@.len() ==> (#[trigger] es@[i]).0 is Str && convertible(es@[i].1),
        NativeValue::Opaque { truthy } => truthy is Some,
    }
}

/// How many entries of a container node remain at or after position `i`; the
/// second component of the termination measure of [`conv_err_at`].
pub open spec fn entries_left(n: NativeValue, i: int) -> int {
    match n {
        NativeValue::List(xs) => xs@.len() - i,
        NativeValue::Dict(es) => es@.len() - i,
        _ => 0,
    }
}

/// The error reported for a non-convertible native object, scanning a
/// container from entry `i` on: the first offending entry decides, a key
/// failing before the value under it, depth first. Meaningful only when the
/// object is not convertible.
pub open spec fn conv_err_at(n: NativeValue, i: int) -> BridgeError
    decreases n, entries_left(n, i),
{
    match n {
        NativeValue::Str(_) => BridgeError::UnsupportedType,
        NativeValue::Bool(_) => BridgeError::UnsupportedType,
        NativeValue::Int(_) => BridgeError::IntegerOverflow,
        NativeValue::Float(_) => BridgeError::NonFiniteFloat,
        NativeValue::Nil => BridgeError::UnsupportedType,
        NativeValue::List(xs) => if !(0 <= i < xs@.len()) {
            BridgeError::UnsupportedType
        } else if !convertible(xs@[i]) {
            conv_err_at(xs@[i], 0)
        } else {
            conv_err_at(n, i + 1)
        },
        NativeValue::Dict(es) => if !(0 <= i < es@.len()) {
            BridgeError::UnsupportedType
        } else if !(es@[i].0 is Str) {
            BridgeError::NonStringKey
        } else if !convertible(es@[i].1) {
            conv_err_at(es@[i].1, 0)
        } else {
            conv_err_at(n, i + 1)
        },
        NativeValue::Opaque { .. } => BridgeError::UnsupportedType,
    }
}

/// The error reported for a non-convertible native object.
pub open spec fn conv_err(n: NativeValue) -> BridgeError {
    conv_err_at(n, 0)
}

/// What the native-to-value direction returns on success: the value mirrors
/// the native object shape for shape, with booleans kept as booleans, opaque
/// objects replaced by their boolean coercion, and every mapping key a
/// string.
pub open spec fn to_value_ok_rel(n: NativeValue, v: Value) -> bool
    decreases n,
{
    match n {
        NativeValue::Str(s) => v matches Value::Str(t) && t@ == s@,
        NativeValue::Bool(b) => v == Value::Bool(b),
        NativeValue::Int(i) => i64::MIN <= i <= i64::MAX && v == Value::Num(
            Number::Int(i as i64),
        ),
        NativeValue::Float(bits) => float_bits_finite(bits) && v == Value::Num(
            Number::Float(bits),
        ),
        NativeValue::Nil => v == Value::Null,
        NativeValue::List(xs) => v matches Value::Array(elems) && elems@.len() == xs@.len()
            && forall|i: int|
            0 <= i < xs@.len() ==> to_value_ok_rel(#[trigger] xs@[i], elems@[i]),
        NativeValue::Dict(es) => v matches Value::Object(entries) && entries@.len() == es@.len()
            && forall|i: int|
            0 <= i < es@.len() ==> ((#[trigger] es@[i]).0 matches NativeValue::Str(k)
                && entries@[i].0@ == k@ && to_value_ok_rel(es@[i].1, entries@[i].1)),
        NativeValue::Opaque { truthy } => truthy matches Some(b) && v == Value::Bool(b),
    }
}

/// The full contract of the native-to-value direction: a convertible object
/// yields exactly its mirrored value, a non-convertible one yields exactly
/// the error of its first offending part.
pub open spec fn to_value_rel(n: NativeValue, r: Result<Value, BridgeError>) -> bool {
    match r {
        Ok(v) => convertible(n) && to_value_ok_rel(n, v),
        Err(e) => !convertible(n) && e == conv_err(n),
    }
}

/// What the value-to-native direction returns: null becomes the unit object,
/// integers and floats keep their representation, strings are copied, arrays
/// and objects convert entry by entry with order kept.
pub open spec fn to_native_rel(v: Value, n: NativeValue) -> bool
    decreases v,
{
    match v {
        Value::Null => n == NativeValue::Nil,
        Value::Bool(b) => n == NativeValue::Bool(b),
        Value::Num(Number::Int(i)) => n == NativeValue::Int(i as i128),
        Value::Num(Number::Float(bits)) => n == NativeValue::Float(bits),
        Value::Str(s) => n matches NativeValue::Str(t) && t@ == s@,
        Value::Array(elems) => n matches NativeValue::List(xs) && xs@.len() == elems@.len()
            && forall|i: int|
            0 <= i < elems@.len() ==> to_native_rel(#[trigger] elems@[i], xs@[i]),
        Value::Object(entries) => n matches NativeValue::Dict(es) && es@.len() == entries@.len()
            && forall|i: int|
            0 <= i < entries@.len() ==> ((#[trigger] es@[i]).0 matches NativeValue::Str(k)
                && k@ == entries@[i].0@ && to_native_rel(entries@[i].1, es@[i].1)),
    }
}

/// Converts a value to a native object. Total over the five variants: every
/// value has a native image.
pub fn to_native(v: &Value) -> (n: NativeValue)
    ensures
        to_native_rel(*v, n),
    decreases v,
{
    match v {
        Value::Null => NativeValue::Nil,
        Value::Bool(b) => NativeValue::Bool(*b),
        Value::Num(Number::Int(i)) => NativeValue::Int(*i as i128),
        Value::Num(Number::Float(bits)) => NativeValue::Float(*bits),
        Value::Str(s) => NativeValue::Str(s.clone()),
        Value::Array(elems) => {
            let mut xs: Vec<NativeValue> = Vec::new();
            let mut j: usize = 0;
            while j < elems.len()
                invariant
                    *v == Value::Array(*elems),
                    j <= elems@.len(),
                    xs@.len() == j,
                    forall|k: int| 0 <= k < j ==> to_native_rel(elems@[k], #[trigger] xs@[k]),
                decreases elems@.len() - j,
            {
                proof {
                    assert(decreases_to!(*v => v->Array_0));
                    assert(decreases_to!(*elems => elems@[j as int]));
                }
                xs.push(to_native(&elems[j]));
                j += 1;
            }
            NativeValue::List(xs)
        },
        Value::Object(entries) => {
            let mut es: Vec<(NativeValue, NativeValue)> = Vec::new();
            let mut j: usize = 0;
            while j < entries.len()
                invariant
                    *v == Value::Object(*entries),
                    j <= entries@.len(),
                    es@.len() == j,
                    forall|k: int|
                        0 <= k < j ==> ((#[trigger] es@[k]).0 matches NativeValue::Str(key)
                            && key@ == entries@[k].0@ && to_native_rel(entries@[k].1, es@[k].1)),
                decreases entries@.len() - j,
            {
                let entry = &entries[j];
                proof {
                    assert(decreases_to!(*v => v->Object_0));
                    assert(decreases_to!(*entries => entries@[j as int]));
                    assert(decreases_to!(entries@[j as int] => entries@[j as int].1));
                }
                es.push((NativeValue::Str(entry.0.clone()), to_native(&entry.1)));
                j += 1;
            }
            NativeValue::Dict(es)
        },
    }
}

/// Tests the exponent field of a 64-bit float representation for finiteness.
pub fn bits_finite(bits: u64) -> (r: bool)
    ensures
        r == float_bits_finite(bits),
{
    (bits >> 52) & 0x7ff != 0x7ff
}

/// Walking a convertible prefix of a list does not change which error the
/// scan reports.
proof fn lemma_list_err_walk(n: NativeValue, xs: Vec<NativeValue>, j: int)
    requires
        n == NativeValue::List(xs),
        0 <= j < xs@.len(),
        forall|k: int| 0 <= k < j ==> convertible(#[trigger] xs@[k]),
    ensures
        conv_err_at(n, 0) == conv_err_at(n, j),
    decreases j,
{
    if j > 0 {
        lemma_list_err_walk(n, xs, j - 1);
    }
}

/// Walking a convertible prefix of a mapping does not change which error the
/// scan reports.
proof fn lemma_dict_err_walk(n: NativeValue, es: Vec<(NativeValue, NativeValue)>, j: int)
    requires
        n == NativeValue::Dict(es),
        0 <= j < es@.len(),
        forall|k: int|
            0 <= k < j ==> (#[trigger] es@[k]).0 is Str && convertible(es@[k].1),
    ensures
        conv_err_at(n, 0) == conv_err_at(n, j),
    decreases j,
{
    if j > 0 {
        lemma_dict_err_walk(n, es, j - 1);
    }
}

/// Converts a native object to a value. Returns the mirrored value exactly
/// when the object is convertible, and otherwise the error of the first
/// offending part.
pub fn to_value(n: &NativeValue) -> (r: Result<Value, BridgeError>)
    ensures
        to_value_rel(*n, r),
        r is Ok <==> convertible(*n),
    decreases n,
{
    match n {
        NativeValue::Str(s) => Ok(Value::Str(s.clone())),
        NativeValue::Bool(b) => Ok(Value::Bool(*b)),
        NativeValue::Int(i) => {
            if i64::MIN as i128 <= *i && *i <= i64::MAX as i128 {
                Ok(Value::Num(Number::Int(*i as i64)))
            } else {
                Err(BridgeError::IntegerOverflow)
            }
        },
        NativeValue::Float(bits) => {
            if bits_finite(*bits) {
                Ok(Value::Num(Number::Float(*bits)))
            } else {
                Err(BridgeError::NonFiniteFloat)
            }
        },
        NativeValue::Nil => Ok(Value::Null),
        NativeValue::List(xs) => {
            let mut elems: Vec<Value> = Vec::new();
            let mut j: usize = 0;
            while j < xs.len()
                invariant
                    j <= xs@.len(),
                    elems@.len() == j,
                    *n == NativeValue::List(*xs),
                    forall|k: int| 0 <= k < j ==> convertible(#[trigger] xs@[k]),
                    forall|k: int|
                        0 <= k < j ==> to_value_ok_rel(#[trigger] xs@[k], elems@[k]),
                decreases xs@.len() - j,
            {
                proof {
                    assert(decreases_to!(*n => n->List_0));
                    assert(decreases_to!(*xs => xs@[j as int]));
                }
                match to_value(&xs[j]) {
                    Ok(v) => {
                        elems.push(v);
                    },
                    Err(e) => {
                        proof {
                            lemma_list_err_walk(*n, *xs, j as int);
                        }
                        return Err(e);
                    },
                }
                j += 1;
            }
            Ok(Value::Array(elems))
        },
        NativeValue::Dict(es) => {
            let mut entries: Vec<(String, Value)> = Vec::new();
            let mut j: usize = 0;
            while j < es.len()
                invariant
                    j <= es@.len(),
                    entries@.len() == j,
                    *n == NativeValue::Dict(*es),
                    forall|k: int|
                        0 <= k < j ==> (#[trigger] es@[k]).0 is Str && convertible(es@[k].1),
                    forall|k: int|
                        0 <= k < j ==> ((#[trigger] es@[k]).0 matches NativeValue::Str(key)
                            && entries@[k].0@ == key@ && to_value_ok_rel(es@[k].1, entries@[k].1)),
                decreases es@.len() - j,
            {
                let entry = &es[j];
                proof {
                    assert(decreases_to!(*n => n->Dict_0));
                    assert(decreases_to!(*es => es@[j as int]));
                    assert(decreases_to!(es@[j as int] => es@[j as int].1));
                }
                let key = match &entry.0 {
                    NativeValue::Str(k) => k.clone(),
                    _ => {
                        proof {
                            lemma_dict_err_walk(*n, *es, j as int);
                        }
                        return Err(BridgeError::NonStringKey);
                    },
                };
                match to_value(&entry.1) {
                    Ok(v) => {
                        entries.push((key, v));
                    },
                    Err(e) => {
                        proof {
                            lemma_dict_err_walk(*n, *es, j as int);
                        }
                        return Err(e);
                    },
                }
                j += 1;
            }
            Ok(Value::Object(entries))
        },
        NativeValue::Opaque { truthy } => {
            match truthy {
                Some(b) => Ok(Value::Bool(*b)),
                None => Err(BridgeError::UnsupportedType),
            }
        },
    }
}

/// The native image of a well-formed value is convertible, and the value
/// itself is among what converting that image back may return.
pub proof fn lemma_to_native_convertible(v: Value, n: NativeValue)
    requires
        value_wf(v),
        to_native_rel(v, n),
    ensures
        convertible(n),
        to_value_ok_rel(n, v),
    decreases v,
{
    match v {
        Value::Array(elems) => {
            let xs = n->List_0;
            assert forall|i: int| 0 <= i < xs@.len() implies convertible(#[trigger] xs@[i])
                && to_value_ok_rel(xs@[i], elems@[i]) by {
                lemma_to_native_convertible(elems@[i], xs@[i]);
            }
        },
        Value::Object(entries) => {
            let es = n->Dict_0;
            assert forall|i: int| 0 <= i < es@.len() implies (#[trigger] es@[i]).0 is Str
                && convertible(es@[i].1) && to_value_ok_rel(es@[i].1, entries@[i].1) by {
                lemma_to_native_convertible(entries@[i].1, es@[i].1);
            }
        },
        _ => {},
    }
}

/// Converting a native object back can yield only one value, up to structural
/// equality.
pub proof fn lemma_ok_rel_unique(n: NativeValue, a: Value, b: Value)
    requires
        to_value_ok_rel(n, a),
        to_value_ok_rel(n, b),
    ensures
        value_eq(a, b),
    decreases n,
{
    match n {
        NativeValue::List(xs) => {
            let ea = a->Array_0;
            let eb = b->Array_0;
            assert forall|i: int| 0 <= i < ea@.len() implies value_eq(
                #[trigger] ea@[i],
                eb@[i],
            ) by {
                lemma_ok_rel_unique(xs@[i], ea@[i], eb@[i]);
            }
        },
        NativeValue::Dict(es) => {
            let ea = a->Object_0;
            let eb = b->Object_0;
            assert forall|i: int| 0 <= i < ea@.len() implies (#[trigger] ea@[i]).0@ == eb@[i].0@
                && value_eq(ea@[i].1, eb@[i].1) by {
                lemma_ok_rel_unique(es@[i].1, ea@[i].1, eb@[i].1);
            }
        },
        _ => {},
    }
}

/// Round trip: converting any well-formed value to a native object and back
/// succeeds and returns the value unchanged, up to structural equality. Exact
/// for every integer and for every finite float representation.
pub proof fn lemma_value_round_trip(v: Value, n: NativeValue, r: Result<Value, BridgeError>)
    requires
        value_wf(v),
        to_native_rel(v, n),
        to_value_rel(n, r),
    ensures
        r matches Ok(w) && value_eq(v, w),
{
    lemma_to_native_convertible(v, n);
    let w = r->Ok_0;
    lemma_ok_rel_unique(n, v, w);
}

/// Round trip of an object: every key, however arbitrary the string, comes
/// back unchanged in its place, together with the value under it.
pub proof fn lemma_object_round_trip(
    entries: Vec<(String, Value)>,
    n: NativeValue,
    r: Result<Value, BridgeError>,
)
    requires
        value_wf(Value::Object(entries)),
        to_native_rel(Value::Object(entries), n),
        to_value_rel(n, r),
    ensures
        r matches Ok(w) && w matches Value::Object(out) && out@.len() == entries@.len()
            && forall|i: int|
            0 <= i < entries@.len() ==> (#[trigger] out@[i]).0@ == entries@[i].0@ && value_eq(
                entries@[i].1,
                out@[i].1,
            ),
{
    lemma_value_round_trip(Value::Object(entries), n, r);
    let w = r->Ok_0;
    let out = w->Object_0;
    assert forall|i: int| 0 <= i < entries@.len() implies (#[trigger] out@[i]).0@
        == entries@[i].0@ && value_eq(entries@[i].1, out@[i].1) by {
        assert(entries@[i].0@ == out@[i].0@ && value_eq(entries@[i].1, out@[i].1));
    }
}

/// Fixed point: null round-trips to exactly itself.
pub proof fn lemma_null_fixed_point(n: NativeValue, r: Result<Value, BridgeError>)
    requires
        to_native_rel(Value::Null, n),
        to_value_rel(n, r),
    ensures
        r == Ok::<Value, BridgeError>(Value::Null),
{
}

/// Fixed point: the empty array round-trips to an empty array.
pub proof fn lemma_empty_array_fixed_point(
    elems: Vec<Value>,
    n: NativeValue,
    r: Result<Value, BridgeError>,
)
    requires
        elems@.len() == 0,
        to_native_rel(Value::Array(elems), n),
        to_value_rel(n, r),
    ensures
        r matches Ok(w) && w matches Value::Array(out) && out@.len() == 0,
{
}

/// Fixed point: the empty object round-trips to an empty object.
pub proof fn lemma_empty_object_fixed_point(
    entries: Vec<(String, Value)>,
    n: NativeValue,
    r: Result<Value, BridgeError>,
)
    requires
        entries@.len() == 0,
        to_native_rel(Value::Object(entries), n),
        to_value_rel(n, r),
    ensures
        r matches Ok(w) && w matches Value::Object(out) && out@.len() == 0,
{
}

/// A native object holding no floating-point value anywhere.
pub open spec fn native_float_free(n: NativeValue) -> bool
    decreases n,
{
    match n {
        NativeValue::Str(_) => true,
        NativeValue::Bool(_) => true,
        NativeValue::Int(_) => true,
        NativeValue::Float(_) => false,
        NativeValue::Nil => true,
        NativeValue::List(xs) => forall|i: int|
            0 <= i < xs@.len() ==> native_float_free(#[trigger] xs@[i]),
        NativeValue::Dict(es) => forall|i: int|
            0 <= i < es@.len() ==> native_float_free(#[trigger] es@[i].1),
        NativeValue::Opaque { .. } => true,
    }
}

/// Whether the converted value holds a float is decided by the native object
/// alone.
pub proof fn lemma_ok_rel_float_free(n: NativeValue, v: Value)
    requires
        to_value_ok_rel(n, v),
    ensures
        float_free(v) == native_float_free(n),
    decreases n,
{
    match n {
        NativeValue::List(xs) => {
            let elems = v->Array_0;
            assert forall|i: int| 0 <= i < xs@.len() implies float_free(#[trigger] elems@[i])
                == native_float_free(xs@[i]) by {
                lemma_ok_rel_float_free(xs@[i], elems@[i]);
            }
            assert(float_free(v) <==> forall|i: int|
                0 <= i < elems@.len() ==> float_free(#[trigger] elems@[i]));
        },
        NativeValue::Dict(es) => {
            let entries = v->Object_0;
            assert forall|i: int| 0 <= i < es@.len() implies float_free(
                #[trigger] entries@[i].1,
            ) == native_float_free(es@[i].1) by {
                lemma_ok_rel_float_free(es@[i].1, entries@[i].1);
            }
            assert(float_free(v) <==> forall|i: int|
                0 <= i < entries@.len() ==> float_free(#[trigger] entries@[i].1));
        },
        _ => {},
    }
}

} // verus!
