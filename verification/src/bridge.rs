//! The bridge functions' verifiable cores: what the mock forwarding call
//! computes, and how the forwarding call's reply turns back into a native
//! object.
//!
//! The callables installed into the execution scope receive native objects;
//! their argument conversion, response synthesis and reply conversion all
//! stand here. The wire codec and the outbound transport themselves are the
//! surrounding collaborators: they carry bytes, and hand values back in.

use vstd::prelude::*;

use crate::codec::{json_msgpack_bytes, json_to_msgpack, msgpack_encodable};
use crate::exception::{ExcArg, ExceptionReport};
use crate::native::{
    conv_err, convertible, lemma_ok_rel_float_free, lemma_ok_rel_unique, native_float_free,
    to_native, to_native_rel, to_value, to_value_ok_rel, value_eq, BridgeError, NativeValue,
};
use crate::text::{arr_chars, json_chars, json_to_string, obj_chars, obj_entry_chars};
use crate::value::{float_free, Value};

verus! {

/// The synthetic payload the mock forwarding call builds and pushes through
/// the wire-format round trip.
#[derive(Clone, Debug, PartialEq)]
pub struct MockType {
    pub prop: String,
}

/// The text of the mock payload: target, method, and the JSON text of the
/// arguments, slash-separated.
pub open spec fn mock_prop_chars(uri: Seq<char>, method: Seq<char>, args: Value) -> Seq<char> {
    uri + "/"@ + method + "/"@ + json_chars(args)
}

/// Values equal up to structural equality have the same JSON text.
pub proof fn lemma_json_chars_respects_eq(a: Value, b: Value)
    requires
        value_eq(a, b),
    ensures
        json_chars(a) == json_chars(b),
    decreases a,
{
    match a {
        Value::Array(xs) => {
            let ys = b->Array_0;
            lemma_arr_chars_pointwise(xs@, ys@);
        },
        Value::Object(xs) => {
            let ys = b->Object_0;
            lemma_obj_chars_pointwise(xs@, ys@);
        },
        _ => {},
    }
}

/// Pointwise structurally equal element sequences have the same array text.
proof fn lemma_arr_chars_pointwise(xs: Seq<Value>, ys: Seq<Value>)
    requires
        xs.len() == ys.len(),
        forall|i: int| 0 <= i < xs.len() ==> value_eq(#[trigger] xs[i], ys[i]),
    ensures
        arr_chars(xs) == arr_chars(ys),
    decreases xs,
{
    if xs.len() == 1 {
        lemma_json_chars_respects_eq(xs[0], ys[0]);
    } else if xs.len() > 1 {
        lemma_arr_chars_pointwise(xs.drop_last(), ys.drop_last());
        lemma_json_chars_respects_eq(xs.last(), ys.last());
    }
}

/// Pointwise equal-keyed, structurally equal-valued entry sequences have the
/// same object text.
proof fn lemma_obj_chars_pointwise(xs: Seq<(String, Value)>, ys: Seq<(String, Value)>)
    requires
        xs.len() == ys.len(),
        forall|i: int|
            0 <= i < xs.len() ==> (#[trigger] xs[i]).0@ == ys[i].0@ && value_eq(xs[i].1, ys[i].1),
    ensures
        obj_chars(xs) == obj_chars(ys),
    decreases xs,
{
    if xs.len() == 1 {
        lemma_json_chars_respects_eq(xs[0].1, ys[0].1);
        assert(obj_entry_chars(xs[0]) == obj_entry_chars(ys[0]));
    } else if xs.len() > 1 {
        lemma_obj_chars_pointwise(xs.drop_last(), ys.drop_last());
        lemma_json_chars_respects_eq(xs.last().1, ys.last().1);
        assert(obj_entry_chars(xs.last()) == obj_entry_chars(ys.last()));
    }
}

/// Builds the mock payload for a call: the slash-separated concatenation of
/// target, method, and the arguments' JSON text. Refused exactly when the
/// arguments hold a float, which the pinned text format does not render.
pub fn mock_payload(uri: &str, method: &str, args: &Value) -> (r: Option<MockType>)
    ensures
        r is Some <==> float_free(*args),
        r matches Some(m) ==> m.prop@ == mock_prop_chars(uri@, method@, *args),
{
    match json_to_string(args) {
        None => None,
        Some(text) => {
            let mut prop = String::new();
            prop.append(uri);
            prop.append("/");
            prop.append(method);
            prop.append("/");
            prop.append(text.as_str());
            proof {
                assert(prop@ =~= mock_prop_chars(uri@, method@, *args));
            }
            Some(MockType { prop })
        },
    }
}

/// What stopped a bridge call before it could produce its payload or
/// response.
#[derive(Clone, Copy, Debug, PartialEq)]
pub enum CallError {
    /// The arguments hold a shape the value bridge cannot represent.
    Bridge(BridgeError),
    /// The arguments hold a float, which the pinned text format does not
    /// render.
    FloatInArgs,
    /// The wire codec refused to encode the payload.
    Encode,
}

/// The mock forwarding call: performs no host call. The arguments convert
/// through the value bridge; the response is the native string holding the
/// slash-separated concatenation of target, method, and the arguments' JSON
/// text, unchanged by its round trip through the wire format.
pub fn mock_subinvoke(uri: &str, method: &str, args: &NativeValue) -> (r: Result<
    NativeValue,
    CallError,
>)
    ensures
        r is Ok <==> convertible(*args) && native_float_free(*args),
        r matches Ok(out) ==> (out matches NativeValue::Str(s) && forall|v: Value|
            to_value_ok_rel(*args, v) ==> s@ == mock_prop_chars(uri@, method@, v)),
        !convertible(*args) ==> r == Err::<NativeValue, CallError>(
            CallError::Bridge(conv_err(*args)),
        ),
        convertible(*args) && !native_float_free(*args) ==> r == Err::<NativeValue, CallError>(
            CallError::FloatInArgs,
        ),
{
    let value = match to_value(args) {
        Ok(v) => v,
        Err(e) => {
            return Err(CallError::Bridge(e));
        },
    };
    proof {
        lemma_ok_rel_float_free(*args, value);
    }
    match mock_payload(uri, method, &value) {
        None => Err(CallError::FloatInArgs),
        Some(payload) => {
            proof {
                assert forall|v: Value| to_value_ok_rel(*args, v) implies payload.prop@
                    == mock_prop_chars(uri@, method@, v) by {
                    lemma_ok_rel_unique(*args, v, value);
                    lemma_json_chars_respects_eq(v, value);
                }
            }
            Ok(NativeValue::Str(payload.prop))
        },
    }
}

/// What the forwarding call hands back to the script once the transport has
/// answered: a decoded reply value converts to its native object; a
/// transport or decoding failure converts to the native string carrying the
/// failure's description. Either way the call returns a native object.
pub fn subinvoke_reply(reply: Result<Value, String>) -> (r: NativeValue)
    ensures
        reply matches Ok(v) ==> to_native_rel(v, r),
        reply matches Err(m) ==> (r matches NativeValue::Str(s) && s@ == m@),
{
    match reply {
        Ok(v) => to_native(&v),
        Err(m) => NativeValue::Str(m),
    }
}

/// Prepares the forwarding call's outbound payload: the argument object
/// converted through the value bridge, rendered as JSON text, and encoded
/// into the wire format for the transport. The payload is owed for every
/// convertible, float-free argument whose text the codec accepts; the fatal
/// tier surfaces as the bridge error of the first offending part.
pub fn subinvoke_request(args: &NativeValue) -> (r: Result<Vec<u8>, CallError>)
    ensures
        r is Ok <==> (convertible(*args) && native_float_free(*args) && forall|v: Value|
            to_value_ok_rel(*args, v) ==> msgpack_encodable(json_chars(v))),
        r matches Ok(b) ==> forall|v: Value|
            to_value_ok_rel(*args, v) ==> b@ == json_msgpack_bytes(json_chars(v)),
        !convertible(*args) ==> r == Err::<Vec<u8>, CallError>(
            CallError::Bridge(conv_err(*args)),
        ),
        convertible(*args) && !native_float_free(*args) ==> r == Err::<Vec<u8>, CallError>(
            CallError::FloatInArgs,
        ),
        r is Err && convertible(*args) && native_float_free(*args) ==> r == Err::<
            Vec<u8>,
            CallError,
        >(CallError::Encode),
{
    let value = match to_value(args) {
        Ok(v) => v,
        Err(e) => {
            return Err(CallError::Bridge(e));
        },
    };
    proof {
        lemma_ok_rel_float_free(*args, value);
    }
    let text = match json_to_string(&value) {
        Some(t) => t,
        None => {
            return Err(CallError::FloatInArgs);
        },
    };
    match json_to_msgpack(text.as_str()) {
        Some(bytes) => {
            proof {
                assert forall|v: Value| to_value_ok_rel(*args, v) implies bytes@
                    == json_msgpack_bytes(json_chars(v)) && msgpack_encodable(
                    json_chars(v),
                ) by {
                    lemma_ok_rel_unique(*args, v, value);
                    lemma_json_chars_respects_eq(v, value);
                }
            }
            Ok(bytes)
        },
        None => {
            proof {
                assert(to_value_ok_rel(*args, value) && !msgpack_encodable(json_chars(value)));
            }
            Err(CallError::Encode)
        },
    }
}

/// The abort call's raised error: a fatal native exception carrying exactly
/// the given message as its single positional argument. The abort call never
/// returns to the script; execution unwinds with this exception.
pub fn abort_exception(message: String) -> (rep: ExceptionReport)
    ensures
        rep.args matches Some(args) && args@.len() == 1 && args@[0] == ExcArg::Text(message),
{
    let mut args: Vec<ExcArg> = Vec::new();
    args.push(ExcArg::Text(message));
    ExceptionReport { args: Some(args) }
}

} // verus!
