use script_eval::native::{to_native, to_value, BridgeError, NativeValue};
use script_eval::value::{Number, Value};

fn num(i: i64) -> Value {
    Value::Num(Number::Int(i))
}

fn obj(entries: Vec<(&str, Value)>) -> Value {
    Value::Object(entries.into_iter().map(|(k, v)| (k.to_string(), v)).collect())
}

fn round_trip(v: Value) -> Value {
    let n = to_native(&v);
    to_value(&n).expect("round trip must succeed")
}

#[test]
fn round_trip_scalars() {
    assert_eq!(round_trip(Value::Null), Value::Null);
    assert_eq!(round_trip(Value::Bool(true)), Value::Bool(true));
    assert_eq!(round_trip(Value::Bool(false)), Value::Bool(false));
    assert_eq!(round_trip(num(0)), num(0));
    assert_eq!(round_trip(num(-5)), num(-5));
    assert_eq!(round_trip(num(i64::MAX)), num(i64::MAX));
    assert_eq!(round_trip(num(i64::MIN)), num(i64::MIN));
    assert_eq!(
        round_trip(Value::Str("hey you".to_string())),
        Value::Str("hey you".to_string())
    );
}

#[test]
fn round_trip_floats_exact() {
    let bits = 1.5f64.to_bits();
    assert_eq!(
        round_trip(Value::Num(Number::Float(bits))),
        Value::Num(Number::Float(bits))
    );
    let tiny = f64::MIN_POSITIVE.to_bits();
    assert_eq!(
        round_trip(Value::Num(Number::Float(tiny))),
        Value::Num(Number::Float(tiny))
    );
}

#[test]
fn round_trip_nested() {
    let v = Value::Array(vec![
        num(1),
        Value::Array(vec![Value::Bool(true), Value::Null]),
        obj(vec![("k", Value::Str("v".to_string()))]),
    ]);
    let expected = Value::Array(vec![
        num(1),
        Value::Array(vec![Value::Bool(true), Value::Null]),
        obj(vec![("k", Value::Str("v".to_string()))]),
    ]);
    assert_eq!(round_trip(v), expected);
}

#[test]
fn round_trip_fixed_points() {
    assert_eq!(round_trip(Value::Null), Value::Null);
    assert_eq!(round_trip(Value::Array(vec![])), Value::Array(vec![]));
    assert_eq!(round_trip(Value::Object(vec![])), Value::Object(vec![]));
}

#[test]
fn round_trip_object_keys() {
    let v = obj(vec![
        ("", num(1)),
        ("a\"b\\c", num(2)),
        ("sp ace", num(3)),
        ("k\u{00e4}se\u{263a}", num(4)),
        ("{\"nested\":[1,2]}", num(5)),
    ]);
    let expected = obj(vec![
        ("", num(1)),
        ("a\"b\\c", num(2)),
        ("sp ace", num(3)),
        ("k\u{00e4}se\u{263a}", num(4)),
        ("{\"nested\":[1,2]}", num(5)),
    ]);
    assert_eq!(round_trip(v), expected);
}

#[test]
fn native_boolean_is_not_a_number() {
    assert_eq!(
        to_value(&NativeValue::Bool(true)),
        Ok(Value::Bool(true))
    );
    assert_eq!(
        to_value(&NativeValue::Int(1)),
        Ok(num(1))
    );
}

#[test]
fn opaque_coerces_to_bool() {
    assert_eq!(
        to_value(&NativeValue::Opaque { truthy: Some(false) }),
        Ok(Value::Bool(false))
    );
}

#[test]
fn unsupported_opaque_is_fatal() {
    assert_eq!(
        to_value(&NativeValue::Opaque { truthy: None }),
        Err(BridgeError::UnsupportedType)
    );
}

#[test]
fn oversized_integer_is_fatal() {
    assert_eq!(
        to_value(&NativeValue::Int(i64::MAX as i128 + 1)),
        Err(BridgeError::IntegerOverflow)
    );
    assert_eq!(
        to_value(&NativeValue::Int(i64::MIN as i128 - 1)),
        Err(BridgeError::IntegerOverflow)
    );
    assert_eq!(to_value(&NativeValue::Int(i64::MAX as i128)), Ok(num(i64::MAX)));
}

#[test]
fn non_finite_float_is_fatal() {
    assert_eq!(
        to_value(&NativeValue::Float(f64::NAN.to_bits())),
        Err(BridgeError::NonFiniteFloat)
    );
    assert_eq!(
        to_value(&NativeValue::Float(f64::INFINITY.to_bits())),
        Err(BridgeError::NonFiniteFloat)
    );
    assert_eq!(
        to_value(&NativeValue::Float(f64::NEG_INFINITY.to_bits())),
        Err(BridgeError::NonFiniteFloat)
    );
}

#[test]
fn non_string_key_is_fatal() {
    let dict = NativeValue::Dict(vec![(NativeValue::Int(1), NativeValue::Nil)]);
    assert_eq!(to_value(&dict), Err(BridgeError::NonStringKey));
}

#[test]
fn first_offending_part_decides_the_error() {
    let list = NativeValue::List(vec![
        NativeValue::Int(3),
        NativeValue::Float(f64::NAN.to_bits()),
        NativeValue::Dict(vec![(NativeValue::Nil, NativeValue::Nil)]),
    ]);
    assert_eq!(to_value(&list), Err(BridgeError::NonFiniteFloat));

    let dict = NativeValue::Dict(vec![
        ("ok".to_string(), NativeValue::Int(1)),
        ("bad".to_string(), NativeValue::Opaque { truthy: None }),
    ]
    .into_iter()
    .map(|(k, v)| (NativeValue::Str(k), v))
    .collect());
    assert_eq!(to_value(&dict), Err(BridgeError::UnsupportedType));
}

#[test]
fn value_to_native_shapes() {
    assert_eq!(to_native(&Value::Null), NativeValue::Nil);
    assert_eq!(to_native(&num(7)), NativeValue::Int(7));
    assert_eq!(
        to_native(&Value::Str("s".to_string())),
        NativeValue::Str("s".to_string())
    );
    assert_eq!(
        to_native(&obj(vec![("k", Value::Null)])),
        NativeValue::Dict(vec![(NativeValue::Str("k".to_string()), NativeValue::Nil)])
    );
}
