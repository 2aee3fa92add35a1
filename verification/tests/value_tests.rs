//! Tests for the canonical value model and its conversions.

use libfjs::convert::{from_value, to_value, EngineEntry, EngineValue};
use libfjs::value::{JsEntry, JsValue};

#[test]
fn test_jsvalue_none() {
    let v = JsValue::Absent;
    assert!(v.is_none());
    assert!(!v.is_boolean());
    assert!(!v.is_number());
    assert!(!v.is_string());
    assert!(!v.is_array());
    assert!(!v.is_object());
    assert!(v.is_primitive());
    assert_eq!(v.type_of(), "null");
}

#[test]
fn test_jsvalue_boolean_true() {
    let v = JsValue::Boolean(true);
    assert!(v.is_boolean());
    assert!(!v.is_none());
    assert!(!v.is_number());
    assert!(v.is_primitive());
    assert_eq!(v.type_of(), "boolean");
}

#[test]
fn test_jsvalue_boolean_false() {
    let v = JsValue::Boolean(false);
    assert!(v.is_boolean());
    assert_eq!(v.type_of(), "boolean");
}

#[test]
fn test_jsvalue_integer_positive() {
    let v = JsValue::Integer(42);
    assert!(v.is_number());
    assert!(!v.is_boolean());
    assert!(v.is_primitive());
    assert_eq!(v.type_of(), "number");
}

#[test]
fn test_jsvalue_integer_negative() {
    let v = JsValue::Integer(-42);
    assert!(v.is_number());
    assert_eq!(v.type_of(), "number");
}

#[test]
fn test_jsvalue_integer_zero() {
    let v = JsValue::Integer(0);
    assert!(v.is_number());
}

#[test]
fn test_jsvalue_integer_max() {
    let v = JsValue::Integer(i64::MAX);
    assert!(v.is_number());
}

#[test]
fn test_jsvalue_integer_min() {
    let v = JsValue::Integer(i64::MIN);
    assert!(v.is_number());
}

#[test]
fn test_jsvalue_float_positive() {
    let v = JsValue::Float(3.14159f64.to_bits());
    assert!(v.is_number());
    assert!(v.is_primitive());
    assert_eq!(v.type_of(), "number");
}

#[test]
fn test_jsvalue_float_negative() {
    let v = JsValue::Float((-3.14159f64).to_bits());
    assert!(v.is_number());
}

#[test]
fn test_jsvalue_float_zero() {
    let v = JsValue::Float(0.0f64.to_bits());
    assert!(v.is_number());
}

#[test]
fn test_jsvalue_float_infinity() {
    let v = JsValue::Float(f64::INFINITY.to_bits());
    assert!(v.is_number());
}

#[test]
fn test_jsvalue_float_neg_infinity() {
    let v = JsValue::Float(f64::NEG_INFINITY.to_bits());
    assert!(v.is_number());
}

#[test]
fn test_jsvalue_float_nan() {
    let v = JsValue::Float(f64::NAN.to_bits());
    assert!(v.is_number());
}

#[test]
fn test_jsvalue_bigint() {
    let v = JsValue::Bigint("12345678901234567890".to_string());
    assert!(v.is_number());
    assert!(v.is_primitive());
    assert_eq!(v.type_of(), "bigint");
}

#[test]
fn test_jsvalue_bigint_negative() {
    let v = JsValue::Bigint("-12345678901234567890".to_string());
    assert!(v.is_number());
}

#[test]
fn test_jsvalue_string() {
    let v = JsValue::String("hello".to_string());
    assert!(v.is_string());
    assert!(!v.is_number());
    assert!(v.is_primitive());
    assert_eq!(v.type_of(), "string");
}

#[test]
fn test_jsvalue_string_empty() {
    let v = JsValue::String(String::new());
    assert!(v.is_string());
}

#[test]
fn test_jsvalue_string_unicode() {
    let v = JsValue::String("你好世界🌍".to_string());
    assert!(v.is_string());
}

#[test]
fn test_jsvalue_string_escape_chars() {
    let v = JsValue::String("line1\nline2\ttab".to_string());
    assert!(v.is_string());
}

#[test]
fn test_jsvalue_bytes() {
    let v = JsValue::Bytes(vec![0xCA, 0xFE, 0xBA, 0xBE]);
    assert!(v.is_bytes());
    assert!(!v.is_string());
    assert!(!v.is_primitive());
    assert_eq!(v.type_of(), "ArrayBuffer");
}

#[test]
fn test_jsvalue_bytes_empty() {
    let v = JsValue::Bytes(vec![]);
    assert!(v.is_bytes());
}

#[test]
fn test_jsvalue_array_empty() {
    let v = JsValue::Array(vec![]);
    assert!(v.is_array());
    assert!(!v.is_object());
    assert!(!v.is_primitive());
    assert_eq!(v.type_of(), "Array");
}

#[test]
fn test_jsvalue_array_integers() {
    let v = JsValue::Array(vec![
        JsValue::Integer(1),
        JsValue::Integer(2),
        JsValue::Integer(3),
    ]);
    assert!(v.is_array());
}

#[test]
fn test_jsvalue_array_mixed() {
    let v = JsValue::Array(vec![
        JsValue::Integer(1),
        JsValue::String("two".to_string()),
        JsValue::Boolean(true),
        JsValue::Absent,
    ]);
    assert!(v.is_array());
}

#[test]
fn test_jsvalue_array_nested() {
    let inner = JsValue::Array(vec![JsValue::Integer(1), JsValue::Integer(2)]);
    let v = JsValue::Array(vec![inner, JsValue::Integer(3)]);
    assert!(v.is_array());
}

#[test]
fn test_jsvalue_object_empty() {
    let v = JsValue::Object(vec![]);
    assert!(v.is_object());
    assert!(!v.is_array());
    assert!(!v.is_primitive());
    assert_eq!(v.type_of(), "Object");
}

#[test]
fn test_jsvalue_object_simple() {
    let v = JsValue::Object(vec![
        JsEntry::new("name".to_string(), JsValue::String("test".to_string())),
        JsEntry::new("value".to_string(), JsValue::Integer(42)),
    ]);
    assert!(v.is_object());
}

#[test]
fn test_jsvalue_object_nested() {
    let inner = JsValue::Object(vec![
        JsEntry::new("x".to_string(), JsValue::Integer(1)),
        JsEntry::new("y".to_string(), JsValue::Integer(2)),
    ]);
    let v = JsValue::Object(vec![
        JsEntry::new("point".to_string(), inner),
        JsEntry::new("name".to_string(), JsValue::String("origin".to_string())),
    ]);
    assert!(v.is_object());
}

#[test]
fn test_jsvalue_date() {
    let v = JsValue::Date(1609459200000);
    assert!(v.is_date());
    assert!(!v.is_number());
    assert_eq!(v.type_of(), "Date");
}

#[test]
fn test_jsvalue_symbol() {
    let v = JsValue::Symbol("my_symbol".to_string());
    assert_eq!(v.type_of(), "symbol");
}

#[test]
fn test_jsvalue_function() {
    let v = JsValue::Function("myFunction".to_string());
    assert_eq!(v.type_of(), "function");
}

#[test]
fn test_from_bool() {
    let v: JsValue = true.into();
    assert!(matches!(v, JsValue::Boolean(true)));

    let v: JsValue = false.into();
    assert!(matches!(v, JsValue::Boolean(false)));
}

#[test]
fn test_from_i32() {
    let v: JsValue = 42i32.into();
    assert!(matches!(v, JsValue::Integer(42)));
}

#[test]
fn test_from_i64() {
    let v: JsValue = 42i64.into();
    assert!(matches!(v, JsValue::Integer(42)));
}

#[test]
fn test_from_string() {
    let v: JsValue = String::from("hello").into();
    assert!(matches!(v, JsValue::String(s) if s == "hello"));
}

#[test]
fn test_from_str() {
    let v: JsValue = "hello".into();
    assert!(matches!(v, JsValue::String(s) if s == "hello"));
}

#[test]
fn test_from_vec_u8() {
    let v: JsValue = vec![1u8, 2, 3].into();
    assert!(matches!(v, JsValue::Bytes(b) if b == vec![1, 2, 3]));
}

#[test]
fn test_from_vec_jsvalue() {
    let items = vec![JsValue::Integer(1), JsValue::Integer(2)];
    let v: JsValue = items.into();
    assert!(v.is_array());
}

#[test]
fn test_from_option_some() {
    let v: JsValue = Some(42i32).into();
    assert!(matches!(v, JsValue::Integer(42)));
}

#[test]
fn test_from_option_none() {
    let v: JsValue = Option::<i32>::None.into();
    assert!(v.is_none());
}

#[test]
fn test_from_unit() {
    let v: JsValue = ().into();
    assert!(v.is_none());
}

#[test]
fn test_default() {
    let v = JsValue::default();
    assert!(v.is_none());
}

#[test]
fn test_value_clone_deep() {
    let v = JsValue::Array(vec![
        JsValue::Object(vec![JsEntry::new("k".to_string(), JsValue::Bigint("7".to_string()))]),
        JsValue::Float(2.5f64.to_bits()),
    ]);
    let c = v.clone();
    assert_eq!(v, c);
}

#[test]
fn test_roundtrip_scalars() {
    for v in [
        JsValue::Absent,
        JsValue::Boolean(true),
        JsValue::Integer(-7),
        JsValue::Float(f64::NAN.to_bits()),
        JsValue::String("hi".to_string()),
        JsValue::Bytes(vec![1, 2, 3]),
        JsValue::Date(-12345),
        JsValue::Symbol("s".to_string()),
    ] {
        let engine_side = from_value(&v).unwrap();
        let back = to_value(&engine_side);
        assert_eq!(back, v);
    }
}

#[test]
fn test_roundtrip_float_bits_exact() {
    // A NaN with a nonstandard payload must survive bit for bit.
    let bits = 0x7FF8_0000_0000_1234u64;
    let v = JsValue::Float(bits);
    let engine_side = from_value(&v).unwrap();
    let back = to_value(&engine_side);
    assert!(matches!(back, JsValue::Float(b) if b == bits));
}

#[test]
fn test_roundtrip_nested() {
    let v = JsValue::Array(vec![
        JsValue::Object(vec![
            JsEntry::new("a".to_string(), JsValue::Integer(1)),
            JsEntry::new("b".to_string(), JsValue::Array(vec![JsValue::Boolean(false)])),
        ]),
        JsValue::Bigint("123456789012345678901".to_string()),
    ]);
    let engine_side = from_value(&v).unwrap();
    let back = to_value(&engine_side);
    assert_eq!(back, v);
}

#[test]
fn test_roundtrip_small_bigint_becomes_integer() {
    // A canonical text within the 64-bit range folds into Integer, per the
    // numeric policy.
    let v = JsValue::Bigint("42".to_string());
    let engine_side = from_value(&v).unwrap();
    let back = to_value(&engine_side);
    assert_eq!(back, JsValue::Integer(42));
}

#[test]
fn test_from_value_rejects_malformed_bigint() {
    let v = JsValue::Bigint("12x4".to_string());
    let r = from_value(&v);
    match r {
        Err(libfjs::error::JsError::Conversion { from, to, message }) => {
            assert_eq!(from, "Bigint");
            assert_eq!(to, "BigInt");
            assert_eq!(message, "12x4");
        }
        _ => panic!("expected a conversion failure"),
    }
}

#[test]
fn test_from_value_reports_first_malformed_bigint() {
    let v = JsValue::Array(vec![
        JsValue::Bigint("10".to_string()),
        JsValue::Bigint("bad-one".to_string()),
        JsValue::Bigint("also bad".to_string()),
    ]);
    match from_value(&v) {
        Err(libfjs::error::JsError::Conversion { message, .. }) => {
            assert_eq!(message, "bad-one");
        }
        _ => panic!("expected a conversion failure"),
    }
}

#[test]
fn test_to_value_collapses_engine_only_values() {
    assert!(to_value(&EngineValue::Undefined).is_none());
    assert!(to_value(&EngineValue::Null).is_none());
    assert!(to_value(&EngineValue::Promise).is_none());
    assert!(to_value(&EngineValue::Exception).is_none());
    assert!(to_value(&EngineValue::Module).is_none());
    assert!(to_value(&EngineValue::Uninitialized).is_none());
}

#[test]
fn test_to_value_classification() {
    assert_eq!(to_value(&EngineValue::Bool(true)), JsValue::Boolean(true));
    assert_eq!(to_value(&EngineValue::Int(5)), JsValue::Integer(5));
    assert_eq!(
        to_value(&EngineValue::Double(1.5f64.to_bits())),
        JsValue::Float(1.5f64.to_bits())
    );
    assert_eq!(
        to_value(&EngineValue::Str("x".to_string())),
        JsValue::String("x".to_string())
    );
    assert_eq!(to_value(&EngineValue::Bytes(vec![9])), JsValue::Bytes(vec![9]));
    assert_eq!(to_value(&EngineValue::Date(17)), JsValue::Date(17));
    assert_eq!(
        to_value(&EngineValue::Symbol("d".to_string())),
        JsValue::Symbol("d".to_string())
    );
    assert_eq!(
        to_value(&EngineValue::Func("f".to_string())),
        JsValue::Function("f".to_string())
    );
}

#[test]
fn test_to_value_bigint_policy() {
    // Fits the 64-bit range losslessly: folds into Integer.
    assert_eq!(
        to_value(&EngineValue::BigInt("9223372036854775807".to_string())),
        JsValue::Integer(i64::MAX)
    );
    assert_eq!(
        to_value(&EngineValue::BigInt("-9223372036854775808".to_string())),
        JsValue::Integer(i64::MIN)
    );
    // One past the range: the full decimal text is kept, never truncated.
    assert_eq!(
        to_value(&EngineValue::BigInt("9223372036854775808".to_string())),
        JsValue::Bigint("9223372036854775808".to_string())
    );
}

#[test]
fn test_to_value_object_entries() {
    let ev = EngineValue::Obj(vec![EngineEntry {
        key: "a".to_string(),
        value: EngineValue::Int(1),
    }]);
    let v = to_value(&ev);
    match v {
        JsValue::Object(entries) => {
            assert_eq!(entries.len(), 1);
            assert_eq!(entries[0].key, "a");
            assert_eq!(entries[0].value, JsValue::Integer(1));
        }
        _ => panic!("expected an object"),
    }
}
