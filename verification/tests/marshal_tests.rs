use std::collections::HashSet;

use kissmp_core::marshal::ScriptValue;
use kissmp_core::wire::{Float64, MarshalledLuaValue, MarshalledLuaValueConversionError};

#[test]
fn primitives_marshal_to_equal_wire_values() {
    assert_eq!(
        MarshalledLuaValue::try_from(&ScriptValue::Nil).unwrap(),
        MarshalledLuaValue::Nil
    );
    assert_eq!(
        MarshalledLuaValue::try_from(&ScriptValue::Boolean(true)).unwrap(),
        MarshalledLuaValue::Boolean(true)
    );
    assert_eq!(
        MarshalledLuaValue::try_from(&ScriptValue::Integer(-12345)).unwrap(),
        MarshalledLuaValue::Integer(-12345)
    );
    let bits = 2.5f64.to_bits();
    assert_eq!(
        MarshalledLuaValue::try_from(&ScriptValue::Number(bits)).unwrap(),
        MarshalledLuaValue::Number(Float64::from_bits(bits))
    );
}

#[test]
fn number_marshalling_keeps_nan_bits() {
    let bits = f64::NAN.to_bits();
    let m = MarshalledLuaValue::try_from(&ScriptValue::Number(bits)).unwrap();
    match m {
        MarshalledLuaValue::Number(f) => assert_eq!(f.bits(), bits),
        _ => panic!("expected a number"),
    }
}

#[test]
fn valid_string_marshals_and_roundtrips() {
    let v = ScriptValue::String("héllo wörld".as_bytes().to_vec());
    let m = MarshalledLuaValue::try_from(&v).unwrap();
    assert_eq!(m, MarshalledLuaValue::String("héllo wörld".to_string()));
}

#[test]
fn invalid_string_fails_with_cause_preserved() {
    let bad = vec![0x68, 0x69, 0xFF, 0xFE];
    let err = MarshalledLuaValue::try_from(&ScriptValue::String(bad.clone())).unwrap_err();
    match err {
        MarshalledLuaValueConversionError::LuaError(bytes) => assert_eq!(bytes, bad),
        _ => panic!("expected the wrapped engine error"),
    }
}

#[test]
fn composite_values_are_rejected() {
    for v in [
        ScriptValue::Table,
        ScriptValue::Function,
        ScriptValue::Thread,
        ScriptValue::UserData,
        ScriptValue::LightUserData,
        ScriptValue::Error,
    ] {
        let err = MarshalledLuaValue::try_from(&v).unwrap_err();
        assert!(matches!(
            err,
            MarshalledLuaValueConversionError::UnsupportedType
        ));
    }
}

#[test]
fn error_messages_describe_the_failure() {
    let unsupported = MarshalledLuaValueConversionError::UnsupportedType;
    assert_eq!(unsupported.message(), "The value provided is not supported");
    let lua = MarshalledLuaValueConversionError::LuaError(vec![0xFF]);
    assert_eq!(lua.message(), "invalid UTF-8 in scripting string");
}

#[test]
fn float_wrapper_equality_is_bit_pattern_equality() {
    assert_eq!(
        Float64::from_bits(1.0f64.to_bits()),
        Float64::from_bits(1.0f64.to_bits())
    );
    // negative zero and positive zero have different bit patterns
    assert_ne!(
        Float64::from_bits(0.0f64.to_bits()),
        Float64::from_bits((-0.0f64).to_bits())
    );
    // NaN payloads with identical bits are equal, unlike IEEE comparison
    let nan = f64::NAN.to_bits();
    assert_eq!(Float64::from_bits(nan), Float64::from_bits(nan));
}

#[test]
fn wire_values_hash_by_bit_pattern() {
    let mut set: HashSet<MarshalledLuaValue> = HashSet::new();
    let nan = f64::NAN.to_bits();
    assert!(set.insert(MarshalledLuaValue::Number(Float64::from_bits(nan))));
    // the identical bit pattern is a duplicate
    assert!(!set.insert(MarshalledLuaValue::Number(Float64::from_bits(nan))));
    // a different bit pattern of zero is a distinct member
    assert!(set.insert(MarshalledLuaValue::Number(Float64::from_bits(
        0.0f64.to_bits()
    ))));
    assert!(set.insert(MarshalledLuaValue::Number(Float64::from_bits(
        (-0.0f64).to_bits()
    ))));
    assert_eq!(set.len(), 3);
}

#[test]
fn wire_value_equality_distinguishes_variants() {
    assert_ne!(MarshalledLuaValue::Nil, MarshalledLuaValue::Boolean(false));
    assert_ne!(
        MarshalledLuaValue::Integer(1),
        MarshalledLuaValue::Number(Float64::from_bits(1.0f64.to_bits()))
    );
    assert_eq!(
        MarshalledLuaValue::String("a".to_string()),
        MarshalledLuaValue::String("a".to_string())
    );
    assert_ne!(
        MarshalledLuaValue::String("a".to_string()),
        MarshalledLuaValue::String("b".to_string())
    );
}
