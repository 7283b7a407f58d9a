//! The scripting-value marshaller: the safety boundary that converts a
//! dynamically-typed scripting value into a wire value, rejecting
//! everything outside the closed wire set.
//!
//! [`ScriptValue`] holds exactly what the conversion reads from the
//! scripting engine's dynamic value: the variant tag, the primitive
//! payloads, and for strings the engine's raw bytes, which are not yet
//! known to be UTF-8.

use vstd::prelude::*;
use vstd::utf8::{valid_utf8, decode_utf8, encode_utf8};
use crate::wire::{Float64, MarshalledLuaValue, MarshalledLuaValueConversionError};

verus! {

/// A dynamic value as the scripting engine presents it at the
/// conversion boundary.  Numbers carry the raw bit pattern of the
/// engine's 64-bit float; strings carry the engine's raw bytes.
#[derive(Clone, Debug)]
pub enum ScriptValue {
    Nil,
    Boolean(bool),
    Integer(i64),
    Number(u64),
    String(Vec<u8>),
    Table,
    Function,
    Thread,
    UserData,
    LightUserData,
    Error,
}

/// The dynamic values that marshal successfully: the four primitive
/// kinds always, strings exactly when their bytes are valid UTF-8.
pub open spec fn spec_marshallable(v: ScriptValue) -> bool {
    match v {
        ScriptValue::Nil => true,
        ScriptValue::Boolean(_) => true,
        ScriptValue::Integer(_) => true,
        ScriptValue::Number(_) => true,
        ScriptValue::String(bytes) => valid_utf8(bytes@),
        _ => false,
    }
}

/// Relies on String::from_utf8 from std: returns the decoded string
/// exactly when the bytes are valid UTF-8; otherwise the error (via
/// FromUtf8Error::into_bytes) hands the original bytes back.
#[verifier::external_body]
fn string_from_utf8(bytes: Vec<u8>) -> (r: Result<String, Vec<u8>>)
    ensures
        match r {
            Ok(s) => valid_utf8(bytes@) && s@ == decode_utf8(bytes@),
            Err(b) => !valid_utf8(bytes@) && b@ == bytes@,
        },
{
    String::from_utf8(bytes).map_err(|e| e.into_bytes())
}

impl MarshalledLuaValue {
    /// Converts a dynamic scripting value into a wire value.
    ///
    /// Nil, booleans, integers and numbers always succeed and map to the
    /// equal wire value (numbers keep their exact bit pattern).  Strings
    /// succeed exactly when the engine's bytes are valid UTF-8 and
    /// otherwise fail with the cause preserved.  Every other dynamic
    /// value fails with `UnsupportedType`.  Never panics.
    pub fn try_from(value: &ScriptValue) -> (r: Result<
        MarshalledLuaValue,
        MarshalledLuaValueConversionError,
    >)
        ensures
            r is Ok <==> spec_marshallable(*value),
            match *value {
                ScriptValue::Nil => r == Ok::<MarshalledLuaValue,
                    MarshalledLuaValueConversionError,
                >(MarshalledLuaValue::Nil),
                ScriptValue::Boolean(b) => r == Ok::<MarshalledLuaValue,
                    MarshalledLuaValueConversionError,
                >(MarshalledLuaValue::Boolean(b)),
                ScriptValue::Integer(i) => r == Ok::<MarshalledLuaValue,
                    MarshalledLuaValueConversionError,
                >(MarshalledLuaValue::Integer(i)),
                ScriptValue::Number(bits) => r == Ok::<MarshalledLuaValue,
                    MarshalledLuaValueConversionError,
                >(MarshalledLuaValue::Number((Float64(bits)))),
                ScriptValue::String(bytes) => match r {
                    Ok(m) => valid_utf8(bytes@) && (m matches MarshalledLuaValue::String(s)
                        && s@ == decode_utf8(bytes@)),
                    Err(e) => !valid_utf8(bytes@) && (e
                        matches MarshalledLuaValueConversionError::LuaError(b) && b@ == bytes@),
                },
                _ => r == Err::<MarshalledLuaValue, MarshalledLuaValueConversionError>(
                    MarshalledLuaValueConversionError::UnsupportedType,
                ),
            },
    {
        match value {
            ScriptValue::Nil => Ok(MarshalledLuaValue::Nil),
            ScriptValue::Boolean(boolean) => Ok(MarshalledLuaValue::Boolean(*boolean)),
            ScriptValue::Integer(integer) => Ok(MarshalledLuaValue::Integer(*integer)),
            ScriptValue::Number(number) => Ok(MarshalledLuaValue::Number(Float64(*number))),
            ScriptValue::String(bytes) => match string_from_utf8(bytes.clone()) {
                Ok(s) => Ok(MarshalledLuaValue::String(s)),
                Err(b) => Err(MarshalledLuaValueConversionError::LuaError(b)),
            },
            _ => Err(MarshalledLuaValueConversionError::UnsupportedType),
        }
    }
}

/// Marshalling a string value round-trips: the UTF-8 bytes of any
/// character sequence are valid UTF-8 and decode back to the same
/// characters, so a string handed over as its encoded bytes marshals to
/// the equal wire string.
pub proof fn lemma_marshal_string_roundtrip(chars: Seq<char>)
    ensures
        valid_utf8(encode_utf8(chars)),
        decode_utf8(encode_utf8(chars)) == chars,
{
    vstd::utf8::encode_utf8_valid_utf8(chars);
    vstd::utf8::encode_utf8_decode_utf8(chars);
}

} // verus!
