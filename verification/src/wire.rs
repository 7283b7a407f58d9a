//! Wire value model: the closed set of primitive values that can travel
//! both on the network wire and across the scripting boundary.

use vstd::prelude::*;

verus! {

/// A 64-bit floating-point value carried as its raw bit pattern.
///
/// Equality and hashing are defined over the bit pattern, not over IEEE
/// float comparison: `0.0` and `-0.0` are distinct, and two NaN payloads
/// with the same bits are equal.  This makes wire values usable as map
/// keys and set members with bit-exact semantics.
#[derive(Clone, Copy, Debug, PartialEq, Eq, Hash, Structural)]
pub struct Float64(pub u64);

impl Float64 {
    /// Wraps a raw 64-bit pattern.
    pub fn from_bits(bits: u64) -> (r: Float64)
        ensures
            r == (Float64(bits)),
    {
        Float64(bits)
    }

    /// The raw 64-bit pattern of the wrapped value.
    pub fn bits(&self) -> (r: u64)
        ensures
            r == self.0,
    {
        self.0
    }
}

/// Two float wrappers are equal exactly when their bit patterns are equal.
pub proof fn lemma_float64_eq_is_bit_equality(a: Float64, b: Float64)
    ensures
        (a == b) <==> (a.0 == b.0),
{
}

/// A value of the closed wire-transmissible set: nil, boolean, 64-bit
/// signed integer, bit-pattern double, or UTF-8 string.  Immutable once
/// constructed; composite values are excluded by design.
#[derive(Clone, Debug, Eq, Hash)]
pub enum MarshalledLuaValue {
    Nil,
    Boolean(bool),
    Integer(i64),
    Number(Float64),
    String(String),
}

impl PartialEq for MarshalledLuaValue {
    /// Structural equality; for doubles this is bit-pattern equality,
    /// for strings character-sequence equality.
    fn eq(&self, other: &Self) -> (r: bool) {
        match (self, other) {
            (MarshalledLuaValue::Nil, MarshalledLuaValue::Nil) => true,
            (MarshalledLuaValue::Boolean(a), MarshalledLuaValue::Boolean(b)) => *a == *b,
            (MarshalledLuaValue::Integer(a), MarshalledLuaValue::Integer(b)) => *a == *b,
            (MarshalledLuaValue::Number(a), MarshalledLuaValue::Number(b)) => *a == *b,
            (MarshalledLuaValue::String(a), MarshalledLuaValue::String(b)) => *a == *b,
            _ => false,
        }
    }
}

impl vstd::std_specs::cmp::PartialEqSpecImpl for MarshalledLuaValue {
    open spec fn obeys_eq_spec() -> bool {
        true
    }

    open spec fn eq_spec(&self, other: &Self) -> bool {
        match (self, other) {
            (MarshalledLuaValue::Nil, MarshalledLuaValue::Nil) => true,
            (MarshalledLuaValue::Boolean(a), MarshalledLuaValue::Boolean(b)) => a == b,
            (MarshalledLuaValue::Integer(a), MarshalledLuaValue::Integer(b)) => a == b,
            (MarshalledLuaValue::Number(a), MarshalledLuaValue::Number(b)) => a == b,
            (MarshalledLuaValue::String(a), MarshalledLuaValue::String(b)) => a@ == b@,
            _ => false,
        }
    }
}

/// Why a dynamic scripting value could not be marshalled.
#[derive(Debug)]
pub enum MarshalledLuaValueConversionError {
    /// The value is not in the closed wire set (a table, function, or
    /// other composite or engine-side value).
    UnsupportedType,
    /// String extraction from the scripting value failed; carries the
    /// raw non-UTF-8 bytes that the engine handed over, as the cause.
    LuaError(Vec<u8>),
}

impl MarshalledLuaValueConversionError {
    /// A human-readable description of the failure.
    pub fn message(&self) -> (r: String)
        ensures
            (self matches MarshalledLuaValueConversionError::UnsupportedType) ==> r@
                == "The value provided is not supported"@,
            (self matches MarshalledLuaValueConversionError::LuaError(_)) ==> r@
                == "invalid UTF-8 in scripting string"@,
    {
        match self {
            MarshalledLuaValueConversionError::UnsupportedType => {
                "The value provided is not supported".to_owned()
            },
            MarshalledLuaValueConversionError::LuaError(_) => {
                "invalid UTF-8 in scripting string".to_owned()
            },
        }
    }
}

} // verus!
