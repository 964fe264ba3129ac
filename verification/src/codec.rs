//! Conversion between JSON values and native values, total in both
//! directions: what one side cannot represent maps to a fixed stand-in
//! instead of failing.

use crate::base64::{encode, encoded};
use crate::values::{
    bits_are_finite, is_finite_bits, JsonModel, JsonNumber, JsonValue, SqlModel, SqlValue,
};
use vstd::prelude::*;

verus! {

/// The native value that stands for a JSON value. What the engine cannot
/// represent stands as null: arrays, objects, and integers beyond the signed
/// 64-bit range.
pub open spec fn native_of(v: JsonModel) -> SqlModel {
    match v {
        JsonModel::Null => SqlModel::Null,
        JsonModel::Bool(b) => SqlModel::Integer(
            if b {
                1
            } else {
                0
            },
        ),
        JsonModel::Number(JsonNumber::PosInt(n)) => if n <= i64::MAX {
            SqlModel::Integer(n as i64)
        } else {
            SqlModel::Null
        },
        JsonModel::Number(JsonNumber::NegInt(i)) => SqlModel::Integer(i),
        JsonModel::Number(JsonNumber::Float(bits)) => SqlModel::Real(bits),
        JsonModel::String(s) => SqlModel::Text(s),
        JsonModel::Array(_) => SqlModel::Null,
        JsonModel::Object(_) => SqlModel::Null,
    }
}

/// The JSON value that stands for a native value.
pub open spec fn external_of(v: SqlModel) -> JsonModel {
    match v {
        SqlModel::Null => JsonModel::Null,
        SqlModel::Integer(i) => JsonModel::Number(
            if i < 0 {
                JsonNumber::NegInt(i)
            } else {
                JsonNumber::PosInt(i as u64)
            },
        ),
        SqlModel::Real(bits) => JsonModel::Number(
            if is_finite_bits(bits) {
                JsonNumber::Float(bits)
            } else {
                JsonNumber::PosInt(0)
            },
        ),
        SqlModel::Text(s) => JsonModel::String(s),
        SqlModel::Blob(b) => JsonModel::String(encoded(b)),
    }
}

/// The JSON scalars that survive a trip to the engine and back unchanged:
/// null, strings, well-formed numbers that are reals or fit a signed
/// 64-bit integer.
pub open spec fn round_trips(v: JsonModel) -> bool {
    match v {
        JsonModel::Null => true,
        JsonModel::Number(JsonNumber::PosInt(n)) => n <= i64::MAX,
        JsonModel::Number(n) => n.is_valid(),
        JsonModel::String(_) => true,
        _ => false,
    }
}

/// Converts a JSON value to a native value: booleans become 0 or 1,
/// integers stay integers, reals stay reals, and what the engine cannot
/// represent becomes null: arrays, objects, and integers beyond the signed
/// 64-bit range.
pub fn json_to_libsql_value(value: JsonValue) -> (native: SqlValue)
    ensures
        native@ == native_of(value@),
{
    match value {
        JsonValue::Null => SqlValue::Null,
        JsonValue::Bool(b) => SqlValue::Integer(
            if b {
                1
            } else {
                0
            },
        ),
        JsonValue::Number(n) => match n {
            JsonNumber::PosInt(u) => if u <= 0x7FFF_FFFF_FFFF_FFFF {
                SqlValue::Integer(u as i64)
            } else {
                SqlValue::Null
            },
            JsonNumber::NegInt(i) => SqlValue::Integer(i),
            JsonNumber::Float(bits) => SqlValue::Real(bits),
        },
        JsonValue::String(s) => SqlValue::Text(s),
        JsonValue::Array(_) => SqlValue::Null,
        JsonValue::Object(_) => SqlValue::Null,
    }
}

/// Converts a native value to a JSON value: a real that is not finite
/// becomes the number zero, and a blob becomes its base64 text.
pub fn libsql_value_to_json(value: SqlValue) -> (external: JsonValue)
    ensures
        external@ == external_of(value@),
{
    match value {
        SqlValue::Null => JsonValue::Null,
        SqlValue::Integer(i) => JsonValue::Number(
            if i < 0 {
                JsonNumber::NegInt(i)
            } else {
                JsonNumber::PosInt(i as u64)
            },
        ),
        SqlValue::Real(bits) => JsonValue::Number(
            if bits_are_finite(bits) {
                JsonNumber::Float(bits)
            } else {
                JsonNumber::PosInt(0)
            },
        ),
        SqlValue::Text(s) => JsonValue::String(s),
        SqlValue::Blob(b) => JsonValue::String(encode(b.as_slice())),
    }
}

/// A JSON scalar sent to the engine and read back is the value that was
/// sent.
pub proof fn lemma_scalar_round_trip(v: JsonModel)
    requires
        round_trips(v),
    ensures
        external_of(native_of(v)) == v,
{
}

/// A boolean comes back as the integer 0 or 1: the trip is lossy by design.
pub proof fn lemma_bool_round_trip(b: bool)
    ensures
        external_of(native_of(JsonModel::Bool(b))) == JsonModel::Number(
            JsonNumber::PosInt(
                if b {
                    1
                } else {
                    0
                },
            ),
        ),
{
}

/// Arrays and objects are dropped to null, and stay null on the way back.
pub proof fn lemma_composite_becomes_null(v: JsonModel)
    requires
        v is Array || v is Object,
    ensures
        native_of(v) == SqlModel::Null,
        external_of(native_of(v)) == JsonModel::Null,
{
}

/// Whatever the engine returns, the JSON value made of it holds a
/// well-formed number or no number at all.
pub proof fn lemma_external_number_is_valid(v: SqlModel)
    ensures
        external_of(v) matches JsonModel::Number(n) ==> n.is_valid(),
{
}

/// A native null, integer, finite real or text read out and bound again as
/// a parameter is the same native value.
pub proof fn lemma_native_round_trip(v: SqlModel)
    requires
        !(v is Blob),
        v matches SqlModel::Real(bits) ==> is_finite_bits(bits),
    ensures
        native_of(external_of(v)) == v,
{
}

/// An integer-valued number never becomes a real: it stays an integer, or
/// becomes null where it lies beyond the signed 64-bit range. Only a real
/// becomes a real.
pub proof fn lemma_integers_never_become_reals(v: JsonModel)
    ensures
        native_of(v) is Real <==> v matches JsonModel::Number(JsonNumber::Float(_)),
        v matches JsonModel::Number(JsonNumber::PosInt(n)) && n > i64::MAX ==> native_of(v)
            == SqlModel::Null,
{
}

} // verus!
