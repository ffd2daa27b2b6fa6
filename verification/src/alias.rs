//! The type alias resolver: a fixed, case-sensitive table mapping spelling
//! variants of scalar type names to one canonical type each.
//!
//! Lookup is exact-match and total over the finite alias set: a string
//! outside the table is a lookup failure, never a default.

use vstd::prelude::*;

use crate::text::str_eq;
use crate::types::CanonType;

verus! {

pub open spec fn is_ignored_alias(s: Seq<char>) -> bool {
    s == "null"@ || s == "Null"@ || s == "NULL"@ || s == "x"@ || s == "X"@
        || s == "remove"@ || s == "Remove"@
}

pub open spec fn is_boolean_alias(s: Seq<char>) -> bool {
    s == "bool"@ || s == "Bool"@ || s == "Boolean"@ || s == "boolean"@ || s == "BOOL"@
        || s == "BOOLEAN"@
}

pub open spec fn is_uint8_alias(s: Seq<char>) -> bool {
    s == "u8"@ || s == "U8"@ || s == "uint8"@ || s == "UInt8"@ || s == "UINT8"@ || s == "bit"@
        || s == "Bit"@ || s == "BIT"@
}

pub open spec fn is_uint16_alias(s: Seq<char>) -> bool {
    s == "u16"@ || s == "U16"@ || s == "uint16"@ || s == "UInt16"@ || s == "UINT16"@
}

pub open spec fn is_uint32_alias(s: Seq<char>) -> bool {
    s == "u32"@ || s == "U32"@ || s == "uint32"@ || s == "UInt32"@ || s == "UINT32"@
        || s == "Int"@ || s == "INT"@ || s == "integer"@ || s == "Integer"@ || s == "INTEGER"@
}

pub open spec fn is_uint64_alias(s: Seq<char>) -> bool {
    s == "u64"@ || s == "U64"@ || s == "uint64"@ || s == "UInt64"@ || s == "UINT64"@
}

pub open spec fn is_uint128_alias(s: Seq<char>) -> bool {
    s == "u128"@ || s == "U128"@ || s == "uint128"@ || s == "UInt128"@ || s == "UINT128"@
}

pub open spec fn is_int8_alias(s: Seq<char>) -> bool {
    s == "i8"@ || s == "I8"@ || s == "int8"@ || s == "Int8"@ || s == "INT8"@ || s == "tinyint"@
        || s == "TinyInt"@
}

pub open spec fn is_int16_alias(s: Seq<char>) -> bool {
    s == "i16"@ || s == "I16"@ || s == "int16"@ || s == "Int16"@ || s == "INT16"@
}

pub open spec fn is_int32_alias(s: Seq<char>) -> bool {
    s == "i32"@ || s == "I32"@ || s == "int32"@ || s == "Int32"@ || s == "INT32"@
}

pub open spec fn is_int64_alias(s: Seq<char>) -> bool {
    s == "i64"@ || s == "I64"@ || s == "int64"@ || s == "Int64"@ || s == "INT64"@
}

pub open spec fn is_int128_alias(s: Seq<char>) -> bool {
    s == "i128"@ || s == "I128"@ || s == "int128"@ || s == "Int128"@ || s == "INT128"@
}

pub open spec fn is_float32_alias(s: Seq<char>) -> bool {
    s == "f32"@ || s == "F32"@ || s == "float32"@ || s == "Float32"@ || s == "FLOAT32"@
}

pub open spec fn is_float64_alias(s: Seq<char>) -> bool {
    s == "f64"@ || s == "F64"@ || s == "float64"@ || s == "Float64"@ || s == "FLOAT64"@
        || s == "float"@ || s == "Float"@ || s == "FLOAT"@ || s == "decimal"@ || s == "Decimal"@
        || s == "DECIMAL"@
}

pub open spec fn is_text_alias(s: Seq<char>) -> bool {
    s == "str"@ || s == "Str"@ || s == "string"@ || s == "String"@ || s == "STRING"@
        || s == "TEXT"@
}

pub open spec fn is_date_alias(s: Seq<char>) -> bool {
    s == "date"@ || s == "Date"@ || s == "DATE"@
}

/// What a lookup in the alias table returns: the documented canonical type
/// for each listed spelling, and a failure for every other string.
pub open spec fn spec_resolve_alias(s: Seq<char>) -> Option<CanonType> {
    if is_ignored_alias(s) {
        Some(CanonType::Ignored)
    } else if is_boolean_alias(s) {
        Some(CanonType::Boolean)
    } else if is_uint8_alias(s) {
        Some(CanonType::UInt8)
    } else if is_uint16_alias(s) {
        Some(CanonType::UInt16)
    } else if is_uint32_alias(s) {
        Some(CanonType::UInt32)
    } else if is_uint64_alias(s) {
        Some(CanonType::UInt64)
    } else if is_uint128_alias(s) {
        Some(CanonType::UInt128)
    } else if is_int8_alias(s) {
        Some(CanonType::Int8)
    } else if is_int16_alias(s) {
        Some(CanonType::Int16)
    } else if is_int32_alias(s) {
        Some(CanonType::Int32)
    } else if is_int64_alias(s) {
        Some(CanonType::Int64)
    } else if is_int128_alias(s) {
        Some(CanonType::Int128)
    } else if is_float32_alias(s) {
        Some(CanonType::Float32)
    } else if is_float64_alias(s) {
        Some(CanonType::Float64)
    } else if is_text_alias(s) {
        Some(CanonType::Text)
    } else if is_date_alias(s) {
        Some(CanonType::Date)
    } else {
        None
    }
}

/// Looks a type alias up in the fixed table: exactly the listed spellings
/// resolve, each to its documented canonical type, and nothing else does.
pub fn resolve_alias(s: &str) -> (r: Option<CanonType>)
    ensures
        r == spec_resolve_alias(s@),
{
    if str_eq(s, "null") || str_eq(s, "Null") || str_eq(s, "NULL") || str_eq(s, "x")
        || str_eq(s, "X") || str_eq(s, "remove") || str_eq(s, "Remove") {
        Some(CanonType::Ignored)
    } else if str_eq(s, "bool") || str_eq(s, "Bool") || str_eq(s, "Boolean")
        || str_eq(s, "boolean") || str_eq(s, "BOOL") || str_eq(s, "BOOLEAN") {
        Some(CanonType::Boolean)
    } else if str_eq(s, "u8") || str_eq(s, "U8") || str_eq(s, "uint8") || str_eq(s, "UInt8")
        || str_eq(s, "UINT8") || str_eq(s, "bit") || str_eq(s, "Bit") || str_eq(s, "BIT") {
        Some(CanonType::UInt8)
    } else if str_eq(s, "u16") || str_eq(s, "U16") || str_eq(s, "uint16") || str_eq(s, "UInt16")
        || str_eq(s, "UINT16") {
        Some(CanonType::UInt16)
    } else if str_eq(s, "u32") || str_eq(s, "U32") || str_eq(s, "uint32") || str_eq(s, "UInt32")
        || str_eq(s, "UINT32") || str_eq(s, "Int") || str_eq(s, "INT") || str_eq(s, "integer")
        || str_eq(s, "Integer") || str_eq(s, "INTEGER") {
        Some(CanonType::UInt32)
    } else if str_eq(s, "u64") || str_eq(s, "U64") || str_eq(s, "uint64") || str_eq(s, "UInt64")
        || str_eq(s, "UINT64") {
        Some(CanonType::UInt64)
    } else if str_eq(s, "u128") || str_eq(s, "U128") || str_eq(s, "uint128")
        || str_eq(s, "UInt128") || str_eq(s, "UINT128") {
        Some(CanonType::UInt128)
    } else if str_eq(s, "i8") || str_eq(s, "I8") || str_eq(s, "int8") || str_eq(s, "Int8")
        || str_eq(s, "INT8") || str_eq(s, "tinyint") || str_eq(s, "TinyInt") {
        Some(CanonType::Int8)
    } else if str_eq(s, "i16") || str_eq(s, "I16") || str_eq(s, "int16") || str_eq(s, "Int16")
        || str_eq(s, "INT16") {
        Some(CanonType::Int16)
    } else if str_eq(s, "i32") || str_eq(s, "I32") || str_eq(s, "int32") || str_eq(s, "Int32")
        || str_eq(s, "INT32") {
        Some(CanonType::Int32)
    } else if str_eq(s, "i64") || str_eq(s, "I64") || str_eq(s, "int64") || str_eq(s, "Int64")
        || str_eq(s, "INT64") {
        Some(CanonType::Int64)
    } else if str_eq(s, "i128") || str_eq(s, "I128") || str_eq(s, "int128")
        || str_eq(s, "Int128") || str_eq(s, "INT128") {
        Some(CanonType::Int128)
    } else if str_eq(s, "f32") || str_eq(s, "F32") || str_eq(s, "float32")
        || str_eq(s, "Float32") || str_eq(s, "FLOAT32") {
        Some(CanonType::Float32)
    } else if str_eq(s, "f64") || str_eq(s, "F64") || str_eq(s, "float64")
        || str_eq(s, "Float64") || str_eq(s, "FLOAT64") || str_eq(s, "float")
        || str_eq(s, "Float") || str_eq(s, "FLOAT") || str_eq(s, "decimal")
        || str_eq(s, "Decimal") || str_eq(s, "DECIMAL") {
        Some(CanonType::Float64)
    } else if str_eq(s, "str") || str_eq(s, "Str") || str_eq(s, "string") || str_eq(s, "String")
        || str_eq(s, "STRING") || str_eq(s, "TEXT") {
        Some(CanonType::Text)
    } else if str_eq(s, "date") || str_eq(s, "Date") || str_eq(s, "DATE") {
        Some(CanonType::Date)
    } else {
        None
    }
}

} // verus!
