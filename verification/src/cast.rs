//! The cell caster: one raw cell plus a canonical target type becomes one
//! typed scalar appended to that column's buffer.
//!
//! Integer cells narrow to the target's width and signedness by truncation
//! (the value modulo two to the width, reinterpreted in the target's
//! representation), never by bounds checking. Empty cells, engine-reported
//! cell errors and underivable dates degrade to a null value; an
//! unrecognized cell kind aborts the read.

use vstd::arithmetic::div_mod::{lemma_mod_mod, lemma_mod_multiples_vanish, lemma_small_mod};
use vstd::prelude::*;

use crate::text::clone_string;
use crate::types::{CanonType, RawCell, ReadError, TypedValue};

verus! {

/// An `i64` value reduced modulo two to the 64, as the mathematical
/// (Euclidean) remainder.
pub open spec fn trunc_u64(i: i64) -> int {
    (i as int) % 0x1_0000_0000_0000_0000
}

/// An `i64` value reduced modulo `m`, reinterpreted as a signed value in
/// the half-open range from `-m / 2` to `m / 2`.
pub open spec fn trunc_signed(i: i64, m: int) -> int {
    if (i as int) % m < m / 2 {
        (i as int) % m
    } else {
        (i as int) % m - m
    }
}

/// What casting one raw integer cell to a canonical target yields: the
/// truncated narrowing for integer targets, a boolean test against zero for
/// the boolean target, an exact deferred conversion for float targets, and
/// a fatal mismatch for every target with no integer rule.
pub open spec fn spec_cast_int(i: i64, target: CanonType) -> Result<TypedValue, ReadError> {
    match target {
        CanonType::Boolean => Ok(TypedValue::Bool(i != 0)),
        CanonType::UInt8 => Ok(TypedValue::UInt8(((i as int) % 0x100) as u8)),
        CanonType::UInt16 => Ok(TypedValue::UInt16(((i as int) % 0x1_0000) as u16)),
        CanonType::UInt32 => Ok(TypedValue::UInt32(((i as int) % 0x1_0000_0000) as u32)),
        CanonType::UInt64 => Ok(TypedValue::UInt64(trunc_u64(i) as u64)),
        CanonType::UInt128 => Ok(
            TypedValue::UInt128(
                ((i as int) % 0x1_0000_0000_0000_0000_0000_0000_0000_0000int) as u128,
            ),
        ),
        CanonType::Int8 => Ok(TypedValue::Int8(trunc_signed(i, 0x100) as i8)),
        CanonType::Int16 => Ok(TypedValue::Int16(trunc_signed(i, 0x1_0000) as i16)),
        CanonType::Int32 => Ok(TypedValue::Int32(trunc_signed(i, 0x1_0000_0000) as i32)),
        CanonType::Int64 => Ok(TypedValue::Int64(i)),
        CanonType::Int128 => Ok(TypedValue::Int128(i as i128)),
        CanonType::Float32 => Ok(TypedValue::Float32FromInt(i)),
        CanonType::Float64 => Ok(TypedValue::Float64FromInt(i)),
        CanonType::Ignored => Err(ReadError::IncompatibleCast),
        CanonType::Text => Err(ReadError::IncompatibleCast),
        CanonType::Date => Err(ReadError::IncompatibleCast),
    }
}

/// What casting one raw cell to a canonical target yields, by cell variant:
/// empty cells, engine-reported errors and underivable dates become null;
/// floats pass through untouched; text and booleans are kept as they are;
/// derivable dates keep their day count; an unrecognized variant fails.
pub open spec fn spec_cast(cell: RawCell, target: CanonType) -> Result<TypedValue, ReadError> {
    match cell {
        RawCell::Empty => Ok(TypedValue::Null),
        RawCell::Int(i) => spec_cast_int(i, target),
        RawCell::Float(bits) => Ok(TypedValue::Float64Bits(bits)),
        RawCell::Text(s) => Ok(TypedValue::Text(s)),
        RawCell::Bool(b) => Ok(TypedValue::Bool(b)),
        RawCell::DateTime(d) => match d {
            Some(days) => Ok(TypedValue::Date(days)),
            None => Ok(TypedValue::Null),
        },
        RawCell::Error(_) => Ok(TypedValue::Null),
        RawCell::Unrecognized => Err(ReadError::UnsupportedCellVariant),
    }
}

/// The value of an `i64` reduced modulo two to the 64, computed with
/// in-range conversions only.
fn trunc_u64_exec(i: i64) -> (r: u64)
    ensures
        r as int == trunc_u64(i),
{
    if i >= 0 {
        proof {
            lemma_small_mod(i as nat, 0x1_0000_0000_0000_0000nat);
        }
        i as u64
    } else {
        let j: i64 = -(i + 1);
        proof {
            lemma_mod_multiples_vanish(1, i as int, 0x1_0000_0000_0000_0000);
            lemma_small_mod((i + 0x1_0000_0000_0000_0000) as nat, 0x1_0000_0000_0000_0000nat);
        }
        u64::MAX - (j as u64)
    }
}

proof fn lemma_trunc_narrow(i: i64, m: int)
    requires
        m == 0x100 || m == 0x1_0000 || m == 0x1_0000_0000,
    ensures
        trunc_u64(i) % m == (i as int) % m,
{
    if m == 0x100 {
        lemma_mod_mod(i as int, 0x100, 0x100_0000_0000_0000);
    } else if m == 0x1_0000 {
        lemma_mod_mod(i as int, 0x1_0000, 0x1_0000_0000_0000);
    } else {
        lemma_mod_mod(i as int, 0x1_0000_0000, 0x1_0000_0000);
    }
}

/// Casts one raw integer cell to the canonical target type.
pub fn cast_int_value(i: i64, target: CanonType) -> (r: Result<TypedValue, ReadError>)
    ensures
        r == spec_cast_int(i, target),
{
    match target {
        CanonType::Boolean => Ok(TypedValue::Bool(i != 0)),
        CanonType::UInt8 => {
            let w = trunc_u64_exec(i);
            proof {
                lemma_trunc_narrow(i, 0x100);
            }
            Ok(TypedValue::UInt8((w % 0x100) as u8))
        },
        CanonType::UInt16 => {
            let w = trunc_u64_exec(i);
            proof {
                lemma_trunc_narrow(i, 0x1_0000);
            }
            Ok(TypedValue::UInt16((w % 0x1_0000) as u16))
        },
        CanonType::UInt32 => {
            let w = trunc_u64_exec(i);
            proof {
                lemma_trunc_narrow(i, 0x1_0000_0000);
            }
            Ok(TypedValue::UInt32((w % 0x1_0000_0000) as u32))
        },
        CanonType::UInt64 => {
            let w = trunc_u64_exec(i);
            Ok(TypedValue::UInt64(w))
        },
        CanonType::UInt128 => {
            if i >= 0 {
                proof {
                    lemma_small_mod(i as nat, (0x1_0000_0000_0000_0000_0000_0000_0000_0000int) as nat);
                }
                Ok(TypedValue::UInt128(i as u128))
            } else {
                let j: i64 = -(i + 1);
                proof {
                    lemma_mod_multiples_vanish(
                        1,
                        i as int,
                        0x1_0000_0000_0000_0000_0000_0000_0000_0000int,
                    );
                    lemma_small_mod(
                        (i + 0x1_0000_0000_0000_0000_0000_0000_0000_0000int) as nat,
                        (0x1_0000_0000_0000_0000_0000_0000_0000_0000int) as nat,
                    );
                }
                Ok(TypedValue::UInt128(u128::MAX - (j as u128)))
            }
        },
        CanonType::Int8 => {
            let w = trunc_u64_exec(i);
            proof {
                lemma_trunc_narrow(i, 0x100);
            }
            let m = w % 0x100;
            if m < 0x80 {
                Ok(TypedValue::Int8(m as i8))
            } else {
                Ok(TypedValue::Int8(((m as i64) - 0x100) as i8))
            }
        },
        CanonType::Int16 => {
            let w = trunc_u64_exec(i);
            proof {
                lemma_trunc_narrow(i, 0x1_0000);
            }
            let m = w % 0x1_0000;
            if m < 0x8000 {
                Ok(TypedValue::Int16(m as i16))
            } else {
                Ok(TypedValue::Int16(((m as i64) - 0x1_0000) as i16))
            }
        },
        CanonType::Int32 => {
            let w = trunc_u64_exec(i);
            proof {
                lemma_trunc_narrow(i, 0x1_0000_0000);
            }
            let m = w % 0x1_0000_0000;
            if m < 0x8000_0000 {
                Ok(TypedValue::Int32(m as i32))
            } else {
                Ok(TypedValue::Int32(((m as i64) - 0x1_0000_0000) as i32))
            }
        },
        CanonType::Int64 => Ok(TypedValue::Int64(i)),
        CanonType::Int128 => Ok(TypedValue::Int128(i as i128)),
        CanonType::Float32 => Ok(TypedValue::Float32FromInt(i)),
        CanonType::Float64 => Ok(TypedValue::Float64FromInt(i)),
        CanonType::Ignored => Err(ReadError::IncompatibleCast),
        CanonType::Text => Err(ReadError::IncompatibleCast),
        CanonType::Date => Err(ReadError::IncompatibleCast),
    }
}

/// Casts one raw cell to the canonical target type, yielding the typed
/// scalar to append or the failure that aborts the read.
pub fn cast_value(cell: &RawCell, target: CanonType) -> (r: Result<TypedValue, ReadError>)
    ensures
        r == spec_cast(*cell, target),
{
    match cell {
        RawCell::Empty => Ok(TypedValue::Null),
        RawCell::Int(i) => cast_int_value(*i, target),
        RawCell::Float(bits) => Ok(TypedValue::Float64Bits(*bits)),
        RawCell::Text(s) => Ok(TypedValue::Text(clone_string(s))),
        RawCell::Bool(b) => Ok(TypedValue::Bool(*b)),
        RawCell::DateTime(d) => match d {
            Some(days) => Ok(TypedValue::Date(*days)),
            None => Ok(TypedValue::Null),
        },
        RawCell::Error(_) => Ok(TypedValue::Null),
        RawCell::Unrecognized => Err(ReadError::UnsupportedCellVariant),
    }
}

/// Casts one raw cell and appends the result to the column's buffer:
/// exactly one element is appended on success, and the buffer is untouched
/// on failure.
pub fn cast_cell(cell: &RawCell, target: CanonType, buffer: &mut Vec<TypedValue>) -> (r: Result<
    (),
    ReadError,
>)
    ensures
        match spec_cast(*cell, target) {
            Ok(v) => r is Ok && final(buffer)@ == old(buffer)@.push(v),
            Err(e) => r == Err::<(), ReadError>(e) && final(buffer)@ == old(buffer)@,
        },
{
    match cast_value(cell, target) {
        Ok(v) => {
            buffer.push(v);
            Ok(())
        },
        Err(e) => Err(e),
    }
}

} // verus!
