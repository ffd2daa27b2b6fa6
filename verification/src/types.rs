//! Core data model: canonical scalar types, raw cells, typed buffer values,
//! and the error taxonomy shared by every stage of a read.

use vstd::prelude::*;

verus! {

/// The closed set of scalar kinds a schema column can declare.
///
/// `Ignored` is a first-class member: a column declared `Ignored` is skipped
/// by the transposer and absent from the assembled output.
#[derive(Clone, Copy, Debug, PartialEq, Eq, Structural)]
pub enum CanonType {
    Ignored,
    Boolean,
    UInt8,
    UInt16,
    UInt32,
    UInt64,
    UInt128,
    Int8,
    Int16,
    Int32,
    Int64,
    Int128,
    Float32,
    Float64,
    Text,
    Date,
}

/// One raw cell value as the spreadsheet engine reports it, reduced to plain
/// values at the reading edge.
///
/// `Float` carries the IEEE-754 bit pattern of a 64-bit float; the pipeline
/// never interprets it, it only routes it. `DateTime` carries the calendar
/// date derived from the engine's timestamp as a day count since the epoch,
/// or `None` when no date could be derived. `Unrecognized` stands for any
/// engine cell kind the caster has no rule for.
#[derive(Clone, Debug)]
pub enum RawCell {
    Empty,
    Int(i64),
    Float(u64),
    Text(String),
    Bool(bool),
    DateTime(Option<i32>),
    Error(String),
    Unrecognized,
}

/// One typed scalar in a column buffer.
///
/// `Float64Bits` carries a 64-bit float by its bit pattern;
/// `Float32FromInt` and `Float64FromInt` carry an integer whose numeric
/// conversion to the float type is deferred to the frame engine's column
/// constructor.
#[derive(Clone, Debug)]
pub enum TypedValue {
    Null,
    Bool(bool),
    UInt8(u8),
    UInt16(u16),
    UInt32(u32),
    UInt64(u64),
    UInt128(u128),
    Int8(i8),
    Int16(i16),
    Int32(i32),
    Int64(i64),
    Int128(i128),
    Float64Bits(u64),
    Float32FromInt(i64),
    Float64FromInt(i64),
    Text(String),
    Date(i32),
}

/// Everything that can abort a read, as a typed failure.
///
/// Per-cell recoverable conditions (empty cells, engine-reported cell
/// errors, underivable dates) never appear here: they degrade to a null
/// value instead.
#[derive(Clone, Debug)]
pub enum ReadError {
    /// The supplied schema pair list was empty.
    EmptySchema,
    /// A column's type alias resolved to no canonical type.
    UnknownTypeAlias { column: String, alias: String },
    /// The caster saw an integer cell aimed at a target type with no
    /// integer rule (text, date, or an ignored column).
    IncompatibleCast,
    /// The caster saw an engine cell kind it has no rule for.
    UnsupportedCellVariant,
    /// A pivot-cache header cell did not equal the schema column's name.
    HeaderMismatch { index: usize, expected: String },
    /// A row's width differed from the schema's column count.
    RaggedRow { row: usize },
    /// A named table, pivot table, or sheet was absent from the workbook.
    SourceNotFound(String),
    /// The configuration's source-kind tag matches no reader.
    UnimplementedSourceKind(String),
    /// A path was unreadable or a workbook corrupt.
    IoFailure(String),
}

} // verus!
