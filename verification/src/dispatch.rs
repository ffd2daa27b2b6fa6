//! The dispatcher: a configuration's source-kind tag selects the reader
//! variant, and the delimited-text variant's schema-driven column selection
//! is planned here.

use vstd::prelude::*;

use crate::schema::{build_schema, spec_schema, Schema, SchemaColumn};
use crate::text::clone_string;
use crate::types::{CanonType, ReadError};

verus! {

/// The per-read options of a delimited-text source, handed through to the
/// external parsing engine unchanged.
#[derive(Clone, Debug)]
pub struct CsvOptions {
    pub separator: u8,
    pub has_header: bool,
    pub quote_char: Option<u8>,
    pub eol_char: u8,
    pub null_values: Option<Vec<String>>,
    pub enforce_utf8: bool,
    pub skip_lines: usize,
    pub low_memory: bool,
    pub rechunk: bool,
    pub ignore_errors: bool,
    pub missing_is_null: bool,
}

/// Where one read's data comes from, selected once per read and immutable
/// for its duration.
#[derive(Clone, Debug)]
pub enum SourceView {
    DelimitedText(CsvOptions),
    PivotTableCache { sheet: String, table: String },
    NamedTable { table: String },
    CellRange { sheet: String, start_row: u32, start_col: u32, end_row: u32, end_col: u32 },
}

/// The source-kind tag a configuration object exposes. `Other` carries the
/// name of a tag no reader implements.
#[derive(Clone, Debug)]
pub enum SourceKind {
    Txt,
    Csv,
    PivotTable,
    Table,
    SheetRange,
    Other(String),
}

/// The four reader variants that share the transposer-and-caster pipeline
/// or delegate to the external delimited-text engine.
#[derive(Clone, Copy, Debug, PartialEq, Eq, Structural)]
pub enum ReaderVariant {
    Delimited,
    PivotCache,
    NamedTable,
    CellRange,
}

/// Selects the reader variant for a source-kind tag: both text tags share
/// the delimited reader, each spreadsheet tag has its own variant, and any
/// other tag fails with `UnimplementedSourceKind` naming it.
pub fn select_reader(kind: &SourceKind) -> (r: Result<ReaderVariant, ReadError>)
    ensures
        match kind {
            SourceKind::Txt => r == Ok::<ReaderVariant, ReadError>(ReaderVariant::Delimited),
            SourceKind::Csv => r == Ok::<ReaderVariant, ReadError>(ReaderVariant::Delimited),
            SourceKind::PivotTable => r == Ok::<ReaderVariant, ReadError>(
                ReaderVariant::PivotCache,
            ),
            SourceKind::Table => r == Ok::<ReaderVariant, ReadError>(ReaderVariant::NamedTable),
            SourceKind::SheetRange => r == Ok::<ReaderVariant, ReadError>(ReaderVariant::CellRange),
            SourceKind::Other(name) => r == Err::<ReaderVariant, ReadError>(
                ReadError::UnimplementedSourceKind(*name),
            ),
        },
{
    match kind {
        SourceKind::Txt => Ok(ReaderVariant::Delimited),
        SourceKind::Csv => Ok(ReaderVariant::Delimited),
        SourceKind::PivotTable => Ok(ReaderVariant::PivotCache),
        SourceKind::Table => Ok(ReaderVariant::NamedTable),
        SourceKind::SheetRange => Ok(ReaderVariant::CellRange),
        SourceKind::Other(name) => Err(ReadError::UnimplementedSourceKind(clone_string(name))),
    }
}

/// The names of the schema's non-ignored columns, in schema order: the
/// projection the delimited-text engine is asked to keep.
pub open spec fn spec_selected_names(cols: Seq<SchemaColumn>) -> Seq<String> {
    cols.filter(|c: SchemaColumn| c.ty != CanonType::Ignored).map_values(|c: SchemaColumn| c.name)
}

/// The delimited-text reader's plan: resolve the schema for the external
/// parsing engine, and name the non-ignored columns, in schema order, as
/// the projection to keep.
pub fn delimited_plan(pairs: &Vec<(String, String)>) -> (r: Result<
    (Schema, Vec<String>),
    ReadError,
>)
    ensures
        match r {
            Ok(p) => spec_schema(pairs@) == Ok::<Seq<SchemaColumn>, ReadError>(p.0.cols@)
                && p.1@ == spec_selected_names(p.0.cols@),
            Err(e) => spec_schema(pairs@) == Err::<Seq<SchemaColumn>, ReadError>(e),
        },
{
    let schema = match build_schema(pairs) {
        Ok(s) => s,
        Err(e) => {
            return Err(e);
        },
    };
    let ghost cols = schema.cols@;
    let n = schema.len();
    let mut sel: Vec<String> = Vec::new();
    let mut j: usize = 0;
    while j < n
        invariant
            0 <= j <= n,
            n == cols.len(),
            cols == schema.cols@,
            sel@ == spec_selected_names(cols.take(j as int)),
        decreases n - j,
    {
        let t = schema.cols[j].ty;
        proof {
            reveal_with_fuel(Seq::filter, 2);
            assert(cols.take(j + 1).drop_last() =~= cols.take(j as int));
            assert(cols.take(j + 1).last() == cols[j as int]);
            let pred = |c: SchemaColumn| c.ty != CanonType::Ignored;
            if cols[j as int].ty != CanonType::Ignored {
                assert(cols.take(j + 1).filter(pred) =~= cols.take(j as int).filter(pred).push(
                    cols[j as int],
                ));
                assert(spec_selected_names(cols.take(j + 1)) =~= spec_selected_names(
                    cols.take(j as int),
                ).push(cols[j as int].name));
            } else {
                assert(cols.take(j + 1).filter(pred) =~= cols.take(j as int).filter(pred));
                assert(spec_selected_names(cols.take(j + 1)) =~= spec_selected_names(
                    cols.take(j as int),
                ));
            }
        }
        if !matches!(t, CanonType::Ignored) {
            sel.push(clone_string(&schema.cols[j].name));
        }
        j = j + 1;
    }
    proof {
        assert(cols.take(n as int) =~= cols);
    }
    Ok((schema, sel))
}

} // verus!
