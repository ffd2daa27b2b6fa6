//! Schema-driven ingestion of loosely-typed tabular data.
//!
//! A user-supplied schema maps column names to canonical scalar types; raw
//! cell values arriving in row-major order are routed to per-column buffers,
//! cast to their declared types, and assembled into an ordered column plan
//! that a columnar frame engine can materialize.

use vstd::prelude::*;

mod alias;
mod assemble;
mod cast;
mod dispatch;
mod reader;
mod schema;
mod text;
mod transpose;
mod types;

pub use alias::resolve_alias;
pub use alias::spec_resolve_alias;
pub use assemble::ColumnPlan;
pub use assemble::FramePlan;
pub use assemble::assemble_columns;
pub use assemble::lemma_plan_matches_filter;
pub use assemble::plan_corresponds;
pub use assemble::spec_plan;
pub use cast::cast_cell;
pub use cast::cast_value;
pub use cast::spec_cast;
pub use cast::spec_cast_int;
pub use dispatch::CsvOptions;
pub use dispatch::ReaderVariant;
pub use dispatch::SourceKind;
pub use dispatch::SourceView;
pub use dispatch::delimited_plan;
pub use dispatch::select_reader;
pub use dispatch::spec_selected_names;
pub use reader::header_cell_ok;
pub use reader::header_error;
pub use reader::header_matches;
pub use reader::is_first_header_mismatch;
pub use reader::read_data_rows;
pub use reader::read_pivot_rows;
pub use schema::Schema;
pub use schema::SchemaColumn;
pub use schema::build_schema;
pub use schema::spec_schema;
pub use schema::spec_schema_cols;
pub use text::str_eq;
pub use transpose::all_castable;
pub use transpose::cell_ok;
pub use transpose::is_first_bad_cell;
pub use transpose::is_first_ragged;
pub use transpose::lemma_flat_position;
pub use transpose::rectangular;
pub use transpose::row_views;
pub use transpose::spec_buffers;
pub use transpose::spec_column;
pub use transpose::transpose_error;
pub use transpose::transpose_rows;
pub use types::CanonType;
pub use types::RawCell;
pub use types::ReadError;
pub use types::TypedValue;

verus! {

} // verus!
