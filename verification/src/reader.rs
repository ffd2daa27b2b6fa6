//! The source readers' shared pipeline: schema resolution, header
//! validation, transposition and casting, and the resulting frame plan.
//!
//! The reading edge hands these functions the raw rows it located; every
//! decision from there on — which cells go where, which cells abort the
//! read, what the frame engine is asked to build — is made here.

use vstd::prelude::*;

use crate::assemble::{assemble_columns, plan_corresponds, spec_plan, FramePlan};
use crate::schema::{build_schema, spec_schema, Schema, SchemaColumn};
use crate::text::{clone_string, str_eq};
use crate::transpose::{
    all_castable, rectangular, row_views, spec_buffers, transpose_error, transpose_rows,
};
use crate::types::{RawCell, ReadError};

verus! {

/// The header cell at position `j` is a text cell equal to schema column
/// `j`'s name.
pub open spec fn header_cell_ok(cols: Seq<SchemaColumn>, header: Seq<RawCell>, j: int) -> bool {
    header[j] matches RawCell::Text(s) && s@ == cols[j].name@
}

/// The header row has one cell per schema column and each cell echoes its
/// column's name.
pub open spec fn header_matches(cols: Seq<SchemaColumn>, header: Seq<RawCell>) -> bool {
    &&& header.len() == cols.len()
    &&& forall|j: int| 0 <= j < cols.len() ==> #[trigger] header_cell_ok(cols, header, j)
}

/// Position `j` holds the first header cell that does not echo its
/// column's name.
pub open spec fn is_first_header_mismatch(
    cols: Seq<SchemaColumn>,
    header: Seq<RawCell>,
    j: int,
) -> bool {
    &&& 0 <= j < cols.len()
    &&& !header_cell_ok(cols, header, j)
    &&& forall|j2: int| 0 <= j2 < j ==> #[trigger] header_cell_ok(cols, header, j2)
}

/// The exact failures a header validation can report: a header of the
/// wrong width, or the first cell that disagrees with the schema.
pub open spec fn header_error(cols: Seq<SchemaColumn>, header: Seq<RawCell>, e: ReadError) -> bool {
    ||| (header.len() != cols.len() && e == (ReadError::RaggedRow { row: 0 }))
    ||| (header.len() == cols.len() && exists|j: int|
        is_first_header_mismatch(cols, header, j) && e == (ReadError::HeaderMismatch {
            index: j as usize,
            expected: cols[j].name,
        }))
}

fn clone_columns(cols: &Vec<SchemaColumn>) -> (r: Vec<SchemaColumn>)
    ensures
        r@ == cols@,
{
    let mut r: Vec<SchemaColumn> = Vec::new();
    let mut i: usize = 0;
    while i < cols.len()
        invariant
            0 <= i <= cols@.len(),
            r@.len() == i,
            forall|q: int| 0 <= q < i ==> r@[q] == cols@[q],
        decreases cols@.len() - i,
    {
        let name = clone_string(&cols[i].name);
        r.push(SchemaColumn { name, ty: cols[i].ty });
        i = i + 1;
    }
    proof {
        assert(r@ =~= cols@);
    }
    r
}

fn check_header(schema: &Schema, header: &Vec<RawCell>) -> (r: Result<(), ReadError>)
    ensures
        match r {
            Ok(()) => header_matches(schema.cols@, header@),
            Err(e) => header_error(schema.cols@, header@, e),
        },
{
    let n = schema.len();
    if header.len() != n {
        return Err(ReadError::RaggedRow { row: 0 });
    }
    let mut j: usize = 0;
    while j < n
        invariant
            0 <= j <= n,
            n == schema.cols@.len(),
            header@.len() == n,
            forall|j2: int| 0 <= j2 < j ==> #[trigger] header_cell_ok(schema.cols@, header@, j2),
        decreases n - j,
    {
        let ok = match &header[j] {
            RawCell::Text(s) => str_eq(s.as_str(), schema.cols[j].name.as_str()),
            _ => false,
        };
        if !ok {
            proof {
                assert(!header_cell_ok(schema.cols@, header@, j as int));
                assert(is_first_header_mismatch(schema.cols@, header@, j as int));
            }
            let expected = clone_string(&schema.cols[j].name);
            return Err(ReadError::HeaderMismatch { index: j, expected });
        }
        j = j + 1;
    }
    Ok(())
}

/// The named-table and cell-range readers' pipeline: resolve the schema,
/// then transpose and cast every located row — there is no header row —
/// and plan one typed column per non-ignored schema entry.
pub fn read_data_rows(pairs: &Vec<(String, String)>, rows: &Vec<Vec<RawCell>>) -> (r: Result<
    FramePlan,
    ReadError,
>)
    ensures
        ({
            let data = row_views(rows@, 0);
            match r {
                Ok(p) => match spec_schema(pairs@) {
                    Ok(cols) => {
                        &&& rectangular(data, cols.len() as int)
                        &&& all_castable(cols, data)
                        &&& p matches FramePlan::Data(plans) && plan_corresponds(
                            plans@,
                            spec_plan(cols, spec_buffers(cols, data)),
                        )
                    },
                    Err(_) => false,
                },
                Err(e) => {
                    ||| spec_schema(pairs@) == Err::<Seq<SchemaColumn>, ReadError>(e)
                    ||| (spec_schema(pairs@) matches Ok(cols) && transpose_error(
                        cols,
                        data,
                        cols.len() as int,
                        e,
                    ))
                },
            }
        }),
{
    let schema = match build_schema(pairs) {
        Ok(s) => s,
        Err(e) => {
            return Err(e);
        },
    };
    let bufs = match transpose_rows(&schema, rows, 0) {
        Ok(b) => b,
        Err(e) => {
            return Err(e);
        },
    };
    proof {
        assert(bufs@.map_values(|b: Vec<crate::types::TypedValue>| b@) =~= spec_buffers(
            schema.cols@,
            row_views(rows@, 0),
        ));
    }
    let plans = assemble_columns(&schema, bufs);
    Ok(FramePlan::Data(plans))
}

/// The pivot-cache reader's pipeline: resolve the schema; with no rows at
/// all, or a valid header and no data rows, plan an empty frame declaring
/// every schema column; otherwise validate the header against the schema's
/// column names and transpose the remaining rows.
pub fn read_pivot_rows(pairs: &Vec<(String, String)>, rows: &Vec<Vec<RawCell>>) -> (r: Result<
    FramePlan,
    ReadError,
>)
    ensures
        ({
            let data = row_views(rows@, 1);
            match r {
                Ok(p) => match spec_schema(pairs@) {
                    Ok(cols) => {
                        &&& (rows@.len() >= 1 ==> header_matches(cols, rows@[0]@))
                        &&& if rows@.len() <= 1 {
                            p matches FramePlan::Empty(cs) && cs@ == cols
                        } else {
                            &&& rectangular(data, cols.len() as int)
                            &&& all_castable(cols, data)
                            &&& p matches FramePlan::Data(plans) && plan_corresponds(
                                plans@,
                                spec_plan(cols, spec_buffers(cols, data)),
                            )
                        }
                    },
                    Err(_) => false,
                },
                Err(e) => {
                    ||| spec_schema(pairs@) == Err::<Seq<SchemaColumn>, ReadError>(e)
                    ||| (spec_schema(pairs@) matches Ok(cols) && rows@.len() >= 1 && header_error(
                        cols,
                        rows@[0]@,
                        e,
                    ))
                    ||| (spec_schema(pairs@) matches Ok(cols) && rows@.len() > 1 && header_matches(
                        cols,
                        rows@[0]@,
                    ) && transpose_error(cols, data, cols.len() as int, e))
                },
            }
        }),
{
    let schema = match build_schema(pairs) {
        Ok(s) => s,
        Err(e) => {
            return Err(e);
        },
    };
    if rows.len() == 0 {
        return Ok(FramePlan::Empty(clone_columns(&schema.cols)));
    }
    match check_header(&schema, &rows[0]) {
        Ok(()) => {},
        Err(e) => {
            return Err(e);
        },
    }
    if rows.len() == 1 {
        return Ok(FramePlan::Empty(clone_columns(&schema.cols)));
    }
    let bufs = match transpose_rows(&schema, rows, 1) {
        Ok(b) => b,
        Err(e) => {
            return Err(e);
        },
    };
    proof {
        assert(bufs@.map_values(|b: Vec<crate::types::TypedValue>| b@) =~= spec_buffers(
            schema.cols@,
            row_views(rows@, 1),
        ));
    }
    let plans = assemble_columns(&schema, bufs);
    Ok(FramePlan::Data(plans))
}

} // verus!
