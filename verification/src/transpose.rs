//! The row-to-column transposer: a row-major stream of raw cells is routed
//! into per-column buffers by position.
//!
//! The cell at flat position `k` of a rectangular stream belongs to column
//! `k` modulo the schema's column count. Rows whose width differs from the
//! column count are rejected rather than silently misrouted, and a column
//! whose declared type is ignored never receives a value.

use vstd::arithmetic::div_mod::lemma_fundamental_div_mod_converse;
use vstd::prelude::*;

use crate::cast::{cast_value, spec_cast};
use crate::schema::{Schema, SchemaColumn};
use crate::types::{CanonType, RawCell, ReadError, TypedValue};

verus! {

/// The views of the rows of a read, from `start` onward.
pub open spec fn row_views(rows: Seq<Vec<RawCell>>, start: int) -> Seq<Seq<RawCell>> {
    Seq::new((rows.len() - start) as nat, |q: int| rows[start + q]@)
}

/// Every row has exactly `n` cells.
pub open spec fn rectangular(data: Seq<Seq<RawCell>>, n: int) -> bool {
    forall|r: int| 0 <= r < data.len() ==> (#[trigger] data[r]).len() == n
}

/// The cell at row `r`, column `j` either belongs to an ignored column or
/// casts successfully to its column's type.
pub open spec fn cell_ok(cols: Seq<SchemaColumn>, data: Seq<Seq<RawCell>>, r: int, j: int) -> bool {
    cols[j].ty == CanonType::Ignored || spec_cast(data[r][j], cols[j].ty) is Ok
}

/// Every cell of every row is castable (or ignored).
pub open spec fn all_castable(cols: Seq<SchemaColumn>, data: Seq<Seq<RawCell>>) -> bool {
    forall|r: int, j: int|
        0 <= r < data.len() && 0 <= j < cols.len() ==> #[trigger] cell_ok(cols, data, r, j)
}

/// The fully cast buffer of column `j`: one typed value per row, in row
/// order.
pub open spec fn spec_column(cols: Seq<SchemaColumn>, data: Seq<Seq<RawCell>>, j: int) -> Seq<
    TypedValue,
> {
    Seq::new(data.len(), |r: int| spec_cast(data[r][j], cols[j].ty)->Ok_0)
}

/// All column buffers of a transposed read: empty for ignored columns, one
/// value per row for every other column.
pub open spec fn spec_buffers(cols: Seq<SchemaColumn>, data: Seq<Seq<RawCell>>) -> Seq<
    Seq<TypedValue>,
> {
    Seq::new(
        cols.len(),
        |j: int|
            if cols[j].ty == CanonType::Ignored {
                Seq::empty()
            } else {
                spec_column(cols, data, j)
            },
    )
}

/// Row `r` is the first row whose width differs from `n`.
pub open spec fn is_first_ragged(data: Seq<Seq<RawCell>>, n: int, r: int) -> bool {
    &&& 0 <= r < data.len()
    &&& data[r].len() != n
    &&& forall|q: int| 0 <= q < r ==> (#[trigger] data[q]).len() == n
}

/// The cell at `(r, j)` is the first, in row-major order, that fails to
/// cast.
pub open spec fn is_first_bad_cell(
    cols: Seq<SchemaColumn>,
    data: Seq<Seq<RawCell>>,
    r: int,
    j: int,
) -> bool {
    &&& 0 <= r < data.len()
    &&& 0 <= j < cols.len()
    &&& !cell_ok(cols, data, r, j)
    &&& forall|r2: int, j2: int|
        0 <= r2 < data.len() && 0 <= j2 < cols.len() && (r2 < r || (r2 == r && j2 < j))
            ==> #[trigger] cell_ok(cols, data, r2, j2)
}

/// The exact failures a transposition can report: the first ragged row, or
/// the cast failure of the first uncastable cell of a rectangular stream.
pub open spec fn transpose_error(
    cols: Seq<SchemaColumn>,
    data: Seq<Seq<RawCell>>,
    n: int,
    e: ReadError,
) -> bool {
    ||| (exists|r: int|
        is_first_ragged(data, n, r) && e == (ReadError::RaggedRow { row: r as usize }))
    ||| (rectangular(data, n) && exists|r: int, j: int|
        is_first_bad_cell(cols, data, r, j) && Err::<TypedValue, ReadError>(e) == spec_cast(
            data[r][j],
            cols[j].ty,
        ))
}

/// The cell at flat position `k` of a rectangular row-major stream with `n`
/// columns is the cell the transposer routes to column `k % n` of output
/// row `k / n`: flat position `r * n + j` is exactly row `r`, column `j`.
pub proof fn lemma_flat_position(n: int, r: int, j: int)
    requires
        n > 0,
        0 <= j < n,
        0 <= r,
    ensures
        (r * n + j) % n == j,
        (r * n + j) / n == r,
{
    lemma_fundamental_div_mod_converse(r * n + j, n, r, j);
}

/// Routes the rows from `start` onward into one typed buffer per schema
/// column: the cell in column `j` of each row is cast to column `j`'s type
/// and appended to buffer `j`, ignored columns stay empty, and the first
/// ragged row or uncastable cell aborts the transposition.
pub fn transpose_rows(schema: &Schema, rows: &Vec<Vec<RawCell>>, start: usize) -> (res: Result<
    Vec<Vec<TypedValue>>,
    ReadError,
>)
    requires
        schema.wf(),
        start <= rows@.len(),
    ensures
        ({
            let cols = schema.cols@;
            let data = row_views(rows@, start as int);
            match res {
                Ok(bufs) => rectangular(data, cols.len() as int) && all_castable(cols, data)
                    && bufs@.len() == cols.len() && (forall|j: int|
                    0 <= j < cols.len() ==> (#[trigger] bufs@[j])@ == spec_buffers(cols, data)[j]),
                Err(e) => transpose_error(cols, data, cols.len() as int, e),
            }
        }),
{
    let ghost cols = schema.cols@;
    let ghost data = row_views(rows@, start as int);
    let n = schema.len();
    let total = rows.len();

    // First pass: the stream must be rectangular.
    let mut r = start;
    while r < total
        invariant
            start <= r <= total,
            total == rows@.len(),
            n == cols.len(),
            cols == schema.cols@,
            data == row_views(rows@, start as int),
            forall|q: int| 0 <= q < r - start ==> (#[trigger] data[q]).len() == n,
        decreases total - r,
    {
        if rows[r].len() != n {
            proof {
                assert(data[r - start] == rows@[r as int]@);
                assert(is_first_ragged(data, n as int, r - start));
            }
            return Err(ReadError::RaggedRow { row: r - start });
        }
        r = r + 1;
    }
    proof {
        assert(rectangular(data, n as int));
    }

    // Second pass: every cell must cast (or belong to an ignored column),
    // and the first failure, in row-major order, is the one reported.
    let mut r = start;
    while r < total
        invariant
            start <= r <= total,
            total == rows@.len(),
            n == cols.len(),
            cols == schema.cols@,
            data == row_views(rows@, start as int),
            rectangular(data, n as int),
            forall|r2: int, j2: int|
                0 <= r2 < r - start && 0 <= j2 < n ==> #[trigger] cell_ok(cols, data, r2, j2),
        decreases total - r,
    {
        let row = &rows[r];
        let mut j: usize = 0;
        while j < n
            invariant
                start <= r < total,
                0 <= j <= n,
                total == rows@.len(),
                n == cols.len(),
                cols == schema.cols@,
                data == row_views(rows@, start as int),
                rectangular(data, n as int),
                row@ == data[r - start],
                forall|r2: int, j2: int|
                    0 <= r2 < r - start && 0 <= j2 < n ==> #[trigger] cell_ok(cols, data, r2, j2),
                forall|j2: int| 0 <= j2 < j ==> #[trigger] cell_ok(cols, data, r - start, j2),
            decreases n - j,
        {
            let t = schema.cols[j].ty;
            if !matches!(t, CanonType::Ignored) {
                match cast_value(&row[j], t) {
                    Ok(_) => {},
                    Err(e) => {
                        proof {
                            assert(!cell_ok(cols, data, r - start, j as int));
                            assert(is_first_bad_cell(cols, data, r - start, j as int));
                        }
                        return Err(e);
                    },
                }
            }
            j = j + 1;
        }
        r = r + 1;
    }
    proof {
        assert(all_castable(cols, data));
    }

    // Third pass: build each column's buffer in schema order.
    let mut bufs: Vec<Vec<TypedValue>> = Vec::new();
    let mut j: usize = 0;
    while j < n
        invariant
            0 <= j <= n,
            total == rows@.len(),
            start <= total,
            n == cols.len(),
            cols == schema.cols@,
            data == row_views(rows@, start as int),
            rectangular(data, n as int),
            all_castable(cols, data),
            bufs@.len() == j,
            forall|p: int| 0 <= p < j ==> (#[trigger] bufs@[p])@ == spec_buffers(cols, data)[p],
        decreases n - j,
    {
        let t = schema.cols[j].ty;
        let mut buf: Vec<TypedValue> = Vec::new();
        if !matches!(t, CanonType::Ignored) {
            let mut r = start;
            while r < total
                invariant
                    start <= r <= total,
                    0 <= j < n,
                    total == rows@.len(),
                    n == cols.len(),
                    cols == schema.cols@,
                    data == row_views(rows@, start as int),
                    rectangular(data, n as int),
                    all_castable(cols, data),
                    t == cols[j as int].ty,
                    t != CanonType::Ignored,
                    buf@.len() == r - start,
                    forall|q: int|
                        0 <= q < r - start ==> buf@[q] == spec_cast(
                            (#[trigger] data[q])[j as int],
                            cols[j as int].ty,
                        )->Ok_0,
                decreases total - r,
            {
                let row = &rows[r];
                proof {
                    assert(cell_ok(cols, data, r - start, j as int));
                }
                match cast_value(&row[j], t) {
                    Ok(v) => {
                        buf.push(v);
                    },
                    Err(_) => {
                        proof {
                            assert(false);
                        }
                    },
                }
                r = r + 1;
            }
            proof {
                assert(buf@ =~= spec_column(cols, data, j as int));
            }
        }
        proof {
            if t == CanonType::Ignored {
                assert(buf@ =~= Seq::<TypedValue>::empty());
            }
        }
        bufs.push(buf);
        j = j + 1;
    }
    Ok(bufs)
}

} // verus!
