//! The frame assembler's plan: which columns, in which order, with which
//! typed contents, the frame engine is asked to materialize.
//!
//! Ignored columns are entirely absent from a data plan — not present as
//! all-null columns — and the remaining columns keep the schema's order. A
//! read that yielded no data rows instead plans an empty frame that
//! declares every schema column with its type.

use vstd::prelude::*;

use crate::schema::{Schema, SchemaColumn};
use crate::text::clone_string;
use crate::types::{CanonType, TypedValue};

verus! {

/// One column the frame engine is asked to build: its name, its declared
/// canonical type, and its typed buffer.
#[derive(Clone, Debug)]
pub struct ColumnPlan {
    pub name: String,
    pub ty: CanonType,
    pub values: Vec<TypedValue>,
}

/// What a completed read asks the frame engine for: either an empty frame
/// declaring every schema column with its type and no rows, or one typed
/// buffer per non-ignored schema column, in schema order.
#[derive(Clone, Debug)]
pub enum FramePlan {
    Empty(Vec<SchemaColumn>),
    Data(Vec<ColumnPlan>),
}

/// The executable plan `plans` renders the mathematical plan `plan`
/// faithfully: same length, and entry for entry the same name, type and
/// buffer contents.
pub open spec fn plan_corresponds(
    plans: Seq<ColumnPlan>,
    plan: Seq<(SchemaColumn, Seq<TypedValue>)>,
) -> bool {
    &&& plans.len() == plan.len()
    &&& forall|p: int|
        0 <= p < plan.len() ==> (#[trigger] plans[p]).name == plan[p].0.name && plans[p].ty
            == plan[p].0.ty && plans[p].values@ == plan[p].1
}

/// The (column, buffer) pairs of the non-ignored schema entries, in schema
/// order.
pub open spec fn spec_plan(cols: Seq<SchemaColumn>, bufs: Seq<Seq<TypedValue>>) -> Seq<
    (SchemaColumn, Seq<TypedValue>),
>
    decreases cols.len(),
{
    if cols.len() == 0 {
        Seq::empty()
    } else {
        let rest = spec_plan(cols.drop_last(), bufs.drop_last());
        if cols.last().ty == CanonType::Ignored {
            rest
        } else {
            rest.push((cols.last(), bufs.last()))
        }
    }
}

/// The planned columns are exactly the schema's non-ignored entries, in
/// schema order: dropping one ignored column among three leaves the other
/// two, in their original order.
pub proof fn lemma_plan_matches_filter(cols: Seq<SchemaColumn>, bufs: Seq<Seq<TypedValue>>)
    requires
        cols.len() == bufs.len(),
    ensures
        spec_plan(cols, bufs).map_values(|p: (SchemaColumn, Seq<TypedValue>)| p.0) =~= cols.filter(
            |c: SchemaColumn| c.ty != CanonType::Ignored,
        ),
    decreases cols.len(),
{
    reveal_with_fuel(Seq::filter, 2);
    if cols.len() == 0 {
        assert(cols.filter(|c: SchemaColumn| c.ty != CanonType::Ignored) =~= Seq::empty());
    } else {
        lemma_plan_matches_filter(cols.drop_last(), bufs.drop_last());
        assert(cols.drop_last() == cols.take(cols.len() - 1));
        let rest_plan = spec_plan(cols.drop_last(), bufs.drop_last()).map_values(
            |p: (SchemaColumn, Seq<TypedValue>)| p.0,
        );
        if cols.last().ty == CanonType::Ignored {
        } else {
            assert(spec_plan(cols, bufs).map_values(|p: (SchemaColumn, Seq<TypedValue>)| p.0)
                =~= rest_plan.push(cols.last()));
        }
    }
}

/// Pairs each non-ignored schema column with its buffer, in schema order;
/// ignored columns and their (empty) placeholder buffers are dropped.
pub fn assemble_columns(schema: &Schema, bufs: Vec<Vec<TypedValue>>) -> (r: Vec<ColumnPlan>)
    requires
        bufs@.len() == schema.cols@.len(),
    ensures
        plan_corresponds(r@, spec_plan(schema.cols@, bufs@.map_values(|b: Vec<TypedValue>| b@))),
{
    let ghost cols = schema.cols@;
    let ghost bufviews = bufs@.map_values(|b: Vec<TypedValue>| b@);
    let n = schema.len();
    let mut rem = bufs;
    let mut r: Vec<ColumnPlan> = Vec::new();
    let mut j: usize = 0;
    while j < n
        invariant
            0 <= j <= n,
            n == cols.len(),
            cols == schema.cols@,
            bufviews.len() == n,
            rem@.len() == n - j,
            forall|q: int| 0 <= q < n - j ==> (#[trigger] rem@[q])@ == bufviews[j + q],
            ({
                let plan = spec_plan(cols.take(j as int), bufviews.take(j as int));
                r@.len() == plan.len() && (forall|p: int|
                    0 <= p < plan.len() ==> (#[trigger] r@[p]).name == plan[p].0.name
                        && r@[p].ty == plan[p].0.ty && r@[p].values@ == plan[p].1)
            }),
        decreases n - j,
    {
        let buf = rem.remove(0);
        let t = schema.cols[j].ty;
        proof {
            assert(cols.take(j + 1).drop_last() =~= cols.take(j as int));
            assert(bufviews.take(j + 1).drop_last() =~= bufviews.take(j as int));
            assert(cols.take(j + 1).last() == cols[j as int]);
            assert(bufviews.take(j + 1).last() == bufviews[j as int]);
            assert(buf@ == bufviews[j as int]);
        }
        if !matches!(t, CanonType::Ignored) {
            let name = clone_string(&schema.cols[j].name);
            r.push(ColumnPlan { name, ty: t, values: buf });
        }
        j = j + 1;
    }
    proof {
        assert(cols.take(n as int) =~= cols);
        assert(bufviews.take(n as int) =~= bufviews);
    }
    r
}

} // verus!
