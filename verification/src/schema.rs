//! The schema builder: an ordered list of (column name, type alias) pairs
//! becomes an ordered schema of (name, canonical type) entries, or the whole
//! build fails.
//!
//! An empty pair list is rejected, and so is the first pair whose alias
//! resolves to no canonical type; no partial schema is ever returned.

use vstd::prelude::*;

use crate::alias::{resolve_alias, spec_resolve_alias};
use crate::text::clone_string;
use crate::types::{CanonType, ReadError};

verus! {

/// One schema entry: a column name and its resolved canonical type.
#[derive(Clone, Debug)]
pub struct SchemaColumn {
    pub name: String,
    pub ty: CanonType,
}

/// An ordered, non-empty sequence of resolved schema entries. Order is
/// significant: it defines positional routing in row-major transposition.
#[derive(Clone, Debug)]
pub struct Schema {
    pub cols: Vec<SchemaColumn>,
}

impl Schema {
    /// A schema is well formed when it has at least one entry.
    pub open spec fn wf(self) -> bool {
        self.cols@.len() > 0
    }

    pub fn len(&self) -> (n: usize)
        ensures
            n == self.cols@.len(),
    {
        self.cols.len()
    }
}

/// What resolving every pair in order yields: the entries for all pairs, or
/// the failure for the first pair whose alias is unknown.
pub open spec fn spec_schema_cols(pairs: Seq<(String, String)>) -> Result<
    Seq<SchemaColumn>,
    ReadError,
>
    decreases pairs.len(),
{
    if pairs.len() == 0 {
        Ok(Seq::empty())
    } else {
        match spec_resolve_alias(pairs.first().1@) {
            None => Err(
                ReadError::UnknownTypeAlias { column: pairs.first().0, alias: pairs.first().1 },
            ),
            Some(t) => match spec_schema_cols(pairs.drop_first()) {
                Err(e) => Err(e),
                Ok(rest) => Ok(
                    seq![SchemaColumn { name: pairs.first().0, ty: t }] + rest,
                ),
            },
        }
    }
}

/// What building a schema from a pair list yields: `EmptySchema` for an
/// empty list, otherwise the resolution of every pair in order.
pub open spec fn spec_schema(pairs: Seq<(String, String)>) -> Result<Seq<SchemaColumn>, ReadError> {
    if pairs.len() == 0 {
        Err(ReadError::EmptySchema)
    } else {
        spec_schema_cols(pairs)
    }
}

proof fn lemma_schema_cols_ok(pairs: Seq<(String, String)>, cols: Seq<SchemaColumn>)
    requires
        cols.len() == pairs.len(),
        forall|j: int|
            0 <= j < pairs.len() ==> Some((#[trigger] cols[j]).ty) == spec_resolve_alias(
                pairs[j].1@,
            ) && cols[j].name == pairs[j].0,
    ensures
        spec_schema_cols(pairs) == Ok::<Seq<SchemaColumn>, ReadError>(cols),
    decreases pairs.len(),
{
    if pairs.len() == 0 {
        assert(cols =~= Seq::<SchemaColumn>::empty());
    } else {
        let rest = cols.drop_first();
        assert forall|j: int| 0 <= j < pairs.drop_first().len() implies Some(
            (#[trigger] rest[j]).ty,
        ) == spec_resolve_alias(pairs.drop_first()[j].1@) && rest[j].name == pairs.drop_first()[j].0
        by {
            assert(rest[j] == cols[j + 1]);
            assert(pairs.drop_first()[j] == pairs[j + 1]);
        }
        lemma_schema_cols_ok(pairs.drop_first(), rest);
        assert(cols =~= seq![cols.first()] + rest);
    }
}

proof fn lemma_schema_cols_err(pairs: Seq<(String, String)>, i: int)
    requires
        0 <= i < pairs.len(),
        spec_resolve_alias(pairs[i].1@) is None,
        forall|j: int| 0 <= j < i ==> spec_resolve_alias((#[trigger] pairs[j]).1@) is Some,
    ensures
        spec_schema_cols(pairs) == Err::<Seq<SchemaColumn>, ReadError>(
            ReadError::UnknownTypeAlias { column: pairs[i].0, alias: pairs[i].1 },
        ),
    decreases i,
{
    if i == 0 {
    } else {
        assert(spec_resolve_alias(pairs[0].1@) is Some);
        assert forall|j: int| 0 <= j < i - 1 implies spec_resolve_alias(
            (#[trigger] pairs.drop_first()[j]).1@,
        ) is Some by {
            assert(pairs.drop_first()[j] == pairs[j + 1]);
        }
        assert(pairs.drop_first()[i - 1] == pairs[i]);
        lemma_schema_cols_err(pairs.drop_first(), i - 1);
    }
}

/// Builds the schema from the ordered pair list: either every entry
/// resolves, in input order, or the build fails with `EmptySchema` or the
/// first `UnknownTypeAlias`.
pub fn build_schema(pairs: &Vec<(String, String)>) -> (r: Result<Schema, ReadError>)
    ensures
        match r {
            Ok(s) => s.wf() && spec_schema(pairs@) == Ok::<Seq<SchemaColumn>, ReadError>(s.cols@),
            Err(e) => spec_schema(pairs@) == Err::<Seq<SchemaColumn>, ReadError>(e),
        },
{
    if pairs.len() == 0 {
        return Err(ReadError::EmptySchema);
    }
    let mut cols: Vec<SchemaColumn> = Vec::new();
    let mut i: usize = 0;
    while i < pairs.len()
        invariant
            i <= pairs@.len(),
            cols@.len() == i,
            forall|j: int|
                0 <= j < i ==> Some((#[trigger] cols@[j]).ty) == spec_resolve_alias(pairs@[j].1@)
                    && cols@[j].name == pairs@[j].0,
        decreases pairs@.len() - i,
    {
        let name = clone_string(&pairs[i].0);
        match resolve_alias(pairs[i].1.as_str()) {
            Some(t) => {
                cols.push(SchemaColumn { name, ty: t });
            },
            None => {
                let alias = clone_string(&pairs[i].1);
                proof {
                    assert forall|j: int| 0 <= j < i implies spec_resolve_alias(
                        (#[trigger] pairs@[j]).1@,
                    ) is Some by {
                        assert(Some(cols@[j].ty) == spec_resolve_alias(pairs@[j].1@));
                    }
                    lemma_schema_cols_err(pairs@, i as int);
                }
                return Err(ReadError::UnknownTypeAlias { column: name, alias });
            },
        }
        i = i + 1;
    }
    proof {
        lemma_schema_cols_ok(pairs@, cols@);
    }
    Ok(Schema { cols })
}

} // verus!
