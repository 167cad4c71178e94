//! Column schemas: the ordered column list a generation response declares,
//! and the closed set of column kinds the materializer distinguishes.

use vstd::prelude::*;
use crate::text::str_eq;

verus! {

/// One declared output column: a name and a declared data type
/// (`"varchar"`, `"double"`, `"bigint"` or `"date"`; anything else degrades
/// to varchar at materialization time).
pub struct ColumnSchema {
    pub name: String,
    pub data_type: String,
}

/// Mathematical model of a `ColumnSchema`.
pub struct ColumnModel {
    pub name: Seq<char>,
    pub data_type: Seq<char>,
}

impl View for ColumnSchema {
    type V = ColumnModel;

    open spec fn view(&self) -> ColumnModel {
        ColumnModel { name: self.name@, data_type: self.data_type@ }
    }
}

impl Clone for ColumnSchema {
    fn clone(&self) -> (r: Self)
        ensures
            r@ == self@,
    {
        ColumnSchema { name: self.name.clone(), data_type: self.data_type.clone() }
    }
}

/// The column kinds the materializer distinguishes. A declared `varchar`
/// column is strict (only a string value carries over; anything else gives
/// the empty default), while `date` and every unknown declared type degrade
/// to text through the universal stringification rule.
#[derive(Clone, Copy, PartialEq, Eq, Structural, Debug)]
pub enum ColumnKind {
    Varchar,
    Double,
    Bigint,
    Text,
}

/// The kind a declared data type materializes as.
pub open spec fn kind_of(data_type: Seq<char>) -> ColumnKind {
    if data_type == "varchar"@ {
        ColumnKind::Varchar
    } else if data_type == "double"@ {
        ColumnKind::Double
    } else if data_type == "bigint"@ {
        ColumnKind::Bigint
    } else {
        ColumnKind::Text
    }
}

/// Resolves a declared data type to its column kind; anything but
/// `"varchar"`, `"double"` and `"bigint"` (including `"date"`) degrades to
/// text.
pub fn column_kind(data_type: &str) -> (r: ColumnKind)
    ensures
        r == kind_of(data_type@),
{
    if str_eq(data_type, "varchar") {
        ColumnKind::Varchar
    } else if str_eq(data_type, "double") {
        ColumnKind::Double
    } else if str_eq(data_type, "bigint") {
        ColumnKind::Bigint
    } else {
        ColumnKind::Text
    }
}

/// The models of a declared column list, in declaration order.
pub open spec fn schema_model(schema: Seq<ColumnSchema>) -> Seq<ColumnModel> {
    schema.map_values(|c: ColumnSchema| c@)
}

/// Clones a declared column list.
pub fn clone_schema(schema: &Vec<ColumnSchema>) -> (r: Vec<ColumnSchema>)
    ensures
        schema_model(r@) == schema_model(schema@),
{
    let mut out: Vec<ColumnSchema> = Vec::new();
    let mut i: usize = 0;
    while i < schema.len()
        invariant
            i <= schema.len(),
            out@.len() == i,
            forall|k: int| 0 <= k < i ==> out@[k]@ == schema@[k]@,
        decreases schema.len() - i,
    {
        out.push(schema[i].clone());
        i += 1;
    }
    proof {
        assert(schema_model(out@) =~= schema_model(schema@));
    }
    out
}

} // verus!
