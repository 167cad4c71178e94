//! Rows of dynamic values, and the shared normalization rule that funnels
//! heterogeneous backend output into them: strings stay strings, numbers
//! that are exact integers become integers and all others floats, booleans
//! stay booleans, null stays null, and any other value falls back to its
//! textual representation. Non-object elements of a result array are
//! silently skipped. The rule and the row conversions are specified over
//! the JSON document model.

use vstd::prelude::*;
use crate::json::JsonModel;
use crate::json::JsonShape;
use crate::json::clone_json_value;
use crate::json::json_model_of;
use crate::json::json_shape;
use crate::json::json_value_text;
use crate::json::number_as_float;
use crate::json::number_as_integer;
use crate::json::shape_matches;
use crate::text::str_eq;
use crate::value::DynamicValue;
use crate::value::FloatValue;
use crate::value::ValueModel;

verus! {

/// One row: a mapping from column name to value, in the order the backend
/// produced it.
pub struct Row {
    pub cells: Vec<(String, DynamicValue)>,
}

/// Mathematical model of a row.
pub type RowModel = Seq<(Seq<char>, ValueModel)>;

impl View for Row {
    type V = RowModel;

    open spec fn view(&self) -> RowModel {
        self.cells@.map_values(|p: (String, DynamicValue)| (p.0@, p.1@))
    }
}

/// First-match lookup of a column name in a row.
pub open spec fn row_lookup(r: RowModel, name: Seq<char>) -> Option<ValueModel>
    decreases r.len(),
{
    if r.len() == 0 {
        None
    } else if r[0].0 == name {
        Some(r[0].1)
    } else {
        row_lookup(r.skip(1), name)
    }
}

proof fn lemma_row_lookup_found(r: RowModel, name: Seq<char>, i: int)
    requires
        0 <= i < r.len(),
        r[i].0 == name,
        forall|j: int| 0 <= j < i ==> r[j].0 != name,
    ensures
        row_lookup(r, name) == Some(r[i].1),
    decreases i,
{
    if i > 0 {
        lemma_row_lookup_found(r.skip(1), name, i - 1);
    }
}

proof fn lemma_row_lookup_absent(r: RowModel, name: Seq<char>)
    requires
        forall|j: int| 0 <= j < r.len() ==> r[j].0 != name,
    ensures
        row_lookup(r, name) is None,
    decreases r.len(),
{
    if r.len() > 0 {
        lemma_row_lookup_absent(r.skip(1), name);
    }
}

impl Row {
    /// The value stored under a column name, if any.
    pub fn get<'a>(&'a self, name: &str) -> (r: Option<&'a DynamicValue>)
        ensures
            match r {
                Some(v) => row_lookup(self@, name@) == Some(v@),
                None => row_lookup(self@, name@) is None,
            },
    {
        let n = self.cells.len();
        let mut i: usize = 0;
        while i < n
            invariant
                i <= n,
                n == self.cells.len(),
                forall|j: int| 0 <= j < i ==> self@[j].0 != name@,
            decreases n - i,
        {
            if str_eq(self.cells[i].0.as_str(), name) {
                proof {
                    lemma_row_lookup_found(self@, name@, i as int);
                }
                return Some(&self.cells[i].1);
            }
            i += 1;
        }
        proof {
            lemma_row_lookup_absent(self@, name@);
        }
        None
    }
}

/// What the normalization rule yields for a document model: strings stay
/// strings, an exact integer becomes an integer and any other number a
/// float, booleans and null stay themselves, and a nested array or object
/// falls back to its compact JSON text.
pub open spec fn normalize_model(m: JsonModel) -> ValueModel {
    match m {
        JsonModel::Null => ValueModel::Null,
        JsonModel::Bool(b) => ValueModel::Bool(b),
        JsonModel::Num { as_int, bits, text, trunc } => match as_int {
            Some(i) => ValueModel::Int(i),
            None => ValueModel::Float { bits, text, trunc },
        },
        JsonModel::Text(t) => ValueModel::Text(t),
        JsonModel::Arr { text, .. } => ValueModel::Text(text),
        JsonModel::Obj { text, .. } => ValueModel::Text(text),
    }
}

/// The models of a decomposed object's fields, in order.
pub open spec fn obj_pairs_model(pairs: Seq<(String, serde_json::Value)>) -> Seq<
    (Seq<char>, JsonModel),
> {
    pairs.map_values(|p: (String, serde_json::Value)| (p.0@, json_model_of(p.1)))
}

/// The row an object model converts to: each field's value normalized, with
/// names and order kept.
pub open spec fn row_of_obj_model(fields: Seq<(Seq<char>, JsonModel)>) -> RowModel {
    fields.map_values(|q: (Seq<char>, JsonModel)| (q.0, normalize_model(q.1)))
}

/// The rows an array of models converts to: one per object element, in
/// order; other elements contribute nothing.
pub open spec fn rows_of_array_model(ms: Seq<JsonModel>) -> Seq<RowModel>
    decreases ms.len(),
{
    if ms.len() == 0 {
        Seq::<RowModel>::empty()
    } else {
        (match ms[0] {
            JsonModel::Obj { fields, .. } => seq![row_of_obj_model(fields)],
            _ => Seq::<RowModel>::empty(),
        }) + rows_of_array_model(ms.skip(1))
    }
}

/// The rows a sequence of decomposed elements converts to.
pub open spec fn object_rows_of_shapes(items: Seq<JsonShape>) -> Seq<RowModel>
    decreases items.len(),
{
    if items.len() == 0 {
        Seq::<RowModel>::empty()
    } else {
        (match items[0] {
            JsonShape::Obj(pairs) => seq![row_of_obj_model(obj_pairs_model(pairs@))],
            _ => Seq::<RowModel>::empty(),
        }) + object_rows_of_shapes(items.skip(1))
    }
}

/// Exec rows carry exactly the given row models, in order.
pub open spec fn rows_match_models(rows: Seq<Row>, ms: Seq<RowModel>) -> bool {
    rows.len() == ms.len() && (forall|i: int|
        0 <= i < rows.len() ==> (#[trigger] rows[i])@ == ms[i])
}

/// Decomposed elements that agree with an array's element models convert to
/// that array's rows.
pub proof fn lemma_rows_of_matching_shapes(shapes: Seq<JsonShape>, ms: Seq<JsonModel>)
    requires
        shapes.len() == ms.len(),
        forall|i: int| 0 <= i < shapes.len() ==> shape_matches(#[trigger] shapes[i], ms[i]),
    ensures
        object_rows_of_shapes(shapes) == rows_of_array_model(ms),
    decreases shapes.len(),
{
    if shapes.len() > 0 {
        assert(forall|i: int|
            0 <= i < shapes.skip(1).len() ==> shape_matches(
                #[trigger] shapes.skip(1)[i],
                ms.skip(1)[i],
            ));
        lemma_rows_of_matching_shapes(shapes.skip(1), ms.skip(1));
        assert(shape_matches(shapes[0], ms[0]));
        match shapes[0] {
            JsonShape::Obj(pairs) => {
                assert(ms[0]->Obj_fields =~= obj_pairs_model(pairs@));
            },
            _ => {},
        }
    }
}

/// The float a dead fallback arm yields; never produced for a JSON number,
/// which always has a nearest 64-bit float.
fn zero_float() -> (r: FloatValue)
    ensures
        r.bits == 0,
        r.text@ == "0"@,
        r.trunc == 0,
{
    FloatValue { bits: 0, text: "0".to_owned(), trunc: 0 }
}

/// What a number normalizes to, given its decompositions: an exact integer
/// in the `i64` range becomes an integer, any other number a float, and a
/// number with neither reading (which JSON cannot produce) a zero float.
pub open spec fn normalize_number_spec(
    as_int: Option<i64>,
    as_float: Option<ValueModel>,
) -> ValueModel {
    match as_int {
        Some(i) => ValueModel::Int(i),
        None => match as_float {
            Some(f) => f,
            None => ValueModel::Float { bits: 0, text: "0"@, trunc: 0 },
        },
    }
}

/// Decides how a number normalizes, from its two decompositions.
pub fn normalize_number(as_int: Option<i64>, as_float: Option<FloatValue>) -> (r: DynamicValue)
    ensures
        r@ == normalize_number_spec(
            as_int,
            match as_float {
                Some(f) => Some(f@),
                None => None,
            },
        ),
{
    match as_int {
        Some(i) => DynamicValue::Integer(i),
        None => match as_float {
            Some(f) => DynamicValue::Float(f),
            None => DynamicValue::Float(zero_float()),
        },
    }
}

/// Normalizes one JSON value into a dynamic value, by the rule
/// `normalize_model` states over the value's document model.
pub fn dynamic_of_value(v: &serde_json::Value) -> (r: DynamicValue)
    ensures
        r@ == normalize_model(json_model_of(*v)),
{
    match json_shape(v) {
        JsonShape::Null => DynamicValue::Null,
        JsonShape::Bool(b) => DynamicValue::Boolean(b),
        JsonShape::Text(s) => DynamicValue::String(s),
        JsonShape::Num(n) => normalize_number(number_as_integer(&n), number_as_float(&n)),
        JsonShape::Arr(_) => DynamicValue::String(json_value_text(v)),
        JsonShape::Obj(_) => DynamicValue::String(json_value_text(v)),
    }
}

/// Converts one decomposed object into a row: each field's value normalized
/// by the rule, names and order kept.
pub fn row_from_object(pairs: Vec<(String, serde_json::Value)>) -> (r: Row)
    ensures
        r@ == row_of_obj_model(obj_pairs_model(pairs@)),
{
    let mut cells: Vec<(String, DynamicValue)> = Vec::new();
    let mut i: usize = 0;
    while i < pairs.len()
        invariant
            i <= pairs.len(),
            cells@.len() == i,
            forall|k: int|
                0 <= k < i ==> (#[trigger] cells@[k]).0@ == pairs@[k].0@ && cells@[k].1@
                    == normalize_model(json_model_of(pairs@[k].1)),
        decreases pairs.len() - i,
    {
        let value = dynamic_of_value(&pairs[i].1);
        cells.push((pairs[i].0.clone(), value));
        i += 1;
    }
    let r = Row { cells };
    proof {
        assert(r@ =~= row_of_obj_model(obj_pairs_model(pairs@)));
    }
    r
}

/// Converts the elements of a decomposed result array into rows: each
/// object element becomes one row, in order, and every non-object element
/// is skipped.
pub fn rows_from_shapes(items: Vec<JsonShape>) -> (r: Vec<Row>)
    ensures
        rows_match_models(r@, object_rows_of_shapes(items@)),
{
    let mut rows: Vec<Row> = Vec::new();
    let mut i: usize = 0;
    while i < items.len()
        invariant
            i <= items.len(),
            rows_match_models(rows@, object_rows_of_shapes(items@.take(i as int))),
        decreases items.len() - i,
    {
        let ghost prefix = items@.take(i as int);
        proof {
            assert(items@.take(i + 1) =~= prefix.push(items@[i as int]));
            lemma_object_rows_snoc(prefix, items@[i as int]);
        }
        match &items[i] {
            JsonShape::Obj(pairs) => {
                let row = row_from_object(clone_pairs(pairs));
                rows.push(row);
            },
            _ => {},
        }
        i += 1;
    }
    proof {
        assert(items@.take(items@.len() as int) =~= items@);
    }
    rows
}

proof fn lemma_object_rows_snoc(items: Seq<JsonShape>, x: JsonShape)
    ensures
        object_rows_of_shapes(items.push(x)) == object_rows_of_shapes(items) + (match x {
            JsonShape::Obj(pairs) => seq![row_of_obj_model(obj_pairs_model(pairs@))],
            _ => Seq::<RowModel>::empty(),
        }),
    decreases items.len(),
{
    let t = items.push(x);
    let tl = match x {
        JsonShape::Obj(pairs) => seq![row_of_obj_model(obj_pairs_model(pairs@))],
        _ => Seq::<RowModel>::empty(),
    };
    if items.len() == 0 {
        assert(t[0] == x);
        assert(t.skip(1) =~= Seq::<JsonShape>::empty());
        assert(object_rows_of_shapes(Seq::<JsonShape>::empty()) == Seq::<RowModel>::empty());
        assert(object_rows_of_shapes(t) == tl + Seq::<RowModel>::empty());
        assert(object_rows_of_shapes(items) == Seq::<RowModel>::empty());
        assert(tl + Seq::<RowModel>::empty() =~= Seq::<RowModel>::empty() + tl);
    } else {
        assert(t[0] == items[0]);
        assert(t.skip(1) =~= items.skip(1).push(x));
        lemma_object_rows_snoc(items.skip(1), x);
        let hd = match items[0] {
            JsonShape::Obj(pairs) => seq![row_of_obj_model(obj_pairs_model(pairs@))],
            _ => Seq::<RowModel>::empty(),
        };
        assert(object_rows_of_shapes(t) == hd + (object_rows_of_shapes(items.skip(1)) + tl));
        assert(object_rows_of_shapes(items) == hd + object_rows_of_shapes(items.skip(1)));
        assert(hd + (object_rows_of_shapes(items.skip(1)) + tl) =~= (hd + object_rows_of_shapes(
            items.skip(1),
        )) + tl);
    }
}

/// Clones a decomposed object's field list; the copies hold the same names
/// and document models.
pub(crate) fn clone_pairs(pairs: &Vec<(String, serde_json::Value)>) -> (r: Vec<
    (String, serde_json::Value),
>)
    ensures
        obj_pairs_model(r@) == obj_pairs_model(pairs@),
{
    let mut out: Vec<(String, serde_json::Value)> = Vec::new();
    let mut i: usize = 0;
    while i < pairs.len()
        invariant
            i <= pairs.len(),
            out@.len() == i,
            forall|k: int|
                0 <= k < i ==> (#[trigger] out@[k]).0@ == pairs@[k].0@ && json_model_of(out@[k].1)
                    == json_model_of(pairs@[k].1),
        decreases pairs.len() - i,
    {
        out.push((pairs[i].0.clone(), clone_json_value(&pairs[i].1)));
        i += 1;
    }
    proof {
        assert(obj_pairs_model(out@) =~= obj_pairs_model(pairs@));
    }
    out
}

} // verus!
