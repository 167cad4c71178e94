//! The embedded-engine execution backend's decision logic: wrapping the
//! generated code into a module that exports its entry point, and
//! interpreting the value the engine returned. Loading the module and
//! driving the engine's event loop is outside work and stays outside the
//! library.

use vstd::prelude::*;
use vstd::string::StringExecFns;
use crate::errors::WizardError;
use crate::json::JsonShape;
use crate::json::json_model_of;
use crate::json::json_shape;
use crate::rows::Row;
use crate::rows::lemma_rows_of_matching_shapes;
use crate::rows::obj_pairs_model;
use crate::rows::row_from_object;
use crate::rows::row_of_obj_model;
use crate::json::shape_matches;
use crate::rows::rows_from_shapes;
use crate::rows::rows_match_models;
use crate::rows::rows_of_array_model;

verus! {

pub struct JsExecutor;

pub const MODULE_PREFIX: &'static str = "\n";

pub const MODULE_SUFFIX: &'static str = "\n\nexport { fetch_data };\n";

/// The generated code wrapped into a module that exports its entry point.
pub open spec fn module_code_spec(code: Seq<char>) -> Seq<char> {
    MODULE_PREFIX@ + code + MODULE_SUFFIX@
}

impl JsExecutor {
    pub fn new() -> Self {
        JsExecutor
    }

    /// Wraps the generated code for the in-process engine.
    pub fn wrap_module_code(&self, code: &str) -> (r: String)
        ensures
            r@ == module_code_spec(code@),
    {
        let mut s = MODULE_PREFIX.to_owned();
        s.append(code);
        s.append(MODULE_SUFFIX);
        proof {
            assert(s@ =~= module_code_spec(code@));
        }
        s
    }

    /// Interprets the decomposed value the engine returned: an array's
    /// object elements become rows (non-objects skipped), a single object
    /// is a one-row result, and anything else is an unexpected shape.
    pub fn rows_from_result(&self, shape: JsonShape) -> (r: Result<Vec<Row>, WizardError>)
        ensures
            shape matches JsonShape::Obj(pairs) ==> (r matches Ok(rows) && rows@.len() == 1
                && rows@[0]@ == row_of_obj_model(obj_pairs_model(pairs@))),
            shape matches JsonShape::Arr(items) ==> (r matches Ok(rows) && rows_match_models(
                rows@,
                rows_of_array_model(items@.map_values(|v: serde_json::Value| json_model_of(v))),
            )),
            (!(shape is Obj) && !(shape is Arr)) ==> r == Err::<Vec<Row>, WizardError>(
                WizardError::UnexpectedShape,
            ),
    {
        match shape {
            JsonShape::Arr(items) => {
                let ghost ms = items@.map_values(|v: serde_json::Value| json_model_of(v));
                let mut shapes: Vec<JsonShape> = Vec::new();
                let mut i: usize = 0;
                while i < items.len()
                    invariant
                        i <= items.len(),
                        shapes@.len() == i,
                        ms == items@.map_values(|v: serde_json::Value| json_model_of(v)),
                        forall|k: int|
                            0 <= k < i ==> shape_matches(#[trigger] shapes@[k], ms[k]),
                    decreases items.len() - i,
                {
                    shapes.push(json_shape(&items[i]));
                    i += 1;
                }
                proof {
                    lemma_rows_of_matching_shapes(shapes@, ms);
                }
                Ok(rows_from_shapes(shapes))
            },
            JsonShape::Obj(pairs) => {
                let row = row_from_object(pairs);
                let mut rows: Vec<Row> = Vec::new();
                rows.push(row);
                Ok(rows)
            },
            _ => Err(WizardError::UnexpectedShape),
        }
    }
}

} // verus!
