//! The subprocess-isolated execution backend's decision logic: wrapping the
//! generated code into a script that prints one JSON line, naming the
//! script file from a per-invocation token, and interpreting what the
//! child process produced. Writing the file and running the child process
//! is I/O and stays outside the library.

use vstd::prelude::*;
use vstd::string::StringExecFns;
use crate::errors::WizardError;
use crate::json::JsonModel;
use crate::json::JsonShape;
use crate::json::json_doc_of;
use crate::json::json_model_of;
use crate::json::json_shape;
use crate::json::lemma_shape_pins_variant;
use crate::json::parse_json;
use crate::json::shape_matches;
use crate::rows::Row;
use crate::rows::lemma_rows_of_matching_shapes;
use crate::rows::rows_from_shapes;
use crate::rows::rows_match_models;
use crate::rows::rows_of_array_model;
use crate::value::dec_text;
use crate::value::u64_text;

verus! {

pub struct DenoExecutor;

pub const SCRIPT_PREFIX: &'static str = "\n";

pub const SCRIPT_SUFFIX: &'static str =
    "\n\n// Execute and output result\nconst result = await fetch_data();\nconsole.log(JSON.stringify(result));\n";

/// The generated code wrapped so that its entry point is invoked and its
/// result is serialized to a single JSON line on standard output.
pub open spec fn wrapped_script_spec(code: Seq<char>) -> Seq<char> {
    SCRIPT_PREFIX@ + code + SCRIPT_SUFFIX@
}

/// The name of the temporary script file for one invocation. The token is
/// unique per call, so concurrent bind invocations within one process never
/// share a file.
pub open spec fn script_name_spec(token: u64) -> Seq<char> {
    "data_wizard_"@ + dec_text(token as nat) + ".js"@
}

impl DenoExecutor {
    pub fn new() -> Self {
        DenoExecutor
    }

    /// Wraps the generated code for the script runtime.
    pub fn wrap_code(&self, code: &str) -> (r: String)
        ensures
            r@ == wrapped_script_spec(code@),
    {
        let mut s = SCRIPT_PREFIX.to_owned();
        s.append(code);
        s.append(SCRIPT_SUFFIX);
        proof {
            assert(s@ =~= wrapped_script_spec(code@));
        }
        s
    }

    /// The script file name for one invocation, from a per-call unique
    /// token.
    pub fn script_file_name(&self, token: u64) -> (r: String)
        ensures
            r@ == script_name_spec(token),
    {
        let mut s = "data_wizard_".to_owned();
        let digits = u64_text(token);
        s.append(digits.as_str());
        s.append(".js");
        proof {
            assert(s@ =~= script_name_spec(token));
        }
        s
    }

    /// Interprets what the child process produced. Abnormal exit surfaces
    /// the captured standard-error text; otherwise standard output must be
    /// a JSON array, whose object elements become the rows its document
    /// model gives (non-object elements are skipped), and anything else is
    /// an unexpected shape.
    pub fn interpret_output(&self, status_ok: bool, stdout_text: &str, stderr_text: &str) -> (r:
        Result<Vec<Row>, WizardError>)
        ensures
            !status_ok ==> (r matches Err(e) && (e matches WizardError::BackendFailed(t) && t@
                == stderr_text@)),
            status_ok ==> (match json_doc_of(stdout_text@) {
                Some(m) => match m {
                    JsonModel::Arr { elems, .. } => r matches Ok(rows) && rows_match_models(
                        rows@,
                        rows_of_array_model(elems),
                    ),
                    _ => r == Err::<Vec<Row>, WizardError>(WizardError::UnexpectedShape),
                },
                None => r == Err::<Vec<Row>, WizardError>(WizardError::UnexpectedShape),
            }),
    {
        if !status_ok {
            return Err(WizardError::BackendFailed(stderr_text.to_owned()));
        }
        let parsed = match parse_json(stdout_text) {
            Some(v) => v,
            None => {
                return Err(WizardError::UnexpectedShape);
            },
        };
        let ghost m = json_model_of(parsed);
        let shape = json_shape(&parsed);
        proof {
            lemma_shape_pins_variant(shape, m);
        }
        match shape {
            JsonShape::Arr(items) => {
                let ghost elems = m->Arr_elems;
                proof {
                    assert(elems =~= items@.map_values(|v: serde_json::Value| json_model_of(v)));
                }
                let mut shapes: Vec<JsonShape> = Vec::new();
                let mut i: usize = 0;
                while i < items.len()
                    invariant
                        i <= items.len(),
                        shapes@.len() == i,
                        elems.len() == items@.len(),
                        forall|k: int|
                            0 <= k < items@.len() ==> elems[k] == json_model_of(
                                #[trigger] items@[k],
                            ),
                        forall|k: int|
                            0 <= k < i ==> shape_matches(#[trigger] shapes@[k], elems[k]),
                    decreases items.len() - i,
                {
                    shapes.push(json_shape(&items[i]));
                    i += 1;
                }
                proof {
                    lemma_rows_of_matching_shapes(shapes@, elems);
                }
                Ok(rows_from_shapes(shapes))
            },
            _ => Err(WizardError::UnexpectedShape),
        }
    }
}

} // verus!
