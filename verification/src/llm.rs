//! The code-generation client: builds the deterministic prompt, selects one
//! of the two providers from explicit credentials, strips optional fenced
//! code markers from the provider's free-form reply, and parses the cleaned
//! text as a structured `{javascript_code, schema}` record.
//!
//! The provider call itself is network work and stays outside the library;
//! callers perform it and hand its outcome to `interpret_generation`.

use vstd::prelude::*;
use vstd::string::StrSliceExecFns;
use vstd::string::StringExecFns;
use crate::errors::WizardError;
use crate::json::JsonShape;
use crate::json::json_shape;
use crate::json::parse_json;
use crate::json::JsonModel;
use crate::json::json_doc_of;
use crate::json::json_model_of;
use crate::json::lemma_shape_pins_variant;
use crate::rows::obj_pairs_model;
use crate::schema::ColumnModel;
use crate::schema::ColumnSchema;
use crate::schema::schema_model;
use crate::text::ends_with_spec;
use crate::text::starts_with_spec;
use crate::text::str_ends_with;
use crate::text::str_eq;
use crate::text::str_slice_to_string;
use crate::text::str_starts_with;
use crate::text::str_trim;
use crate::text::trim_spec;
use crate::text::lemma_trim_surround;
use crate::text::is_space;

verus! {

/// A parsed generation response: the generated code and the declared
/// schema of the rows it will produce.
pub struct LLMResponse {
    pub javascript_code: String,
    pub schema: Vec<ColumnSchema>,
}

/// Mathematical model of a generation response.
pub struct ResponseModel {
    pub code: Seq<char>,
    pub schema: Seq<ColumnModel>,
}

impl View for LLMResponse {
    type V = ResponseModel;

    open spec fn view(&self) -> ResponseModel {
        ResponseModel { code: self.javascript_code@, schema: schema_model(self.schema@) }
    }
}

/// The two interchangeable model providers, each holding its credential.
pub enum LLMProvider {
    OpenAI(String),
    Anthropic(String),
}

/// Mathematical model of a provider selection.
pub enum ProviderModel {
    OpenAI(Seq<char>),
    Anthropic(Seq<char>),
}

impl View for LLMProvider {
    type V = ProviderModel;

    open spec fn view(&self) -> ProviderModel {
        match self {
            LLMProvider::OpenAI(k) => ProviderModel::OpenAI(k@),
            LLMProvider::Anthropic(k) => ProviderModel::Anthropic(k@),
        }
    }
}

/// The code-generation client: one provider, selected at construction.
pub struct LLMClient {
    provider: LLMProvider,
}

impl View for LLMClient {
    type V = ProviderModel;

    closed spec fn view(&self) -> ProviderModel {
        self.provider@
    }
}

impl LLMClient {
    /// Selects the provider from explicit credentials: the first present
    /// one wins, and absence of both is a construction-time failure.
    pub fn new(openai_key: Option<String>, anthropic_key: Option<String>) -> (r: Result<
        LLMClient,
        WizardError,
    >)
        ensures
            openai_key matches Some(k) ==> (r matches Ok(c) && c@ == ProviderModel::OpenAI(k@)),
            openai_key is None ==> (anthropic_key matches Some(k) ==> (r matches Ok(c) && c@
                == ProviderModel::Anthropic(k@))),
            openai_key is None && anthropic_key is None ==> r == Err::<
                LLMClient,
                WizardError,
            >(WizardError::NoCredentials),
    {
        match openai_key {
            Some(k) => Ok(LLMClient { provider: LLMProvider::OpenAI(k) }),
            None => match anthropic_key {
                Some(k) => Ok(LLMClient { provider: LLMProvider::Anthropic(k) }),
                None => Err(WizardError::NoCredentials),
            },
        }
    }

    /// The selected provider, so that a caller can perform the network call.
    pub fn provider(&self) -> (r: &LLMProvider)
        ensures
            r@ == self@,
    {
        &self.provider
    }

    /// Builds the full request prompt for the selected provider.
    pub fn build_prompt(&self, query: &str, now_text: &str) -> (r: String)
        ensures
            r@ == prompt_spec(self@, query@, now_text@),
    {
        let mut p = PROMPT_INTRO.to_owned();
        p.append(now_text);
        p.append(PROMPT_QUERY_LEAD);
        p.append(query);
        p.append(PROMPT_RULES);
        match &self.provider {
            LLMProvider::OpenAI(_) => p.append(OPENAI_SUFFIX),
            LLMProvider::Anthropic(_) => p.append(ANTHROPIC_SUFFIX),
        }
        proof {
            assert(p@ =~= prompt_spec(self@, query@, now_text@));
        }
        p
    }
}

/// The fixed prompt text around the current time and the query, and the
/// provider-specific closing instruction.
pub open spec fn prompt_spec(provider: ProviderModel, q: Seq<char>, now: Seq<char>) -> Seq<char> {
    PROMPT_INTRO@ + now + PROMPT_QUERY_LEAD@ + q + PROMPT_RULES@ + (match provider {
        ProviderModel::OpenAI(_) => OPENAI_SUFFIX@,
        ProviderModel::Anthropic(_) => ANTHROPIC_SUFFIX@,
    })
}

pub const PROMPT_INTRO: &'static str =
    "You are a data wizard that helps fetch data based on natural language queries.\n\nCurrent date and time: ";

pub const PROMPT_QUERY_LEAD: &'static str = "\n\nUser query: \"";

pub const PROMPT_RULES: &'static str =
    "\"\n\nIMPORTANT: If the user asks for data with relative time periods (e.g., \"last 7 days\", \"past week\", \"yesterday\"), calculate the dates based on the current date above. Do NOT use fixed dates.\n\nGenerate JavaScript code that fetches this data and returns it as an array of objects.\nAlso provide the schema of the data that will be returned.\n\nIMPORTANT RULES:\n1. The JavaScript code should define an async function called `fetch_data()` that returns an array of objects\n2. Each object represents a row of data\n3. Use the built-in fetch() function for HTTP requests\n4. Parse JSON responses with await response.json()\n5. ALWAYS use REAL, FREE APIs. NEVER make up API endpoints. Examples of real free APIs:\n   - Weather: wttr.in (e.g., await fetch('https://wttr.in/Seattle?format=j1'))\n   - Earthquakes: USGS (e.g., await fetch('https://earthquake.usgs.gov/earthquakes/feed/v1.0/summary/all_month.geojson'))\n   - Crypto: CoinGecko free tier\n   - IP info: await fetch('https://ipapi.co/json/')\n6. If no suitable FREE API exists for the query, return an error:\n   return [{error: 'No free API available', message: 'Cannot find a free API for: [query description]'}]\n7. If the API call fails, return the error details instead of raising\n8. NEVER return an empty array [] - always return error details if something goes wrong\n9. Include ALL relevant columns that make sense for the query\n10. The schema should match the data exactly and include all columns you return\n\nReturn your response as JSON in this exact format:\n{\n    \"javascript_code\": \"async function fetch_data() {\\n    // Your code here\\n    return data;\\n}\",\n    \"schema\": [\n        {\"name\": \"column1\", \"data_type\": \"varchar\"},\n        {\"name\": \"column2\", \"data_type\": \"double\"}\n    ]\n}\n\nSupported data types: varchar, double, bigint, date";

pub const OPENAI_SUFFIX: &'static str =
    "\n\nIMPORTANT: Return ONLY valid JSON matching the specified format.";

pub const ANTHROPIC_SUFFIX: &'static str =
    "\n\nIMPORTANT: Return ONLY valid JSON, no additional text.";

/// The reply text with an optional surrounding fenced-code marker removed:
/// a leading marker with an optional language tag and a trailing matching
/// marker, with the remainder trimmed. Text not wrapped that way (including
/// text too short to hold both markers) is left as it is.
pub open spec fn strip_fences_spec(s: Seq<char>) -> Seq<char> {
    if starts_with_spec(s, "```json"@) && ends_with_spec(s, "```"@) && s.len() >= 10 {
        trim_spec(s.subrange(7, s.len() - 3))
    } else if starts_with_spec(s, "```"@) && ends_with_spec(s, "```"@) && s.len() >= 6 {
        trim_spec(s.subrange(3, s.len() - 3))
    } else {
        s
    }
}

/// Removes an optional surrounding fenced-code marker from a reply.
pub fn strip_code_fences(text: &str) -> (r: String)
    ensures
        r@ == strip_fences_spec(text@),
{
    let n = text.unicode_len();
    if str_starts_with(text, "```json") && str_ends_with(text, "```") && n >= 10 {
        proof {
            reveal_strlit("```json");
            reveal_strlit("```");
        }
        let mid = str_slice_to_string(text, 7, n - 3);
        str_trim(mid.as_str())
    } else if str_starts_with(text, "```") && str_ends_with(text, "```") && n >= 6 {
        proof {
            reveal_strlit("```");
        }
        let mid = str_slice_to_string(text, 3, n - 3);
        str_trim(mid.as_str())
    } else {
        text.to_owned()
    }
}

/// Fence stripping is transparent: a reply wrapped in a fence marker (with
/// or without the language tag) strips to the same text as the bare reply,
/// for any trimmed reply that does not itself start with a marker; for the
/// untagged wrapping the reply must not start with the language tag either,
/// which would otherwise complete a tagged marker.
pub proof fn lemma_fence_stripping(t: Seq<char>)
    requires
        !starts_with_spec(t, "```"@),
        trim_spec(t) == t,
    ensures
        strip_fences_spec(t) == t,
        strip_fences_spec("```json"@ + t + "```"@) == t,
        !starts_with_spec(t, "json"@) ==> strip_fences_spec("```"@ + t + "```"@) == t,
{
    reveal_strlit("```json");
    reveal_strlit("```");
    reveal_strlit("json");

    // The bare reply is not wrapped, so it is left as it is.
    if starts_with_spec(t, "```json"@) {
        assert(t.take(7)[0] == t[0]);
        assert(t.take(3) =~= "```"@);
    }

    // Wrapped with the language tag.
    let sj = "```json"@ + t + "```"@;
    assert(sj.take(7) =~= "```json"@);
    assert(sj.skip(sj.len() - 3) =~= "```"@);
    assert(sj.subrange(7, sj.len() - 3) =~= t);

    // Wrapped without the language tag.
    let sp = "```"@ + t + "```"@;
    assert(sp.take(3) =~= "```"@);
    assert(sp.skip(sp.len() - 3) =~= "```"@);
    assert(sp.subrange(3, sp.len() - 3) =~= t);
    if !starts_with_spec(t, "json"@) && starts_with_spec(sp, "```json"@) {
        let pre = sp.take(7);
        if t.len() >= 4 {
            assert(t.take(4) =~= "json"@) by {
                assert(forall|k: int| 0 <= k < 4 ==> t.take(4)[k] == pre[k + 3]);
            }
        } else {
            // The tail of the short wrapped text is a backtick where the
            // tag would need a letter.
            assert(pre[3 + t.len() as int] == sp[3 + t.len() as int]);
            assert(sp[3 + t.len() as int] == '`');
        }
    }
}

/// Fence stripping is also transparent to the usual newline layout: a reply
/// wrapped in fence markers on their own lines strips to the bare reply.
pub proof fn lemma_fence_stripping_padded(t: Seq<char>)
    requires
        trim_spec(t) == t,
    ensures
        strip_fences_spec("```json\n"@ + t + "\n```"@) == t,
        strip_fences_spec("```\n"@ + t + "\n```"@) == t,
{
    reveal_strlit("```json\n");
    reveal_strlit("```\n");
    reveal_strlit("\n```");
    reveal_strlit("```json");
    reveal_strlit("```");

    let pad = seq!['\n'];
    assert(forall|k: int| 0 <= k < pad.len() ==> is_space(pad[k]));
    lemma_trim_surround(pad, t, pad);

    let sj = "```json\n"@ + t + "\n```"@;
    assert(sj.take(7) =~= "```json"@);
    assert(sj.skip(sj.len() - 3) =~= "```"@);
    assert(sj.subrange(7, sj.len() - 3) =~= pad + t + pad);

    let sp = "```\n"@ + t + "\n```"@;
    assert(sp.take(3) =~= "```"@);
    assert(sp.skip(sp.len() - 3) =~= "```"@);
    assert(sp.subrange(3, sp.len() - 3) =~= pad + t + pad);
    if starts_with_spec(sp, "```json"@) {
        assert(sp.take(7)[3] == sp[3]);
        assert(sp[3] == '\n');
    }
}

/// First-match lookup of a field name in an object model.
pub open spec fn first_field(fields: Seq<(Seq<char>, JsonModel)>, name: Seq<char>) -> Option<
    JsonModel,
>
    decreases fields.len(),
{
    if fields.len() == 0 {
        None
    } else if fields[0].0 == name {
        Some(fields[0].1)
    } else {
        first_field(fields.skip(1), name)
    }
}

proof fn lemma_first_field_found(fields: Seq<(Seq<char>, JsonModel)>, name: Seq<char>, i: int)
    requires
        0 <= i < fields.len(),
        fields[i].0 == name,
        forall|j: int| 0 <= j < i ==> fields[j].0 != name,
    ensures
        first_field(fields, name) == Some(fields[i].1),
    decreases i,
{
    if i > 0 {
        lemma_first_field_found(fields.skip(1), name, i - 1);
    }
}

proof fn lemma_first_field_absent(fields: Seq<(Seq<char>, JsonModel)>, name: Seq<char>)
    requires
        forall|j: int| 0 <= j < fields.len() ==> fields[j].0 != name,
    ensures
        first_field(fields, name) is None,
    decreases fields.len(),
{
    if fields.len() > 0 {
        lemma_first_field_absent(fields.skip(1), name);
    }
}

/// The schema column an element model declares, when it is an object with
/// textual `name` and `data_type` fields.
pub open spec fn column_of_model(m: JsonModel) -> Option<ColumnModel> {
    match m {
        JsonModel::Obj { fields, .. } => match (
            first_field(fields, "name"@),
            first_field(fields, "data_type"@),
        ) {
            (Some(JsonModel::Text(n)), Some(JsonModel::Text(d))) => Some(
                ColumnModel { name: n, data_type: d },
            ),
            _ => None,
        },
        _ => None,
    }
}

/// The declared schema an array of element models carries, when every
/// element declares a column.
pub open spec fn schema_of_models(ms: Seq<JsonModel>) -> Option<Seq<ColumnModel>> {
    if forall|i: int| 0 <= i < ms.len() ==> (#[trigger] column_of_model(ms[i])) is Some {
        Some(Seq::new(ms.len(), |i: int| column_of_model(ms[i])->Some_0))
    } else {
        None
    }
}

/// The generation payload a document model carries: an object whose code
/// field (under its primary name or its historical alias) is text and
/// whose `schema` field is an array of column declarations.
pub open spec fn payload_of(m: JsonModel) -> Option<(Seq<char>, Seq<ColumnModel>)> {
    match m {
        JsonModel::Obj { fields, .. } => {
            let code_field = if first_field(fields, "javascript_code"@) is Some {
                first_field(fields, "javascript_code"@)
            } else {
                first_field(fields, "python_code"@)
            };
            match (code_field, first_field(fields, "schema"@)) {
                (Some(JsonModel::Text(code)), Some(JsonModel::Arr { elems, .. })) => match
                    schema_of_models(elems) {
                    Some(cols) => Some((code, cols)),
                    None => None,
                },
                _ => None,
            }
        },
        _ => None,
    }
}

proof fn lemma_schema_item_bad(ms: Seq<JsonModel>, i: int)
    requires
        0 <= i < ms.len(),
        column_of_model(ms[i]) is None,
    ensures
        schema_of_models(ms) is None,
{
    if forall|k: int| 0 <= k < ms.len() ==> (#[trigger] column_of_model(ms[k])) is Some {
        assert(column_of_model(ms[i]) is Some);
    }
}

/// Looks up a field of a decomposed object by name; what it yields is the
/// object model's first field of that name.
pub fn find_field<'a>(pairs: &'a Vec<(String, serde_json::Value)>, name: &str) -> (r: Option<
    &'a serde_json::Value,
>)
    ensures
        match r {
            Some(v) => first_field(obj_pairs_model(pairs@), name@) == Some(json_model_of(*v)),
            None => first_field(obj_pairs_model(pairs@), name@) is None,
        },
{
    let n = pairs.len();
    let mut i: usize = 0;
    while i < n
        invariant
            i <= n,
            n == pairs.len(),
            forall|j: int| 0 <= j < i ==> pairs@[j].0@ != name@,
        decreases n - i,
    {
        if str_eq(pairs[i].0.as_str(), name) {
            proof {
                let fields = obj_pairs_model(pairs@);
                assert(forall|j: int| 0 <= j < i ==> #[trigger] fields[j].0 != name@);
                lemma_first_field_found(fields, name@, i as int);
            }
            return Some(&pairs[i].1);
        }
        i += 1;
    }
    proof {
        let fields = obj_pairs_model(pairs@);
        assert(forall|j: int| 0 <= j < fields.len() ==> #[trigger] fields[j].0 != name@);
        lemma_first_field_absent(fields, name@);
    }
    None
}

/// Parses the declared schema array: every element must be an object with
/// textual `name` and `data_type` fields; what comes back is exactly the
/// schema the element models declare.
fn parse_schema_items(items: &Vec<serde_json::Value>) -> (r: Option<Vec<ColumnSchema>>)
    ensures
        ({
            let ms = items@.map_values(|v: serde_json::Value| json_model_of(v));
            match r {
                Some(cols) => schema_of_models(ms) == Some(schema_model(cols@)),
                None => schema_of_models(ms) is None,
            }
        }),
{
    let ghost ms = items@.map_values(|v: serde_json::Value| json_model_of(v));
    let mut out: Vec<ColumnSchema> = Vec::new();
    let mut i: usize = 0;
    while i < items.len()
        invariant
            i <= items.len(),
            out@.len() == i,
            ms == items@.map_values(|v: serde_json::Value| json_model_of(v)),
            forall|k: int| 0 <= k < i ==> column_of_model(#[trigger] ms[k]) == Some(out@[k]@),
        decreases items.len() - i,
    {
        let shape = json_shape(&items[i]);
        proof {
            assert(ms[i as int] == json_model_of(items@[i as int]));
            lemma_shape_pins_variant(shape, ms[i as int]);
        }
        match shape {
            JsonShape::Obj(pairs) => {
                proof {
                    assert(ms[i as int]->Obj_fields =~= obj_pairs_model(pairs@));
                }
                let name = match find_field(&pairs, "name") {
                    Some(v) => {
                        let nshape = json_shape(v);
                        proof {
                            lemma_shape_pins_variant(nshape, json_model_of(*v));
                        }
                        match nshape {
                            JsonShape::Text(t) => t,
                            _ => {
                                proof {
                                    lemma_schema_item_bad(ms, i as int);
                                }
                                return None;
                            },
                        }
                    },
                    None => {
                        proof {
                            lemma_schema_item_bad(ms, i as int);
                        }
                        return None;
                    },
                };
                let data_type = match find_field(&pairs, "data_type") {
                    Some(v) => {
                        let dshape = json_shape(v);
                        proof {
                            lemma_shape_pins_variant(dshape, json_model_of(*v));
                        }
                        match dshape {
                            JsonShape::Text(t) => t,
                            _ => {
                                proof {
                                    lemma_schema_item_bad(ms, i as int);
                                }
                                return None;
                            },
                        }
                    },
                    None => {
                        proof {
                            lemma_schema_item_bad(ms, i as int);
                        }
                        return None;
                    },
                };
                out.push(ColumnSchema { name, data_type });
            },
            _ => {
                proof {
                    lemma_schema_item_bad(ms, i as int);
                }
                return None;
            },
        }
        i += 1;
    }
    proof {
        assert(Seq::new(ms.len(), |k: int| column_of_model(ms[k])->Some_0) =~= schema_model(
            out@,
        ));
    }
    Some(out)
}

/// Parses a provider reply into a generation response: strips an optional
/// fence marker, parses the remainder as JSON, and reads the generated
/// code (under its primary field name or its historical alias) and the
/// declared schema. The reply yields exactly the payload its document
/// model carries; every failure is a malformed response carrying the raw
/// reply.
pub fn parse_llm_payload(text: &str) -> (r: Result<LLMResponse, WizardError>)
    ensures
        ({
            let doc = json_doc_of(strip_fences_spec(text@));
            match doc {
                Some(m) => match payload_of(m) {
                    Some(p) => r matches Ok(resp) && resp@.code == p.0 && resp@.schema == p.1,
                    None => r matches Err(e) && (e matches WizardError::MalformedResponse(raw)
                        && raw@ == text@),
                },
                None => r matches Err(e) && (e matches WizardError::MalformedResponse(raw)
                    && raw@ == text@),
            }
        }),
{
    let cleaned = strip_code_fences(text);
    let parsed = match parse_json(cleaned.as_str()) {
        Some(v) => v,
        None => {
            return Err(WizardError::MalformedResponse(text.to_owned()));
        },
    };
    let ghost m = json_model_of(parsed);
    let shape = json_shape(&parsed);
    proof {
        lemma_shape_pins_variant(shape, m);
    }
    let pairs = match shape {
        JsonShape::Obj(pairs) => pairs,
        _ => {
            return Err(WizardError::MalformedResponse(text.to_owned()));
        },
    };
    proof {
        assert(m->Obj_fields =~= obj_pairs_model(pairs@));
    }
    let code_value = match find_field(&pairs, "javascript_code") {
        Some(v) => v,
        None => match find_field(&pairs, "python_code") {
            Some(v) => v,
            None => {
                return Err(WizardError::MalformedResponse(text.to_owned()));
            },
        },
    };
    let cshape = json_shape(code_value);
    proof {
        lemma_shape_pins_variant(cshape, json_model_of(*code_value));
    }
    let code = match cshape {
        JsonShape::Text(t) => t,
        _ => {
            return Err(WizardError::MalformedResponse(text.to_owned()));
        },
    };
    let schema_value = match find_field(&pairs, "schema") {
        Some(v) => v,
        None => {
            return Err(WizardError::MalformedResponse(text.to_owned()));
        },
    };
    let sshape = json_shape(schema_value);
    proof {
        lemma_shape_pins_variant(sshape, json_model_of(*schema_value));
    }
    let schema_items = match sshape {
        JsonShape::Arr(items) => items,
        _ => {
            return Err(WizardError::MalformedResponse(text.to_owned()));
        },
    };
    proof {
        assert(json_model_of(*schema_value)->Arr_elems =~= schema_items@.map_values(
            |v: serde_json::Value| json_model_of(v),
        ));
    }
    let schema = match parse_schema_items(&schema_items) {
        Some(cols) => cols,
        None => {
            return Err(WizardError::MalformedResponse(text.to_owned()));
        },
    };
    Ok(LLMResponse { javascript_code: code, schema })
}

/// Turns a provider-call outcome into a generation result: a provider
/// error is terminal for this bind and is never retried; a reply goes
/// through structured parsing.
pub fn interpret_generation(outcome: Result<String, String>) -> (r: Result<
    LLMResponse,
    WizardError,
>)
    ensures
        outcome matches Err(e) ==> r == Err::<LLMResponse, WizardError>(
            WizardError::GenerationFailed(e),
        ),
        outcome matches Ok(text) ==> ({
            let doc = json_doc_of(strip_fences_spec(text@));
            match doc {
                Some(m) => match payload_of(m) {
                    Some(p) => r matches Ok(resp) && resp@.code == p.0 && resp@.schema == p.1,
                    None => r matches Err(e2) && (e2 matches WizardError::MalformedResponse(raw)
                        && raw@ == text@),
                },
                None => r matches Err(e2) && (e2 matches WizardError::MalformedResponse(raw)
                    && raw@ == text@),
            }
        }),
{
    match outcome {
        Ok(text) => parse_llm_payload(text.as_str()),
        Err(e) => Err(WizardError::GenerationFailed(e)),
    }
}

} // verus!
