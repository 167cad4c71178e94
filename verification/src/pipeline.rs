//! The bind stage: strip flags, consult the cache (skipped when busting),
//! and either reuse the stored (code, schema) pair or ask for generation.
//! The provider call is outside work; the caller performs it between
//! `bind_prepare` and `bind_after_generation` and hands its outcome back.

use vstd::prelude::*;
use crate::cache::CachedEntry;
use crate::cache::EntryModel;
use crate::cache::ResponseCache;
use crate::errors::WizardError;
use crate::flags::strip_flags;
use crate::flags::strip_flags_spec;
use crate::llm::LLMClient;
use crate::llm::LLMResponse;
use crate::llm::ProviderModel;
use crate::json::json_doc_of;
use crate::llm::interpret_generation;
use crate::llm::payload_of;
use crate::llm::prompt_spec;
use crate::llm::strip_fences_spec;
use crate::rows::Row;
use crate::schema::ColumnSchema;
use crate::schema::ColumnModel;
use crate::schema::clone_schema;
use crate::schema::schema_model;

verus! {

/// A materialized bound result set: produced once per bind invocation and
/// immutable thereafter, owned by the scan stage that consumes it.
pub struct BoundResultSet {
    pub cache_key: String,
    pub schema: Vec<ColumnSchema>,
    pub rows: Vec<Row>,
}

/// What the bind stage decided after the cache consultation.
pub enum BindStep {
    /// A stored pair is reused; the generation client is not invoked.
    UseCached { cache_key: String, debug: bool, code: String, schema: Vec<ColumnSchema> },
    /// Generation is needed; the caller performs the provider call with
    /// this prompt and hands the outcome to `bind_after_generation`.
    NeedGeneration { cache_key: String, debug: bool, bust_cache: bool, prompt: String },
}

/// Mathematical model of a bind decision.
pub enum BindStepModel {
    Reuse { key: Seq<char>, debug: bool, code: Seq<char>, schema: Seq<ColumnModel> },
    Generate { key: Seq<char>, debug: bool, bust: bool, prompt: Seq<char> },
}

impl View for BindStep {
    type V = BindStepModel;

    open spec fn view(&self) -> BindStepModel {
        match self {
            BindStep::UseCached { cache_key, debug, code, schema } => BindStepModel::Reuse {
                key: cache_key@,
                debug: *debug,
                code: code@,
                schema: schema_model(schema@),
            },
            BindStep::NeedGeneration { cache_key, debug, bust_cache, prompt } => {
                BindStepModel::Generate {
                    key: cache_key@,
                    debug: *debug,
                    bust: *bust_cache,
                    prompt: prompt@,
                }
            },
        }
    }
}

/// What the bind stage decides, as a function of the raw query, the entry
/// stored under its cache key, the selected provider, and the prompt time:
/// without busting, a stored pair is reused; otherwise generation is asked
/// for with the deterministic prompt.
pub open spec fn bind_step_of(
    raw: Seq<char>,
    cached: Option<EntryModel>,
    provider: ProviderModel,
    now: Seq<char>,
) -> BindStepModel {
    let key = strip_flags_spec(raw).0;
    let debug = strip_flags_spec(raw).1;
    let bust = strip_flags_spec(raw).2;
    if !bust && cached is Some {
        BindStepModel::Reuse {
            key,
            debug,
            code: cached->Some_0.code,
            schema: cached->Some_0.schema,
        }
    } else {
        BindStepModel::Generate { key, debug, bust, prompt: prompt_spec(provider, key, now) }
    }
}

/// Strips the control flags and consults the cache; busting skips the
/// lookup entirely.
pub fn bind_prepare(
    raw_query: &str,
    cache: &ResponseCache,
    client: &LLMClient,
    now_text: &str,
) -> (r: BindStep)
    ensures
        r@ == bind_step_of(
            raw_query@,
            cache.cached(strip_flags_spec(raw_query@).0),
            client@,
            now_text@,
        ),
{
    let parsed = strip_flags(raw_query);
    if !parsed.bust_cache {
        match cache.get(parsed.cache_key.as_str()) {
            Some(entry) => {
                return BindStep::UseCached {
                    cache_key: parsed.cache_key,
                    debug: parsed.debug,
                    code: entry.code.clone(),
                    schema: clone_schema(&entry.schema),
                };
            },
            None => {},
        }
    }
    let prompt = client.build_prompt(parsed.cache_key.as_str(), now_text);
    BindStep::NeedGeneration {
        cache_key: parsed.cache_key,
        debug: parsed.debug,
        bust_cache: parsed.bust_cache,
        prompt,
    }
}

/// Relies on `chrono::Local::now` (rendered through `Display`): the current
/// local date and time as text. The result depends on the wall clock;
/// nothing is promised of it.
#[verifier::external_body]
pub(crate) fn current_time_text() -> String {
    chrono::Local::now().to_string()
}

/// Like `bind_prepare`, but reads the wall clock itself for the prompt's
/// embedded time, which is therefore not pinned by the contract.
pub fn bind_prepare_now(raw_query: &str, cache: &ResponseCache, client: &LLMClient) -> (r:
    BindStep)
    ensures
        exists|now: Seq<char>|
            r@ == bind_step_of(
                raw_query@,
                cache.cached(strip_flags_spec(raw_query@).0),
                client@,
                now,
            ),
{
    let now_text = current_time_text();
    let r = bind_prepare(raw_query, cache, client, now_text.as_str());
    proof {
        assert(r@ == bind_step_of(
            raw_query@,
            cache.cached(strip_flags_spec(raw_query@).0),
            client@,
            now_text@,
        ));
    }
    r
}

/// Interprets a provider-call outcome and, on success, stores the parsed
/// pair in the cache under the bind's cache key (overwriting any previous
/// entry) with the generation time. Every other key's entry is untouched,
/// and on failure the cache is untouched entirely.
pub fn bind_after_generation(
    cache_key: &str,
    cache: &mut ResponseCache,
    outcome: Result<String, String>,
) -> (r: Result<LLMResponse, WizardError>)
    ensures
        r matches Ok(resp) ==> (final(cache).cached(cache_key@) matches Some(e) && e.code
            == resp@.code && e.schema == resp@.schema),
        r matches Ok(resp) ==> forall|k2: Seq<char>|
            k2 != cache_key@ ==> final(cache).cached(k2) == old(cache).cached(k2),
        r is Err ==> final(cache)@ == old(cache)@,
        outcome matches Err(e) ==> r == Err::<LLMResponse, WizardError>(
            WizardError::GenerationFailed(e),
        ),
        outcome matches Ok(text) ==> ({
            let doc = json_doc_of(strip_fences_spec(text@));
            match doc {
                Some(m) => match payload_of(m) {
                    Some(p) => r matches Ok(resp) && resp@.code == p.0 && resp@.schema == p.1,
                    None => r matches Err(e2) && (e2 matches WizardError::MalformedResponse(raw)
                        && raw@ == text@),
                },
                None => r matches Err(e2) && (e2 matches WizardError::MalformedResponse(raw)
                    && raw@ == text@),
            }
        }),
{
    match interpret_generation(outcome) {
        Ok(resp) => {
            let entry = CachedEntry {
                code: resp.javascript_code.clone(),
                schema: clone_schema(&resp.schema),
                generated_at: current_time_text(),
            };
            cache.put(cache_key, entry);
            Ok(resp)
        },
        Err(e) => Err(e),
    }
}

/// Cache idempotence: once an entry is stored under a query's cache key, a
/// bind of that query without the bust-cache flag reuses exactly the stored
/// code and schema; the generation path is not taken, whatever the provider
/// or the time.
pub proof fn lemma_cache_idempotence(
    raw: Seq<char>,
    e: EntryModel,
    provider: ProviderModel,
    now: Seq<char>,
)
    requires
        !strip_flags_spec(raw).2,
    ensures
        bind_step_of(raw, Some(e), provider, now) == (BindStepModel::Reuse {
            key: strip_flags_spec(raw).0,
            debug: strip_flags_spec(raw).1,
            code: e.code,
            schema: e.schema,
        }),
{
}

/// Cache bypass: a bind with the bust-cache flag asks for generation even
/// when an entry is stored under the cache key; the subsequent successful
/// generation overwrites that entry (see `bind_after_generation`).
pub proof fn lemma_cache_bypass(
    raw: Seq<char>,
    cached: Option<EntryModel>,
    provider: ProviderModel,
    now: Seq<char>,
)
    requires
        strip_flags_spec(raw).2,
    ensures
        bind_step_of(raw, cached, provider, now) == (BindStepModel::Generate {
            key: strip_flags_spec(raw).0,
            debug: strip_flags_spec(raw).1,
            bust: true,
            prompt: prompt_spec(provider, strip_flags_spec(raw).0, now),
        }),
{
}

} // verus!
