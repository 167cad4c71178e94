use data_wizard::llm::{
    interpret_generation, parse_llm_payload, strip_code_fences, ANTHROPIC_SUFFIX, OPENAI_SUFFIX,
    PROMPT_INTRO, PROMPT_QUERY_LEAD, PROMPT_RULES,
};
use data_wizard::{LLMClient, LLMProvider, WizardError};

const PAYLOAD: &str = "{\"javascript_code\": \"async function fetch_data() { return [{a: 1}]; }\", \"schema\": [{\"name\": \"a\", \"data_type\": \"bigint\"}]}";

#[test]
fn client_prefers_openai() {
    let c = LLMClient::new(Some("k1".to_string()), Some("k2".to_string())).unwrap();
    assert!(matches!(c.provider(), LLMProvider::OpenAI(k) if k == "k1"));
}

#[test]
fn client_falls_back_to_anthropic() {
    let c = LLMClient::new(None, Some("k2".to_string())).unwrap();
    assert!(matches!(c.provider(), LLMProvider::Anthropic(k) if k == "k2"));
}

#[test]
fn client_without_credentials_fails() {
    let r = LLMClient::new(None, None);
    assert!(matches!(r, Err(WizardError::NoCredentials)));
}

#[test]
fn prompt_is_deterministic_concatenation() {
    let c = LLMClient::new(Some("k".to_string()), None).unwrap();
    let p = c.build_prompt("recent earthquakes", "2024-01-02 03:04:05");
    let expected = format!(
        "{}{}{}{}{}{}",
        PROMPT_INTRO, "2024-01-02 03:04:05", PROMPT_QUERY_LEAD, "recent earthquakes",
        PROMPT_RULES, OPENAI_SUFFIX
    );
    assert_eq!(p, expected);
}

#[test]
fn prompt_suffix_follows_provider() {
    let c = LLMClient::new(None, Some("k".to_string())).unwrap();
    let p = c.build_prompt("q", "t");
    assert!(p.ends_with(ANTHROPIC_SUFFIX));
}

#[test]
fn fences_untouched_text() {
    assert_eq!(strip_code_fences("{\"a\": 1}"), "{\"a\": 1}");
}

#[test]
fn fences_plain_marker() {
    assert_eq!(strip_code_fences("```{\"a\": 1}```"), "{\"a\": 1}");
}

#[test]
fn fences_with_language_tag() {
    assert_eq!(strip_code_fences("```json{\"a\": 1}```"), "{\"a\": 1}");
}

#[test]
fn fences_with_newlines() {
    assert_eq!(strip_code_fences("```json\n{\"a\": 1}\n```"), "{\"a\": 1}");
    assert_eq!(strip_code_fences("```\n{\"a\": 1}\n```"), "{\"a\": 1}");
}

#[test]
fn fences_degenerate_marker_text_left_alone() {
    assert_eq!(strip_code_fences("```"), "```");
    assert_eq!(strip_code_fences("````"), "````");
}

#[test]
fn fences_around_nothing_yield_empty_text() {
    assert_eq!(strip_code_fences("``````"), "");
    assert_eq!(strip_code_fences("```json```"), "");
    assert_eq!(strip_code_fences("```json\n```"), "");
}

#[test]
fn payload_parses_unwrapped() {
    let r = parse_llm_payload(PAYLOAD).unwrap();
    assert_eq!(r.javascript_code, "async function fetch_data() { return [{a: 1}]; }");
    assert_eq!(r.schema.len(), 1);
    assert_eq!(r.schema[0].name, "a");
    assert_eq!(r.schema[0].data_type, "bigint");
}

#[test]
fn payload_parses_identically_when_fenced() {
    let plain = parse_llm_payload(PAYLOAD).unwrap();
    let fenced = parse_llm_payload(&format!("```json\n{}\n```", PAYLOAD)).unwrap();
    let untagged = parse_llm_payload(&format!("```\n{}\n```", PAYLOAD)).unwrap();
    assert_eq!(plain.javascript_code, fenced.javascript_code);
    assert_eq!(plain.javascript_code, untagged.javascript_code);
    assert_eq!(plain.schema.len(), fenced.schema.len());
    assert_eq!(plain.schema[0].name, untagged.schema[0].name);
}

#[test]
fn payload_accepts_python_code_alias() {
    let text = "{\"python_code\": \"def fetch_data(): return []\", \"schema\": []}";
    let r = parse_llm_payload(text).unwrap();
    assert_eq!(r.javascript_code, "def fetch_data(): return []");
    assert_eq!(r.schema.len(), 0);
}

#[test]
fn payload_invalid_json_is_malformed_with_raw_text() {
    let r = parse_llm_payload("not json at all");
    assert!(matches!(r, Err(WizardError::MalformedResponse(raw)) if raw == "not json at all"));
}

#[test]
fn payload_non_object_is_malformed() {
    let r = parse_llm_payload("[1, 2, 3]");
    assert!(matches!(r, Err(WizardError::MalformedResponse(_))));
}

#[test]
fn payload_missing_code_is_malformed() {
    let r = parse_llm_payload("{\"schema\": []}");
    assert!(matches!(r, Err(WizardError::MalformedResponse(_))));
}

#[test]
fn payload_missing_schema_is_malformed() {
    let r = parse_llm_payload("{\"javascript_code\": \"x\"}");
    assert!(matches!(r, Err(WizardError::MalformedResponse(_))));
}

#[test]
fn payload_bad_schema_item_is_malformed() {
    let text = "{\"javascript_code\": \"x\", \"schema\": [{\"name\": \"a\"}]}";
    let r = parse_llm_payload(text);
    assert!(matches!(r, Err(WizardError::MalformedResponse(_))));
    let text2 = "{\"javascript_code\": \"x\", \"schema\": [7]}";
    assert!(matches!(parse_llm_payload(text2), Err(WizardError::MalformedResponse(_))));
}

#[test]
fn error_messages_name_the_failure() {
    assert_eq!(
        WizardError::NoCredentials.message(),
        "No API key found. Set OPENAI_API_KEY or ANTHROPIC_API_KEY"
    );
    assert_eq!(
        WizardError::GenerationFailed("down".to_string()).message(),
        "generation failed: down"
    );
    assert_eq!(
        WizardError::MalformedResponse("???".to_string()).message(),
        "malformed model response: ???"
    );
    assert_eq!(
        WizardError::BackendFailed("boom".to_string()).message(),
        "sandboxed execution failed: boom"
    );
    assert_eq!(WizardError::UnexpectedShape.message(), "unexpected execution result shape");
}

#[test]
fn provider_error_is_generation_failed() {
    let r = interpret_generation(Err("rate limited".to_string()));
    assert!(matches!(r, Err(WizardError::GenerationFailed(e)) if e == "rate limited"));
}

#[test]
fn provider_reply_goes_through_parsing() {
    let r = interpret_generation(Ok(PAYLOAD.to_string())).unwrap();
    assert_eq!(r.schema[0].data_type, "bigint");
}
