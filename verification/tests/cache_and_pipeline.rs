use data_wizard::pipeline::{bind_after_generation, bind_prepare, bind_prepare_now, BindStep};
use data_wizard::{CachedEntry, ColumnSchema, LLMClient, ResponseCache, WizardError};

const PAYLOAD: &str = "{\"javascript_code\": \"async function fetch_data() { return [{a: 1}]; }\", \"schema\": [{\"name\": \"a\", \"data_type\": \"bigint\"}]}";

fn client() -> LLMClient {
    LLMClient::new(Some("key".to_string()), None).unwrap()
}

#[test]
fn cache_get_on_empty_store() {
    let cache = ResponseCache::new();
    assert!(cache.get("anything").is_none());
}

#[test]
fn cache_put_then_get() {
    let mut cache = ResponseCache::new();
    cache.put(
        "k",
        CachedEntry {
            code: "c".to_string(),
            schema: vec![ColumnSchema { name: "a".to_string(), data_type: "varchar".to_string() }],
            generated_at: "t".to_string(),
        },
    );
    let e = cache.get("k").unwrap();
    assert_eq!(e.code, "c");
    assert_eq!(e.schema.len(), 1);
    assert_eq!(e.schema[0].name, "a");
    assert!(cache.get("other").is_none());
}

#[test]
fn cache_put_replaces_and_keeps_other_keys() {
    let mut cache = ResponseCache::new();
    cache.put(
        "k1",
        CachedEntry { code: "one".to_string(), schema: vec![], generated_at: "t".to_string() },
    );
    cache.put(
        "k2",
        CachedEntry { code: "two".to_string(), schema: vec![], generated_at: "t".to_string() },
    );
    cache.put(
        "k1",
        CachedEntry { code: "three".to_string(), schema: vec![], generated_at: "t".to_string() },
    );
    assert_eq!(cache.get("k1").unwrap().code, "three");
    assert_eq!(cache.get("k2").unwrap().code, "two");
}

#[test]
fn bind_miss_asks_for_generation_with_prompt() {
    let cache = ResponseCache::new();
    let step = bind_prepare("recent earthquakes --debug", &cache, &client(), "now");
    match step {
        BindStep::NeedGeneration { cache_key, debug, bust_cache, prompt } => {
            assert_eq!(cache_key, "recent earthquakes");
            assert!(debug);
            assert!(!bust_cache);
            assert!(prompt.contains("recent earthquakes"));
            assert!(prompt.contains("now"));
        },
        _ => panic!("expected generation"),
    }
}

#[test]
fn bind_idempotence_second_bind_reuses_stored_pair() {
    let mut cache = ResponseCache::new();
    let c = client();
    let step = bind_prepare("recent earthquakes", &cache, &c, "now");
    assert!(matches!(step, BindStep::NeedGeneration { .. }));
    let resp =
        bind_after_generation("recent earthquakes", &mut cache, Ok(PAYLOAD.to_string())).unwrap();
    // The second bind of the same cache key reuses the stored pair without
    // invoking generation.
    let second = bind_prepare("recent earthquakes", &cache, &c, "later");
    match second {
        BindStep::UseCached { cache_key, code, schema, .. } => {
            assert_eq!(cache_key, "recent earthquakes");
            assert_eq!(code, resp.javascript_code);
            assert_eq!(schema.len(), resp.schema.len());
            assert_eq!(schema[0].name, resp.schema[0].name);
            assert_eq!(schema[0].data_type, resp.schema[0].data_type);
        },
        _ => panic!("expected a cache hit"),
    }
}

#[test]
fn bind_bust_cache_regenerates_and_overwrites() {
    let mut cache = ResponseCache::new();
    let c = client();
    cache.put(
        "q",
        CachedEntry { code: "old".to_string(), schema: vec![], generated_at: "t".to_string() },
    );
    // Busting skips the lookup even though an entry exists.
    let step = bind_prepare("q --bust-cache", &cache, &c, "now");
    assert!(matches!(step, BindStep::NeedGeneration { bust_cache: true, .. }));
    bind_after_generation("q", &mut cache, Ok(PAYLOAD.to_string())).unwrap();
    assert_eq!(
        cache.get("q").unwrap().code,
        "async function fetch_data() { return [{a: 1}]; }"
    );
}

#[test]
fn bind_generation_failure_leaves_cache_untouched() {
    let mut cache = ResponseCache::new();
    let r = bind_after_generation("q", &mut cache, Err("down".to_string()));
    assert!(matches!(r, Err(WizardError::GenerationFailed(e)) if e == "down"));
    assert!(cache.get("q").is_none());
}

#[test]
fn bind_malformed_reply_carries_raw_text() {
    let mut cache = ResponseCache::new();
    let r = bind_after_generation("q", &mut cache, Ok("???".to_string()));
    assert!(matches!(r, Err(WizardError::MalformedResponse(raw)) if raw == "???"));
    assert!(cache.get("q").is_none());
}

#[test]
fn bind_prepare_now_follows_same_decision() {
    let mut cache = ResponseCache::new();
    let c = client();
    cache.put(
        "q",
        CachedEntry { code: "stored".to_string(), schema: vec![], generated_at: "t".to_string() },
    );
    match bind_prepare_now("q", &cache, &c) {
        BindStep::UseCached { code, .. } => assert_eq!(code, "stored"),
        _ => panic!("expected a cache hit"),
    }
    match bind_prepare_now("missing", &cache, &c) {
        BindStep::NeedGeneration { cache_key, .. } => assert_eq!(cache_key, "missing"),
        _ => panic!("expected generation"),
    }
}
