use magic_eight_ball::cache::OracleCache;
use magic_eight_ball::cache::ResolveError;
use magic_eight_ball::generator::FailingGenerator;
use magic_eight_ball::generator::FixedAnswerGenerator;
use magic_eight_ball::generator::InferenceFailure;
use magic_eight_ball::store::AnswerStore;
use magic_eight_ball::store::InMemoryStore;
use magic_eight_ball::store::Lookup;
use magic_eight_ball::store::StoreFailure;

#[test]
fn the_placeholder_is_the_fixed_retry_answer() {
    assert_eq!(magic_eight_ball::placeholder_text(), "Ask again later.");
}

#[test]
fn a_later_write_for_a_key_overrides_an_earlier_one() {
    let mut store = InMemoryStore::new();
    store.seed("Will it rain?", "Unlikely");
    store.seed("Will it rain?", "Absolutely!");
    assert_eq!(
        store.get("Will it rain?"),
        Lookup::Found("Absolutely!".to_string())
    );
    assert_eq!(store.get("Will it snow?"), Lookup::NotFound);
}

#[test]
fn authoritative_hit_is_returned_without_a_write() {
    let mut store = InMemoryStore::new();
    store.seed("Will it rain?", "Absolutely!");
    let mut cache = OracleCache::new(store, FixedAnswerGenerator::new("Unlikely".to_string()));
    let answer = cache.resolve("Will it rain?").unwrap();
    assert_eq!(answer, "Absolutely!");
    assert_eq!(cache.store.set_calls, 0);
    assert_eq!(cache.store.get_calls, 1);
}

#[test]
fn placeholder_hit_rerolls_and_overwrites() {
    let mut store = InMemoryStore::new();
    store.seed("Will it rain?", "Ask again later.");
    let mut cache = OracleCache::new(store, FixedAnswerGenerator::new("Unlikely".to_string()));
    let answer = cache.resolve("Will it rain?").unwrap();
    assert_eq!(answer, "Unlikely");
    assert_eq!(cache.store.set_calls, 1);
    assert_eq!(
        cache.store.get("Will it rain?"),
        Lookup::Found("Unlikely".to_string())
    );
}

#[test]
fn placeholder_reroll_may_yield_the_placeholder_again() {
    let mut store = InMemoryStore::new();
    store.seed("Will it rain?", "Ask again later.");
    let mut cache = OracleCache::new(
        store,
        FixedAnswerGenerator::new("Ask again later.".to_string()),
    );
    let answer = cache.resolve("Will it rain?").unwrap();
    assert_eq!(answer, "Ask again later.");
    assert_eq!(cache.store.set_calls, 1);
}

#[test]
fn absence_generates_and_persists_exactly_once() {
    let store = InMemoryStore::new();
    let mut cache = OracleCache::new(store, FixedAnswerGenerator::new("Unlikely".to_string()));
    let answer = cache.resolve("Will it rain?").unwrap();
    assert_eq!(answer, "Unlikely");
    assert_eq!(cache.store.get_calls, 1);
    assert_eq!(cache.store.set_calls, 1);
    assert_eq!(
        cache.store.get("Will it rain?"),
        Lookup::Found("Unlikely".to_string())
    );
}

#[test]
fn second_resolution_returns_the_settled_answer_unchanged() {
    let store = InMemoryStore::new();
    let mut cache = OracleCache::new(store, FixedAnswerGenerator::new("Unlikely".to_string()));
    let first = cache.resolve("Will it rain?").unwrap();
    assert_eq!(first, "Unlikely");
    cache.generator.answer = "Absolutely!".to_string();
    let second = cache.resolve("Will it rain?").unwrap();
    assert_eq!(second, "Unlikely");
    assert_eq!(cache.store.set_calls, 1);
}

#[test]
fn distinct_questions_are_distinct_keys() {
    let store = InMemoryStore::new();
    let mut cache = OracleCache::new(store, FixedAnswerGenerator::new("Unlikely".to_string()));
    cache.resolve("Will it rain?").unwrap();
    cache.generator.answer = "Absolutely!".to_string();
    let other = cache.resolve("Will it rain").unwrap();
    assert_eq!(other, "Absolutely!");
    assert_eq!(cache.store.set_calls, 2);
}

#[test]
fn failing_lookup_propagates_as_store_failure() {
    let store = InMemoryStore::with_faults(true, false);
    let mut cache = OracleCache::new(store, FixedAnswerGenerator::new("Unlikely".to_string()));
    let res = cache.resolve("Will it rain?");
    assert_eq!(res, Err(ResolveError::StoreFailure(StoreFailure)));
}

#[test]
fn failing_write_withholds_the_generated_answer() {
    let store = InMemoryStore::with_faults(false, true);
    let mut cache = OracleCache::new(store, FixedAnswerGenerator::new("Unlikely".to_string()));
    let res = cache.resolve("Will it rain?");
    assert_eq!(res, Err(ResolveError::StoreFailure(StoreFailure)));
}

#[test]
fn failing_generator_propagates_as_inference_failure() {
    let store = InMemoryStore::new();
    let mut cache = OracleCache::new(store, FailingGenerator);
    let res = cache.resolve("Will it rain?");
    assert_eq!(res, Err(ResolveError::InferenceFailure(InferenceFailure)));
    assert_eq!(cache.store.set_calls, 0);
}
