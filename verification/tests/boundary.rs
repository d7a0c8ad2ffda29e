use magic_eight_ball::cache::OracleCache;
use magic_eight_ball::generator::FixedAnswerGenerator;
use magic_eight_ball::generator::CycleRandom;
use magic_eight_ball::generator::EnumeratedRandomGenerator;
use magic_eight_ball::handler::answer_json_body;
use magic_eight_ball::handler::handle_question_request;
use magic_eight_ball::handler::handle_uncached_request;
use magic_eight_ball::handler::json_escape;
use magic_eight_ball::store::InMemoryStore;

#[test]
fn plain_text_is_untouched_by_escaping() {
    assert_eq!(json_escape("Yes, probably."), "Yes, probably.");
}

#[test]
fn quotes_backslashes_and_controls_are_escaped() {
    assert_eq!(json_escape("a\"b"), "a\\\"b");
    assert_eq!(json_escape("a\\b"), "a\\\\b");
    assert_eq!(json_escape("a\nb"), "a\\u000ab");
    assert_eq!(json_escape("\u{1f}"), "\\u001f");
}

#[test]
fn answer_body_is_a_json_object() {
    assert_eq!(answer_json_body("Absolutely!"), "{\"answer\": \"Absolutely!\"}");
    assert_eq!(answer_json_body("say \"no\""), "{\"answer\": \"say \\\"no\\\"\"}");
}

#[test]
fn empty_body_is_rejected_without_touching_the_cache() {
    let store = InMemoryStore::new();
    let mut cache = OracleCache::new(store, FixedAnswerGenerator::new("Unlikely".to_string()));
    let reply = handle_question_request(&mut cache, &Vec::new());
    assert_eq!(reply.status, 400);
    assert!(!reply.is_json);
    assert_eq!(reply.body, "Please ask a question.");
    assert_eq!(cache.store.get_calls, 0);
    assert_eq!(cache.store.set_calls, 0);
}

#[test]
fn a_question_body_is_answered_as_json() {
    let mut store = InMemoryStore::new();
    store.seed("Will it rain?", "Absolutely!");
    let mut cache = OracleCache::new(store, FixedAnswerGenerator::new("Unlikely".to_string()));
    let body: Vec<u8> = b"Will it rain?".to_vec();
    let reply = handle_question_request(&mut cache, &body);
    assert_eq!(reply.status, 200);
    assert!(reply.is_json);
    assert_eq!(reply.body, "{\"answer\": \"Absolutely!\"}");
}

#[test]
fn a_body_that_is_not_utf8_is_a_hard_failure() {
    let store = InMemoryStore::new();
    let mut cache = OracleCache::new(store, FixedAnswerGenerator::new("Unlikely".to_string()));
    let body: Vec<u8> = vec![0xff, 0xfe];
    let reply = handle_question_request(&mut cache, &body);
    assert_eq!(reply.status, 500);
    assert_eq!(cache.store.set_calls, 0);
}

#[test]
fn store_failure_surfaces_as_a_server_error() {
    let store = InMemoryStore::with_faults(true, false);
    let mut cache = OracleCache::new(store, FixedAnswerGenerator::new("Unlikely".to_string()));
    let body: Vec<u8> = b"Will it rain?".to_vec();
    let reply = handle_question_request(&mut cache, &body);
    assert_eq!(reply.status, 500);
    assert!(!reply.is_json);
}

#[test]
fn uncached_requests_draw_a_fresh_answer() {
    let rng = CycleRandom::new(vec![0]);
    let mut generator = EnumeratedRandomGenerator::with_standard_answers(rng);
    let reply = handle_uncached_request(&mut generator);
    assert_eq!(reply.status, 200);
    assert!(reply.is_json);
    assert_eq!(reply.body, "{\"answer\": \"Ask again later.\"}");
}
