use std::time::Duration;

use serde_json::Value;
use worker_cache::client::{
    found, invalidation_result, lookup_result, store_result, CacheResponse, Method, WorkerClient,
};
use worker_cache::{CacheError, CacheOptions};

fn options() -> CacheOptions {
    CacheOptions {
        worker: String::from("https://cache.example"),
        api_key: String::from("s3cr3t"),
        revalidate: Some(Duration::from_millis(5000)),
        tags: vec![String::from("users"), String::from("lists")],
        should_cache: None,
    }
}

fn reply(success: bool, data: Option<Value>, message: Option<&str>) -> CacheResponse {
    CacheResponse { success, data, message: message.map(String::from) }
}

fn transport_error() -> reqwest::Error {
    reqwest::Client::new().get("no scheme here").build().unwrap_err()
}

#[test]
fn client_keeps_its_options() {
    let client = WorkerClient::new(options());
    assert_eq!(client.options().worker, "https://cache.example");
    assert_eq!(client.options().api_key, "s3cr3t");
    assert_eq!(client.options().tags, vec!["users", "lists"]);
    let copy = client.clone();
    assert_eq!(copy.options().worker, "https://cache.example");
    assert_eq!(copy.options().revalidate, Some(Duration::from_millis(5000)));
}

#[test]
fn client_with_tags_changes_only_the_tags() {
    let client = WorkerClient::new(options()).with_tags(vec![String::from("x")]);
    assert_eq!(client.options().worker, "https://cache.example");
    assert_eq!(client.options().api_key, "s3cr3t");
    assert_eq!(client.options().revalidate, Some(Duration::from_millis(5000)));
    assert_eq!(client.options().tags, vec!["x"]);
    assert_eq!(client.options().should_cache, None);
}

#[test]
fn get_request_reads_the_key() {
    let request = WorkerClient::new(options()).get("1f2e");
    assert_eq!(request.method, Method::Get);
    assert_eq!(request.url, "https://cache.example/get/1f2e");
    assert_eq!(request.authorization, "Bearer s3cr3t");
    assert!(request.body.is_none());
}

#[test]
fn set_request_carries_key_value_tags_and_ttl() {
    let request = WorkerClient::new(options()).set("abc", 17u32);
    assert_eq!(request.method, Method::Post);
    assert_eq!(request.url, "https://cache.example/set");
    assert_eq!(request.authorization, "Bearer s3cr3t");
    let body = request.body.unwrap();
    assert_eq!(body.key, "abc");
    assert_eq!(body.value, 17);
    assert_eq!(body.tags, vec!["users", "lists"]);
    assert_eq!(body.ttl, Some(5000));
}

#[test]
fn set_request_without_expiration_has_no_ttl() {
    let mut unset = options();
    unset.revalidate = None;
    let request = WorkerClient::new(unset).set("abc", "v");
    assert_eq!(request.body.unwrap().ttl, None);
}

#[test]
fn set_request_with_default_options_lives_a_week() {
    let request = WorkerClient::new(CacheOptions::default()).set("k", 1u8);
    assert_eq!(request.url, "/set");
    assert_eq!(request.authorization, "Bearer ");
    let body = request.body.unwrap();
    assert!(body.tags.is_empty());
    assert_eq!(body.ttl, Some(604_800_000));
}

#[test]
fn invalidate_request_carries_the_tags() {
    let tags = vec![String::from("a"), String::from("b")];
    let request = WorkerClient::new(options()).invalidate_tags(&tags);
    assert_eq!(request.method, Method::Post);
    assert_eq!(request.url, "https://cache.example/invalidate");
    assert_eq!(request.authorization, "Bearer s3cr3t");
    assert_eq!(request.body.unwrap(), tags);
}

#[test]
fn lookup_hit_gives_the_payload() {
    let r = lookup_result(Ok(reply(true, Some(Value::from(7)), None)));
    assert_eq!(r.unwrap(), Some(Value::from(7)));
}

#[test]
fn lookup_success_without_payload_is_a_miss() {
    let r = lookup_result(Ok(reply(true, None, Some("ignored"))));
    assert_eq!(r.unwrap(), None);
}

#[test]
fn lookup_failure_with_message_is_a_worker_error() {
    match lookup_result(Ok(reply(false, None, Some("boom")))) {
        Err(CacheError::Worker(text)) => assert_eq!(text, "boom"),
        other => panic!("unexpected: {:?}", other),
    }
}

#[test]
fn lookup_failure_with_message_hides_the_payload() {
    match lookup_result(Ok(reply(false, Some(Value::from(1)), Some("boom")))) {
        Err(CacheError::Worker(text)) => assert_eq!(text, "boom"),
        other => panic!("unexpected: {:?}", other),
    }
}

#[test]
fn lookup_failure_without_message_is_a_miss() {
    let r = lookup_result(Ok(reply(false, Some(Value::from(1)), None)));
    assert_eq!(r.unwrap(), None);
}

#[test]
fn lookup_transport_failure_is_a_network_error() {
    let error = transport_error();
    let text = error.to_string();
    match lookup_result(Err(error)) {
        Err(CacheError::Network(e)) => assert_eq!(e.to_string(), text),
        other => panic!("unexpected: {:?}", other),
    }
}

#[test]
fn found_wraps_a_decoded_value() {
    let decoded = serde_json::from_value::<Vec<u32>>(Value::from(vec![1u32, 2, 3]));
    assert_eq!(found(decoded).unwrap(), Some(vec![1, 2, 3]));
}

#[test]
fn found_turns_a_decoding_failure_into_a_serialization_error() {
    let decoded = serde_json::from_value::<u32>(Value::from("text"));
    match found(decoded) {
        Err(CacheError::Serialization(_)) => {}
        other => panic!("unexpected: {:?}", other),
    }
}

#[test]
fn store_success_is_ok() {
    assert!(store_result(Ok(reply(true, None, None))).is_ok());
    assert!(store_result(Ok(reply(true, None, Some("stored")))).is_ok());
}

#[test]
fn store_failure_with_message_is_a_worker_error() {
    match store_result(Ok(reply(false, None, Some("full")))) {
        Err(CacheError::Worker(text)) => assert_eq!(text, "full"),
        other => panic!("unexpected: {:?}", other),
    }
}

#[test]
fn store_failure_without_message_passes_as_success() {
    assert!(store_result(Ok(reply(false, None, None))).is_ok());
}

#[test]
fn store_transport_failure_is_a_network_error() {
    assert!(matches!(store_result(Err(transport_error())), Err(CacheError::Network(_))));
}

#[test]
fn invalidation_success_is_ok() {
    assert!(invalidation_result(Ok(reply(true, None, None))).is_ok());
}

#[test]
fn invalidation_failure_with_message_is_a_worker_error() {
    match invalidation_result(Ok(reply(false, None, Some("boom")))) {
        Err(CacheError::Worker(text)) => assert_eq!(text, "boom"),
        other => panic!("unexpected: {:?}", other),
    }
}

#[test]
fn invalidation_failure_without_message_is_a_cache_error() {
    match invalidation_result(Ok(reply(false, None, None))) {
        Err(CacheError::Cache(text)) => assert_eq!(text, "Failed to invalidate cache"),
        other => panic!("unexpected: {:?}", other),
    }
}

#[test]
fn invalidation_transport_failure_is_a_network_error() {
    assert!(matches!(invalidation_result(Err(transport_error())), Err(CacheError::Network(_))));
}

#[test]
fn error_texts() {
    assert_eq!(CacheError::Cache(String::from("odd")).to_text(), "Cache error: odd");
    assert_eq!(CacheError::Worker(String::from("boom")).to_text(), "Worker returned error: boom");
    let transport = transport_error();
    let expected = format!("Network error: {}", transport);
    assert_eq!(CacheError::Network(transport).to_text(), expected);
    let codec = serde_json::from_str::<u32>("x").unwrap_err();
    let expected = format!("Serialization error: {}", codec);
    assert_eq!(CacheError::Serialization(codec).to_text(), expected);
}

#[test]
fn errors_convert_from_their_sources() {
    assert!(matches!(CacheError::from(transport_error()), CacheError::Network(_)));
    let codec = serde_json::from_str::<u32>("x").unwrap_err();
    assert!(matches!(CacheError::from(codec), CacheError::Serialization(_)));
}
