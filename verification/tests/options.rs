use std::time::Duration;

use worker_cache::options::{clone_strings, deserialize, serialize};
use worker_cache::CacheOptions;

#[test]
fn default_options() {
    let options = CacheOptions::default();
    assert_eq!(options.worker, "");
    assert_eq!(options.api_key, "");
    assert_eq!(options.revalidate, Some(Duration::from_secs(7 * 24 * 60 * 60)));
    assert!(options.tags.is_empty());
    assert_eq!(options.should_cache, None);
    assert_eq!(options.ttl_millis(), Some(604_800_000));
}

#[test]
fn with_tags_replaces_only_the_tags() {
    let options = CacheOptions {
        worker: String::from("https://cache.example"),
        api_key: String::from("k"),
        revalidate: Some(Duration::from_millis(1500)),
        tags: vec![String::from("old")],
        should_cache: Some(false),
    };
    let changed = options.with_tags(vec![String::from("a"), String::from("b")]);
    assert_eq!(changed.worker, "https://cache.example");
    assert_eq!(changed.api_key, "k");
    assert_eq!(changed.revalidate, Some(Duration::from_millis(1500)));
    assert_eq!(changed.tags, vec!["a", "b"]);
    assert_eq!(changed.should_cache, Some(false));
}

#[test]
fn clone_keeps_every_field() {
    let options = CacheOptions {
        worker: String::from("w"),
        api_key: String::from("k"),
        revalidate: None,
        tags: vec![String::from("t1"), String::from("t2")],
        should_cache: Some(true),
    };
    let copy = options.clone();
    assert_eq!(copy.worker, options.worker);
    assert_eq!(copy.api_key, options.api_key);
    assert_eq!(copy.revalidate, options.revalidate);
    assert_eq!(copy.tags, options.tags);
    assert_eq!(copy.should_cache, options.should_cache);
}

#[test]
fn clone_strings_copies_in_order() {
    let tags = vec![String::from("b"), String::from("a"), String::from("b")];
    assert_eq!(clone_strings(&tags), tags);
    assert!(clone_strings(&[]).is_empty());
}

#[test]
fn ttl_is_the_expiration_in_milliseconds() {
    let mut options = CacheOptions::default();
    options.revalidate = Some(Duration::from_millis(5000));
    assert_eq!(options.ttl_millis(), Some(5000));
    options.revalidate = Some(Duration::from_secs(2));
    assert_eq!(options.ttl_millis(), Some(2000));
    options.revalidate = Some(Duration::from_micros(1999));
    assert_eq!(options.ttl_millis(), Some(1));
    options.revalidate = Some(Duration::ZERO);
    assert_eq!(options.ttl_millis(), Some(0));
    options.revalidate = None;
    assert_eq!(options.ttl_millis(), None);
}

#[test]
fn should_persist_defaults_to_yes() {
    let mut options = CacheOptions::default();
    assert!(options.should_persist());
    options.should_cache = Some(true);
    assert!(options.should_persist());
    options.should_cache = Some(false);
    assert!(!options.should_persist());
}

#[test]
fn serialize_gives_milliseconds() {
    assert_eq!(serialize(&Some(Duration::from_secs(3))), Some(3000));
    assert_eq!(serialize(&Some(Duration::from_nanos(2_500_000))), Some(2));
    assert_eq!(serialize(&None), None);
}

#[test]
fn deserialize_gives_the_duration() {
    assert_eq!(deserialize(Some(5000)), Some(Duration::from_secs(5)));
    assert_eq!(deserialize(Some(0)), Some(Duration::ZERO));
    assert_eq!(deserialize(None), None);
}

#[test]
fn milliseconds_survive_the_round_trip() {
    for millis in [0u64, 1, 999, 5000, 604_800_000, u64::MAX] {
        assert_eq!(serialize(&deserialize(Some(millis))), Some(millis));
    }
    assert_eq!(serialize(&deserialize(None)), None);
}
