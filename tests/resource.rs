use opentelemetry::{Key, KeyValue};
use opentelemetry_sdk::Resource;
use std::time::{Duration, Instant};
use telemetry_conf::{get_resource_attr, merge_in_order};

fn text_of(r: &Resource, key: &'static str) -> Option<String> {
    r.get(Key::new(key)).map(|v| v.as_str().into_owned())
}

#[test]
fn resource_names_the_telemetry_sdk() {
    let r = get_resource_attr();
    assert_eq!(text_of(&r, "telemetry.sdk.name"), Some("opentelemetry".to_string()));
    assert_eq!(text_of(&r, "telemetry.sdk.language"), Some("rust".to_string()));
    assert_eq!(text_of(&r, "telemetry.sdk.version"), Some("0.21.2".to_string()));
}

#[test]
fn resource_holds_each_detector_keys() {
    let r = get_resource_attr();
    assert!(text_of(&r, "os.type").is_some_and(|os| !os.is_empty()));
    assert!(text_of(&r, "process.pid").is_some_and(|pid| pid.parse::<u32>().is_ok()));
    assert!(text_of(&r, "process.command_args").is_some());
    assert!(text_of(&r, "service.name").is_some());
}

#[test]
fn resource_builder_is_deterministic() {
    let first = get_resource_attr();
    let second = get_resource_attr();
    assert_eq!(first, second);
    assert_eq!(first.len(), second.len());
}

#[test]
fn resource_builder_returns_promptly() {
    let start = Instant::now();
    let r = get_resource_attr();
    assert!(start.elapsed() < Duration::from_secs(5));
    assert!(!r.is_empty());
}

#[test]
fn merge_later_part_wins_on_shared_key() {
    let earlier = Resource::new(vec![KeyValue::new("k", "early"), KeyValue::new("a", "1")]);
    let later = Resource::new(vec![KeyValue::new("k", "late"), KeyValue::new("b", "2")]);
    let merged = merge_in_order(&vec![earlier, later]);
    assert_eq!(text_of(&merged, "k"), Some("late".to_string()));
    assert_eq!(text_of(&merged, "a"), Some("1".to_string()));
    assert_eq!(text_of(&merged, "b"), Some("2".to_string()));
    assert_eq!(merged.len(), 3);
}

#[test]
fn merge_last_definer_wins_over_three_parts() {
    let first = Resource::new(vec![KeyValue::new("k", "one")]);
    let second = Resource::new(vec![KeyValue::new("k", "two")]);
    let third = Resource::new(vec![KeyValue::new("other", "x")]);
    let merged = merge_in_order(&vec![first, second, third]);
    assert_eq!(text_of(&merged, "k"), Some("two".to_string()));
    assert_eq!(text_of(&merged, "other"), Some("x".to_string()));
}

#[test]
fn merge_keeps_typed_values() {
    let a = Resource::new(vec![KeyValue::new("n", 7_i64)]);
    let b = Resource::new(vec![KeyValue::new("flag", true)]);
    let merged = merge_in_order(&vec![a, b]);
    assert_eq!(text_of(&merged, "n"), Some("7".to_string()));
    assert_eq!(text_of(&merged, "flag"), Some("true".to_string()));
}

#[test]
fn merge_of_no_parts_is_empty() {
    let merged = merge_in_order(&vec![]);
    assert!(merged.is_empty());
}

#[test]
fn merge_with_empty_part_keeps_the_other() {
    let a = Resource::new(vec![KeyValue::new("a", "1")]);
    let merged = merge_in_order(&vec![Resource::empty(), a.clone(), Resource::empty()]);
    assert_eq!(merged, a);
}

#[test]
fn empty_detector_value_still_overrides() {
    let a = Resource::new(vec![KeyValue::new("d", "d-value")]);
    let b = Resource::new(vec![KeyValue::new("d", "")]);
    let merged = merge_in_order(&vec![a, b]);
    assert_eq!(text_of(&merged, "d"), Some(String::new()));
}
