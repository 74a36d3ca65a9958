use protobuf::internal::{get_map_default_value, get_repeated_default_value, Private, SealedInternal};
use protobuf::map::{MapView, ProxiedInMapValue};
use protobuf::proxied::Proxied;
use protobuf::repeated::{ProxiedInRepeated, RepeatedView};

#[derive(Debug, Clone, PartialEq, Default)]
struct Inner {
    id: i32,
    label: String,
}

#[derive(Debug, Clone, PartialEq, Default)]
struct Outer {
    count: u64,
    inner: Inner,
    tags: Vec<String>,
}

impl SealedInternal for Outer {}
impl Proxied for Outer {}
impl ProxiedInRepeated for Outer {}
impl ProxiedInMapValue<i32> for Outer {}

#[test]
fn repeated_default_of_integer_is_zero() {
    let storage: Vec<i32> = Vec::new();
    let view = RepeatedView::from_raw(Private, storage.as_slice());
    assert_eq!(get_repeated_default_value(Private, view), 0i32);
    let storage: Vec<u64> = Vec::new();
    let view = RepeatedView::from_raw(Private, storage.as_slice());
    assert_eq!(get_repeated_default_value(Private, view), u64::default());
}

#[test]
fn repeated_default_of_text_is_empty() {
    let storage: Vec<String> = Vec::new();
    let view = RepeatedView::from_raw(Private, storage.as_slice());
    assert_eq!(get_repeated_default_value(Private, view), String::new());
}

#[test]
fn repeated_default_of_bool_is_false() {
    let storage: Vec<bool> = Vec::new();
    let view = RepeatedView::from_raw(Private, storage.as_slice());
    assert!(!get_repeated_default_value(Private, view));
}

#[test]
fn repeated_default_of_nested_message_is_its_default() {
    let storage: Vec<Outer> = Vec::new();
    let view = RepeatedView::from_raw(Private, storage.as_slice());
    let d = get_repeated_default_value(Private, view);
    assert_eq!(d, Outer::default());
    assert_eq!(d.count, 0);
    assert_eq!(d.inner, Inner { id: 0, label: String::new() });
    assert!(d.tags.is_empty());
}

#[test]
fn repeated_default_ignores_stored_elements() {
    let storage: Vec<u32> = vec![7, 8, 9];
    let view = RepeatedView::from_raw(Private, storage.as_slice());
    assert_eq!(get_repeated_default_value(Private, view), 0u32);
    assert_eq!(storage, vec![7, 8, 9]);
}

#[test]
fn map_default_of_integer_is_zero() {
    let storage: Vec<(String, u32)> = Vec::new();
    let view = MapView::from_raw(Private, storage.as_slice());
    assert_eq!(get_map_default_value(Private, view), 0u32);
}

#[test]
fn map_default_of_text_is_empty() {
    let storage: Vec<(i64, String)> = Vec::new();
    let view = MapView::from_raw(Private, storage.as_slice());
    assert_eq!(get_map_default_value(Private, view), String::default());
}

#[test]
fn map_default_of_nested_message_is_its_default() {
    let storage: Vec<(i32, Outer)> = Vec::new();
    let view = MapView::from_raw(Private, storage.as_slice());
    assert_eq!(get_map_default_value(Private, view), Outer::default());
}

#[test]
fn map_default_ignores_stored_entries() {
    let storage: Vec<(bool, i32)> = vec![(true, 5), (false, -3)];
    let view = MapView::from_raw(Private, storage.as_slice());
    assert_eq!(get_map_default_value(Private, view), 0i32);
}
