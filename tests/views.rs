use protobuf::internal::Private;
use protobuf::map::MapView;
use protobuf::repeated::RepeatedView;

#[test]
fn repeated_view_reads_elements() {
    let storage: Vec<i64> = vec![10, -20, 30];
    let view = RepeatedView::from_raw(Private, storage.as_slice());
    assert_eq!(view.len(), 3);
    assert!(!view.is_empty());
    assert_eq!(view.get(0), Some(&10));
    assert_eq!(view.get(1), Some(&-20));
    assert_eq!(view.get(2), Some(&30));
    assert_eq!(view.get(3), None);
}

#[test]
fn repeated_view_of_empty_field() {
    let storage: Vec<String> = Vec::new();
    let view = RepeatedView::from_raw(Private, storage.as_slice());
    assert_eq!(view.len(), 0);
    assert!(view.is_empty());
    assert_eq!(view.get(0), None);
    assert_eq!(view.get(usize::MAX), None);
}

#[test]
fn map_view_counts_entries() {
    let storage: Vec<(u32, String)> = vec![(1, "one".to_string()), (2, "two".to_string())];
    let view = MapView::from_raw(Private, storage.as_slice());
    assert_eq!(view.len(), 2);
    assert!(!view.is_empty());
    let empty: Vec<(u32, String)> = Vec::new();
    let view = MapView::from_raw(Private, empty.as_slice());
    assert_eq!(view.len(), 0);
    assert!(view.is_empty());
}
