use playback_queue::item::{PlaylistItem, TrackMetadata};

#[test]
fn new_item_keeps_its_fields() {
    let item = PlaylistItem::new("Song".to_string(), 42, "song please".to_string(), Some(215_000));
    assert_eq!(item.title(), "Song");
    assert_eq!(item.source_reference(), 42);
    assert_eq!(item.original_query(), "song please");
    assert_eq!(item.duration(), Some(215_000));
}

#[test]
fn item_from_metadata_takes_title_and_duration() {
    let metadata = TrackMetadata { title: Some("Real Title".to_string()), duration: Some(61_000) };
    let item = PlaylistItem::from_metadata(metadata, 7, "https://example.org/v".to_string());
    assert_eq!(item.title(), "Real Title");
    assert_eq!(item.source_reference(), 7);
    assert_eq!(item.original_query(), "https://example.org/v");
    assert_eq!(item.duration(), Some(61_000));
}

#[test]
fn item_without_title_gets_the_placeholder() {
    let metadata = TrackMetadata { title: None, duration: None };
    let item = PlaylistItem::from_metadata(metadata, 1, "q".to_string());
    assert_eq!(item.title(), "[object Object]");
    assert_eq!(item.duration(), None);
}

#[test]
fn empty_title_is_kept() {
    let metadata = TrackMetadata { title: Some(String::new()), duration: None };
    let item = PlaylistItem::from_metadata(metadata, 1, "q".to_string());
    assert_eq!(item.title(), "");
}

#[test]
fn clone_equals_the_original() {
    let item = PlaylistItem::new("t".to_string(), 3, "q".to_string(), Some(5));
    let copy = item.clone();
    assert_eq!(copy, item);
    assert_eq!(copy.title(), "t");
    assert_eq!(copy.source_reference(), 3);
}
