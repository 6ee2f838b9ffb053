//! Path normalization, joining and link resolution.

use librebmc::path::ResourcePath;
use librebmc::redfish::ServiceId;

fn path(text: &str) -> ResourcePath {
    ResourcePath::new(text.to_string()).unwrap()
}

#[test]
fn normalized_texts_are_accepted() {
    assert!(ResourcePath::new("/root".to_string()).is_some());
    assert!(ResourcePath::new("items/42".to_string()).is_some());
    assert!(ResourcePath::new("42".to_string()).is_some());
    assert!(ResourcePath::new("/redfish/v1".to_string()).is_some());
}

#[test]
fn unnormalized_texts_are_rejected() {
    assert!(ResourcePath::new("".to_string()).is_none());
    assert!(ResourcePath::new("/root/".to_string()).is_none());
    assert!(ResourcePath::new("/".to_string()).is_none());
    assert!(ResourcePath::new("/root//items".to_string()).is_none());
    assert!(ResourcePath::new("/ro\"ot".to_string()).is_none());
    assert!(ResourcePath::new("/ro\\ot".to_string()).is_none());
    assert!(ResourcePath::new("/ro\not".to_string()).is_none());
}

#[test]
fn link_resolution_joins_root_and_relative_path() {
    let link = ServiceId::new(path("items"));
    let resolved = link.resolve(&path("/root"));
    assert_eq!("/root/items", resolved.as_path().as_str());
}

#[test]
fn link_resolution_strips_one_leading_separator() {
    let link = ServiceId::new(path("/Chuck"));
    let resolved = link.resolve(&path("/root"));
    assert_eq!("/root/Chuck", resolved.as_path().as_str());
}

#[test]
fn link_resolution_leaves_the_source_link_untouched() {
    let link = ServiceId::new(path("/Chuck"));
    let _ = link.resolve(&path("/root"));
    assert_eq!("/Chuck", link.as_path().as_str());
}

#[test]
fn prefix_test_is_segment_aware() {
    assert!(path("/root/items").starts_with(&path("/root")));
    assert!(path("/root").starts_with(&path("/root")));
    assert!(!path("/root/items").starts_with(&path("/root/it")));
    assert!(!path("/ro").starts_with(&path("/root")));
    assert!(path("items/42").starts_with(&path("items")));
}

#[test]
fn strip_prefix_leaves_the_remainder() {
    let remainder = path("/root/items/42").strip_prefix(&path("/root"));
    assert_eq!("items/42", remainder.as_str());
    let tail = remainder.strip_prefix(&path("items"));
    assert_eq!("42", tail.as_str());
}
