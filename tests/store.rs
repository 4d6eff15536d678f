use miraie::extensions::{Data, Extensions};
use std::sync::Arc;

#[test]
fn store_then_request_yields_value() {
    let mut ext: Extensions<String> = Extensions::new();
    assert_eq!(ext.insert(7, "config".to_string()), None);
    assert_eq!(ext.get(7), Some(&"config".to_string()));
    assert!(ext.contains(7));
}

#[test]
fn request_of_unstored_key_is_not_found() {
    let mut ext: Extensions<u32> = Extensions::new();
    ext.insert(1, 10);
    assert_eq!(ext.get(2), None);
    assert!(!ext.contains(2));
    assert_eq!(ext.remove(2), None);
}

#[test]
fn insert_same_key_replaces_and_returns_previous() {
    let mut ext: Extensions<u32> = Extensions::new();
    assert_eq!(ext.insert(3, 1), None);
    assert_eq!(ext.insert(3, 2), Some(1));
    assert_eq!(ext.get(3), Some(&2));
}

#[test]
fn get_mut_writes_through() {
    let mut ext: Extensions<u32> = Extensions::new();
    ext.insert(5, 40);
    if let Some(v) = ext.get_mut(5) {
        *v += 2;
    }
    assert_eq!(ext.get(5), Some(&42));
    assert!(ext.get_mut(6).is_none());
}

#[test]
fn remove_takes_value_out() {
    let mut ext: Extensions<&str> = Extensions::new();
    ext.insert(1, "a");
    ext.insert(2, "b");
    assert_eq!(ext.remove(1), Some("a"));
    assert!(!ext.contains(1));
    assert_eq!(ext.get(2), Some(&"b"));
}

#[test]
fn data_shares_one_value() {
    let d = Data::new(String::from("A-SOUL!"));
    assert_eq!(d.get_ref(), "A-SOUL!");
    let e = d.clone();
    let a = d.into_inner();
    let b = e.into_inner();
    assert!(Arc::ptr_eq(&a, &b));
    let f = Data::from_arc(a);
    assert_eq!(f.get_ref().as_str(), "A-SOUL!");
}
