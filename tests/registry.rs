use doip2http::registry::{Registry, RegistryError};

#[test]
fn insert_new_twice_conflicts() {
    let mut r: Registry<u32> = Registry::new();
    let k = "10.0.0.1:0x0E80".to_string();
    assert_eq!(r.insert_new(k.clone(), 1), Ok(()));
    assert_eq!(r.insert_new(k.clone(), 2), Err(RegistryError::Conflict));
    assert_eq!(r.get(&k), Some(&1));
}

#[test]
fn different_keys_both_insert() {
    let mut r: Registry<u32> = Registry::new();
    let a = "10.0.0.1:0x0E80".to_string();
    let b = "10.0.0.2:0x0E80".to_string();
    assert_eq!(r.insert_new(a.clone(), 1), Ok(()));
    assert_eq!(r.insert_new(b.clone(), 2), Ok(()));
    assert_eq!(r.get(&a), Some(&1));
    assert_eq!(r.get(&b), Some(&2));
    assert!(r.contains_key(&a));
    assert!(!r.contains_key(&"10.0.0.3:0x0E80".to_string()));
}

#[test]
fn remove_frees_the_key() {
    let mut r: Registry<u32> = Registry::new();
    let a = "a".to_string();
    let b = "b".to_string();
    r.insert_new(a.clone(), 1).unwrap();
    r.insert_new(b.clone(), 2).unwrap();
    assert_eq!(r.remove(&a), Some(1));
    assert_eq!(r.remove(&a), None);
    assert_eq!(r.get(&a), None);
    assert_eq!(r.get(&b), Some(&2));
    assert_eq!(r.insert_new(a.clone(), 3), Ok(()));
    assert_eq!(r.get(&a), Some(&3));
}
