use dynamic_dns::cache::{Address, NameCache};

#[test]
fn get_on_empty_cache_is_absent() {
    let cache = NameCache::new();
    assert_eq!(cache.get("example.com."), None);
    assert_eq!(cache.get(""), None);
}

#[test]
fn set_then_get_returns_the_address() {
    let mut cache = NameCache::new();
    cache.set(String::from("example.com."), Address::V4([93, 184, 216, 34]));
    assert_eq!(cache.get("example.com."), Some(Address::V4([93, 184, 216, 34])));
}

#[test]
fn later_set_overwrites_earlier() {
    let mut cache = NameCache::new();
    cache.set(String::from("host.test."), Address::V4([10, 0, 0, 1]));
    cache.set(String::from("host.test."), Address::V4([10, 0, 0, 2]));
    assert_eq!(cache.get("host.test."), Some(Address::V4([10, 0, 0, 2])));
}

#[test]
fn set_leaves_other_names_alone() {
    let mut cache = NameCache::new();
    cache.set(String::from("a.test."), Address::V4([1, 1, 1, 1]));
    cache.set(String::from("b.test."), Address::V4([2, 2, 2, 2]));
    assert_eq!(cache.get("a.test."), Some(Address::V4([1, 1, 1, 1])));
    assert_eq!(cache.get("b.test."), Some(Address::V4([2, 2, 2, 2])));
    assert_eq!(cache.get("c.test."), None);
}

#[test]
fn names_are_matched_exactly() {
    let mut cache = NameCache::new();
    cache.set(String::from("Example.com."), Address::V4([1, 2, 3, 4]));
    assert_eq!(cache.get("example.com."), None);
    assert_eq!(cache.get("Example.com"), None);
    assert_eq!(cache.get("Example.com."), Some(Address::V4([1, 2, 3, 4])));
}

#[test]
fn cache_holds_other_address_families() {
    let mut cache = NameCache::new();
    let v6 = Address::V6([0x20, 0x01, 0x0d, 0xb8, 0, 0, 0, 0, 0, 0, 0, 0, 0, 0, 0, 1]);
    cache.set(String::from("six.test."), v6);
    assert_eq!(cache.get("six.test."), Some(v6));
}
