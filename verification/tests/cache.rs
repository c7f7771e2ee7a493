use study_google_auth::cache::Cache;

#[test]
fn valid_cache_should_return_some() {
    let mut cache = Cache::<i32>::new();

    let current: u64 = 100;
    cache.set(42, current + 1);
    assert_eq!(cache.get(current), Some(&42));

    cache.set(43, current + 1);
    assert_eq!(cache.get(current), Some(&43));
}

#[test]
fn expired_cache_should_return_none() {
    let mut cache = Cache::<i32>::new();

    let current: u64 = 100;
    cache.set(42, current);
    assert_eq!(cache.get(current + 1), None);
}

#[test]
fn cache_expires_at_the_exact_instant() {
    let mut cache = Cache::<i32>::new();

    cache.set(7, 50);
    assert_eq!(cache.get(49), Some(&7));
    assert_eq!(cache.get(50), None);
}

#[test]
fn empty_cache_returns_none() {
    let cache = Cache::<String>::new();
    assert_eq!(cache.get(0), None);
}
