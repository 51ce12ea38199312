use llm_infer_cal_core::cache::{is_fresh, ArtifactCache, CacheKey, DEFAULT_TTL_SECONDS};

#[test]
fn cache_key_string_matches_python() {
    assert_eq!(
        CacheKey::new("huggingface", "foo/bar", Some("abc")).to_string(),
        "huggingface::foo/bar::abc"
    );
    assert_eq!(
        CacheKey::new("huggingface", "foo/bar", None).to_string(),
        "huggingface::foo/bar::HEAD"
    );
}

#[test]
fn cache_policy_reads_and_stores_only_pinned_revisions() {
    let cache = ArtifactCache::with_default_ttl("/tmp/cache");
    let pinned = CacheKey::new("huggingface", "foo/bar", Some("abc"));
    let head = CacheKey::new("huggingface", "foo/bar", None);

    assert_eq!(cache.ttl_seconds, DEFAULT_TTL_SECONDS);
    assert!(cache.may_read(&pinned, false));
    assert!(!cache.may_read(&pinned, true));
    assert!(!cache.may_read(&head, false));
    assert!(cache.may_store(&pinned));
    assert!(!cache.may_store(&head));
    assert!(!ArtifactCache::new("/tmp/cache", 0).may_store(&pinned));
    assert_eq!(cache.expiry(100), 100 + 7 * 24 * 60 * 60);
    assert_eq!(cache.expiry(u64::MAX), u64::MAX);
    assert!(is_fresh(101, 100));
    assert!(!is_fresh(100, 100));
}
