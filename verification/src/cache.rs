//! The artifact cache's keys and its rules for reading, storing and expiry.
use vstd::prelude::*;

verus! {

/// A week.
pub const DEFAULT_TTL_SECONDS: u64 = 604800;

/// Identifies a fetched model revision.
pub struct CacheKey {
    pub source: String,
    pub model_id: String,
    pub commit_sha: Option<String>,
}

pub open spec fn key_text(k: CacheKey) -> Seq<char> {
    k.source@ + "::"@ + k.model_id@ + "::"@ + match k.commit_sha {
        Some(s) => s@,
        None => "HEAD"@,
    }
}

impl CacheKey {
    pub fn new(source: &str, model_id: &str, commit_sha: Option<&str>) -> (k: Self)
        ensures
            k.source@ == source@,
            k.model_id@ == model_id@,
            match commit_sha {
                Some(s) => k.commit_sha is Some && k.commit_sha->0@ == s@,
                None => k.commit_sha is None,
            },
    {
        CacheKey {
            source: source.to_string(),
            model_id: model_id.to_string(),
            commit_sha: match commit_sha {
                Some(s) => Some(s.to_string()),
                None => None,
            },
        }
    }

    /// `source::model_id::sha`, with `HEAD` for an unpinned key.
    pub fn to_string(&self) -> (s: String)
        ensures
            s@ == key_text(*self),
    {
        let mut s = String::new();
        s.append(self.source.as_str());
        s.append("::");
        s.append(self.model_id.as_str());
        s.append("::");
        match &self.commit_sha {
            Some(sha) => s.append(sha.as_str()),
            None => s.append("HEAD"),
        }
        s
    }
}

/// When an entry stored at `now` with lifetime `ttl` expires (saturating).
pub open spec fn expiry_of(ttl: u64, now: u64) -> u64 {
    if now + ttl > u64::MAX {
        u64::MAX
    } else {
        (now + ttl) as u64
    }
}

/// An entry is served until the second it expires.
pub open spec fn fresh(expires_at: u64, now: u64) -> bool {
    expires_at > now
}

/// Whether an entry under `key` is written at all.
pub open spec fn storable(ttl: u64, key: CacheKey) -> bool {
    key.commit_sha is Some && ttl > 0
}

/// Where cached artifacts live and how long they stay valid.
pub struct ArtifactCache {
    pub cache_dir: String,
    pub ttl_seconds: u64,
}

impl ArtifactCache {
    pub fn new(cache_dir: &str, ttl_seconds: u64) -> (c: Self)
        ensures
            c.cache_dir@ == cache_dir@,
            c.ttl_seconds == ttl_seconds,
    {
        ArtifactCache { cache_dir: cache_dir.to_string(), ttl_seconds }
    }

    /// A cache that keeps entries for a week.
    pub fn with_default_ttl(cache_dir: &str) -> (c: Self)
        ensures
            c.cache_dir@ == cache_dir@,
            c.ttl_seconds == DEFAULT_TTL_SECONDS,
    {
        Self::new(cache_dir, DEFAULT_TTL_SECONDS)
    }

    /// Only pinned revisions are read, and never when bypassing.
    pub fn may_read(&self, key: &CacheKey, bypass: bool) -> (b: bool)
        ensures
            b == (!bypass && key.commit_sha is Some),
    {
        !bypass && key.commit_sha.is_some()
    }

    /// Only pinned revisions are stored, and only with a non-zero lifetime.
    pub fn may_store(&self, key: &CacheKey) -> (b: bool)
        ensures
            b == storable(self.ttl_seconds, *key),
    {
        key.commit_sha.is_some() && self.ttl_seconds > 0
    }

    /// When an entry stored at `now` expires (saturating).
    pub fn expiry(&self, now: u64) -> (e: u64)
        ensures
            e == expiry_of(self.ttl_seconds, now),
    {
        now.saturating_add(self.ttl_seconds)
    }
}

/// An entry is served until the second it expires.
pub fn is_fresh(expires_at: u64, now: u64) -> (b: bool)
    ensures
        b == fresh(expires_at, now),
{
    expires_at > now
}

} // verus!
