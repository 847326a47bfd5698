//! Server configuration: whether Datadog resources may be changed, and where
//! responses are cached.
use vstd::prelude::*;
use crate::cache::CacheStore;

verus! {

/// Whether the server may change Datadog resources.
#[derive(Debug, Clone, Copy, PartialEq, Eq, Structural)]
pub enum AccessMode {
    ReadOnly,
    ReadWrite,
}

impl AccessMode {
    /// Whether this mode allows tools that create, update, delete, trigger or
    /// cancel Datadog resources.
    pub fn allows_writes(self) -> (r: bool)
        ensures
            r <==> self == AccessMode::ReadWrite,
    {
        match self {
            AccessMode::ReadWrite => true,
            AccessMode::ReadOnly => false,
        }
    }
}

/// Options the server starts with.
#[derive(Debug, Clone)]
pub struct ServerOptions {
    pub access_mode: AccessMode,
    pub cache: CacheStore,
}

impl ServerOptions {
    /// The defaults: read-only, with a cache at `cache_root` that is never
    /// written to.
    pub fn defaults(cache_root: std::path::PathBuf) -> (r: Self)
        ensures
            r.access_mode == AccessMode::ReadOnly,
            !r.cache.writes_on(),
            r.cache.root_path() == cache_root,
            r.cache.size_bound() == crate::cache::DEFAULT_CACHE_MAX_BYTES,
    {
        ServerOptions { access_mode: AccessMode::ReadOnly, cache: CacheStore::disabled(cache_root) }
    }

    /// The options given by the start-up flags: writes to Datadog only with
    /// `allow_write`, cache writes only with `cache_responses`, and a cache
    /// bound of `cache_max_mib` MiB.
    pub fn from_flags(
        allow_write: bool,
        cache_responses: bool,
        cache_dir: std::path::PathBuf,
        cache_max_mib: u64,
    ) -> (r: Self)
        ensures
            r.access_mode == (if allow_write {
                AccessMode::ReadWrite
            } else {
                AccessMode::ReadOnly
            }),
            r.cache.writes_on() == cache_responses,
            r.cache.root_path() == cache_dir,
            r.cache.size_bound() == mib_in_bytes(cache_max_mib),
    {
        let access_mode = if allow_write {
            AccessMode::ReadWrite
        } else {
            AccessMode::ReadOnly
        };
        let bytes = cache_max_bytes(cache_max_mib);
        ServerOptions { access_mode, cache: CacheStore::new(cache_dir, bytes, cache_responses) }
    }
}

/// A size of `mib` MiB in bytes, or the largest `u64` where it does not fit.
pub open spec fn mib_in_bytes(mib: u64) -> u64 {
    if mib * 1048576 <= u64::MAX {
        (mib * 1048576) as u64
    } else {
        u64::MAX
    }
}

/// Converts a cache bound in MiB to bytes, saturating at the largest `u64`.
pub fn cache_max_bytes(mib: u64) -> (r: u64)
    ensures
        r == mib_in_bytes(mib),
{
    match mib.checked_mul(1048576) {
        Some(v) => v,
        None => u64::MAX,
    }
}

} // verus!
