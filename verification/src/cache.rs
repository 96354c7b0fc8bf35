//! The shared installed-package cache: a single slot holding a
//! fingerprinted snapshot, invalidated whole by any mutating operation.
//!
//! The asynchronous lock guarding the slot lives outside this crate; these
//! operations describe what each holder does to the slot while it holds
//! the lock.

use vstd::prelude::*;

verus! {

/// One installed package, as the orchestrator and cleanup planning see it.
pub struct PackageRecord {
    pub name: String,
    pub is_versioned_install: bool,
}

/// A fingerprinted snapshot of the installed packages.
pub struct InstalledPackageCache {
    pub packages: Vec<PackageRecord>,
    pub fingerprint: String,
}

/// The shared cache slot: either one whole snapshot or nothing, never a
/// partially invalidated state.
pub struct CacheSlot {
    pub current: Option<InstalledPackageCache>,
}

impl CacheSlot {
    /// An empty slot: the next reader recomputes.
    pub fn new() -> (r: CacheSlot)
        ensures
            r.current is None,
    {
        CacheSlot { current: None }
    }

    /// Invalidation clears the whole slot.
    pub fn invalidate(&mut self)
        ensures
            final(self).current is None,
    {
        self.current = None;
    }

    /// Stores a freshly computed snapshot.
    pub fn store(&mut self, cache: InstalledPackageCache)
        ensures
            final(self).current == Some(cache),
    {
        self.current = Some(cache);
    }

    /// Reads the slot without changing it.
    pub fn read(&self) -> (r: &Option<InstalledPackageCache>)
        ensures
            r == &self.current,
    {
        &self.current
    }

    /// The cached package count and fingerprint for a diagnostic report:
    /// zero and none for an empty slot.
    pub fn summary(&self) -> (r: (usize, Option<String>))
        ensures
            self.current matches Some(c) ==> r.0 == c.packages@.len() && (r.1 matches Some(f)
                && f@ == c.fingerprint@),
            self.current is None ==> r.0 == 0 && r.1 is None,
    {
        match &self.current {
            Some(c) => (c.packages.len(), Some(c.fingerprint.clone())),
            None => (0, None),
        }
    }
}

} // verus!
