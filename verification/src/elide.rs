//! Lock elision wrapper.
//!
//! Hardware transactional memory can elide a lock: the critical section
//! runs as a transaction and the lock is only taken when the transaction
//! aborts too often. This build has no transactional hardware, so
//! [`is_available`] reports false and every acquisition takes the
//! fallback lock; the API shape is kept so callers can be written against
//! it.

use vstd::prelude::*;

verus! {

/// Whether hardware lock elision is available. In this build it never is:
/// every acquisition takes the fallback path.
#[inline]
pub fn is_available() -> (r: bool)
    ensures
        !r,
{
    false
}

/// Elision configuration.
#[derive(Debug, Clone, Copy)]
pub struct ElideConfig {
    /// Maximum transactional retries before falling back to the lock.
    pub max_retries: u32,
    /// Whether elision is attempted at all.
    pub enabled: bool,
}

impl Default for ElideConfig {
    /// Three retries, elision enabled only where available — so never in
    /// this build.
    fn default() -> (r: Self)
        ensures
            r.max_retries == 3,
            !r.enabled,
    {
        ElideConfig { max_retries: 3, enabled: is_available() }
    }
}

/// An elide-capable lock: a fallback flag lock plus the configuration.
pub struct ElideLock {
    fallback_locked: bool,
    config: ElideConfig,
}

impl ElideLock {
    /// Whether the fallback lock is held, for contracts.
    pub closed spec fn spec_locked(&self) -> bool {
        self.fallback_locked
    }

    /// The configuration, for contracts.
    pub closed spec fn spec_config(&self) -> ElideConfig {
        self.config
    }

    /// Create a new unlocked elide lock with elision off.
    #[inline]
    pub fn new() -> (r: Self)
        ensures
            !r.spec_locked(),
            r.spec_config().max_retries == 3,
            !r.spec_config().enabled,
    {
        ElideLock {
            fallback_locked: false,
            config: ElideConfig { max_retries: 3, enabled: false },
        }
    }

    /// Create a new unlocked elide lock with a custom configuration.
    #[inline]
    pub fn with_config(config: ElideConfig) -> (r: Self)
        ensures
            !r.spec_locked(),
            r.spec_config() == config,
    {
        ElideLock { fallback_locked: false, config }
    }

    /// Acquire the lock; without elision hardware this takes the fallback
    /// flag. A held lock would be spun on; that state is excluded by
    /// precondition.
    #[inline]
    pub fn lock(&mut self) -> (r: ElideGuard)
        requires
            !old(self).spec_locked(),
        ensures
            final(self).spec_locked(),
            final(self).spec_config() == old(self).spec_config(),
            !r.spec_elided(),
    {
        self.fallback_locked = true;
        ElideGuard { elided: false }
    }

    /// Try to acquire without spinning: succeeds exactly when the lock was
    /// free.
    #[inline]
    pub fn try_lock(&mut self) -> (r: Option<ElideGuard>)
        ensures
            r.is_some() == !old(self).spec_locked(),
            final(self).spec_locked(),
            final(self).spec_config() == old(self).spec_config(),
    {
        if self.fallback_locked {
            None
        } else {
            self.fallback_locked = true;
            Some(ElideGuard { elided: false })
        }
    }

    /// Release the lock; a guard that elided would instead commit its
    /// transaction, but in this build every guard holds the fallback.
    #[inline]
    pub fn unlock(&mut self, guard: ElideGuard)
        requires
            old(self).spec_locked(),
        ensures
            final(self).spec_locked() == guard.spec_elided(),
            final(self).spec_config() == old(self).spec_config(),
    {
        if !guard.elided {
            self.fallback_locked = false;
        }
    }

    /// Check if the fallback lock is held.
    #[inline]
    pub fn is_locked(&self) -> (r: bool)
        ensures
            r == self.spec_locked(),
    {
        self.fallback_locked
    }
}

impl Default for ElideLock {
    /// Same as [`ElideLock::new`].
    fn default() -> (r: Self)
        ensures
            !r.spec_locked(),
    {
        ElideLock::new()
    }
}

/// Token witnessing an [`ElideLock`] acquisition; records whether the
/// section ran elided.
pub struct ElideGuard {
    elided: bool,
}

impl ElideGuard {
    /// Whether the acquisition was elided, for contracts.
    pub closed spec fn spec_elided(&self) -> bool {
        self.elided
    }
}

} // verus!
