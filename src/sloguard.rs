//! The admission gate: bounds the number of operations in flight.
use vstd::prelude::*;
use std::sync::Arc;
use async_lock::Semaphore;

verus! {

#[verifier::external_type_specification]
#[verifier::external_body]
pub struct ExSemaphore(Semaphore);

/// The number of permits a semaphore was created with.
pub uninterp spec fn semaphore_permits(s: Semaphore) -> usize;

/// Relies on async_lock's `Semaphore::new`: a semaphore whose count starts at `n` permits.
pub assume_specification[ Semaphore::new ](n: usize) -> (r: Semaphore)
    ensures
        semaphore_permits(r) == n,
;

/// Relies on std's `Arc::clone`: a new pointer to the same allocation.
#[verifier::external_body]
fn share_semaphore(sem: &Arc<Semaphore>) -> (r: Arc<Semaphore>)
    ensures
        *r == **sem,
{
    Arc::clone(sem)
}

/// Admission gate of fixed, positive capacity. Callers hold one of its permits
/// around each unit of work; the permit is released when its guard is dropped.
/// Clones share the one semaphore.
pub struct SloGuard {
    sem: Arc<Semaphore>,
    capacity: usize,
}

impl SloGuard {
    /// The recorded capacity is the number of permits of the shared semaphore.
    #[verifier::type_invariant]
    spec fn capacity_matches(&self) -> bool {
        self.capacity == semaphore_permits(*self.sem)
    }

    /// The number of permits of the semaphore the guard hands out.
    pub closed spec fn limit(&self) -> usize {
        semaphore_permits(*self.sem)
    }

    /// A guard admitting at most `max_concurrent` operations at once.
    pub fn new(max_concurrent: usize) -> (r: Self)
        requires
            max_concurrent > 0,
        ensures
            r.limit() == max_concurrent,
    {
        let sem = Semaphore::new(max_concurrent);
        SloGuard { sem: Arc::new(sem), capacity: max_concurrent }
    }

    /// The number of permits this guard holds in all.
    pub fn capacity(&self) -> (r: usize)
        ensures
            r == self.limit(),
    {
        proof {
            use_type_invariant(self);
        }
        self.capacity
    }

    /// The semaphore whose permits this guard hands out.
    pub fn permits(&self) -> (r: &Arc<Semaphore>)
        ensures
            semaphore_permits(**r) == self.limit(),
    {
        &self.sem
    }
}

impl Clone for SloGuard {
    /// Another handle on the same semaphore.
    fn clone(&self) -> (r: Self)
        ensures
            r.limit() == self.limit(),
    {
        proof {
            use_type_invariant(self);
        }
        SloGuard { sem: share_semaphore(&self.sem), capacity: self.capacity }
    }
}

} // verus!
