//! A minimal task-dispatch handle: a builder validates a requested
//! concurrency size and yields a handle, permission to hand one-shot jobs to
//! fresh, detached threads. The size is checked at construction only, and
//! only there: nothing enforces it at dispatch time, so the handle carries
//! no state at all. Dispatch itself launches a thread, which verified code
//! cannot hold, so it lives with the callers, outside this library.

use vstd::prelude::*;

verus! {

/// Permission to dispatch work. The handle carries no state: the size that
/// was requested at construction leaves no trace in it, and dropping it does
/// not affect jobs already dispatched, which run on detached threads.
#[verifier::ext_equal]
pub struct ThreadPool;

/// The builder's only failure: the requested size was zero.
#[derive(Debug)]
pub struct PoolCreationError;

impl ThreadPool {
    /// Validates the requested concurrency size: zero is rejected, every
    /// positive size yields a handle. No thread or other resource is
    /// allocated here.
    pub fn build(size: usize) -> (r: Result<ThreadPool, PoolCreationError>)
        ensures
            r is Ok <==> size >= 1,
            r is Err <==> size == 0,
    {
        if size == 0 {
            return Err(PoolCreationError);
        }
        Ok(ThreadPool {})
    }
}

/// Law: the builder's successes are indistinguishable. Any two handles it
/// returns are equal, whatever sizes were requested: a positive size has no
/// observable effect on the handle.
pub proof fn lemma_build_size_indifferent(
    r1: Result<ThreadPool, PoolCreationError>,
    r2: Result<ThreadPool, PoolCreationError>,
)
    requires
        r1 is Ok,
        r2 is Ok,
    ensures
        r1 == r2,
{
    assert(r1->Ok_0 =~= r2->Ok_0);
    assert(r1 == Result::Ok::<ThreadPool, PoolCreationError>(r1->Ok_0));
    assert(r2 == Result::Ok::<ThreadPool, PoolCreationError>(r2->Ok_0));
}

} // verus!
