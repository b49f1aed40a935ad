//! How a pool comes about and whose turn it is, call by call.
use super::{thread_count, thread_count_for, PendingPool, PoolStep, WorkerPool};
use vstd::prelude::*;

verus! {

/// A pool of no workers is refused; any other size has that many workers created, none of them
/// there at first.
pub proof fn law_pool_is_of_the_size_asked_for<W>(
    size: usize,
    pending: Result<PendingPool<W>, String>,
)
    requires
        call_ensures(WorkerPool::<W>::new, (size,), pending),
    ensures
        size == 0 ==> pending matches Err(_),
        size == 0 ==> (pending matches Err(message) ==> message@
            == "Worker pool size must not be 0."@),
        size > 0 ==> (pending matches Ok(pool) && pool.size() == size && pool.workers().len() == 0),
{
}

/// A worker that was created comes after those created before. The pool is ready just when it has
/// as many workers as it was to have, and starts with the first.
pub proof fn law_workers_are_gathered_in_order<W, E>(
    pending: PendingPool<W>,
    worker: W,
    step: PoolStep<W, E>,
)
    requires
        call_ensures(PendingPool::<W>::worker_created::<E>, (pending, Ok(worker)), step),
    ensures
        step matches PoolStep::CreateWorker(more) ==> {
            &&& more.size() == pending.size()
            &&& more.workers().len() == pending.workers().len() + 1
            &&& more.workers().len() < more.size()
            &&& more.workers().last() == worker
            &&& more.workers().drop_last() =~= pending.workers()
        },
        step matches PoolStep::Ready(pool) ==> {
            &&& pool.workers().len() == pending.size()
            &&& pool.workers().last() == worker
            &&& pool.workers().drop_last() =~= pending.workers()
            &&& pool.index() == 0
        },
        step !is Failed,
{
}

/// A worker that could not be created ends setting up the pool, with the error at hand.
pub proof fn law_missing_worker_ends_the_set_up<W, E>(
    pending: PendingPool<W>,
    error: E,
    step: PoolStep<W, E>,
)
    requires
        call_ensures(PendingPool::<W>::worker_created::<E>, (pending, Err(error)), step),
    ensures
        step matches PoolStep::Failed(reported) && reported == error,
{
}

/// Each call hands out the worker whose turn it is, by the number of calls so far, and counts one
/// call more; the workers stay as they are.
pub proof fn law_worker_of_the_turn_is_handed_out<W: Clone>(pool: &mut WorkerPool<W>, worker: W)
    requires
        call_ensures(WorkerPool::<W>::next, (pool,), worker),
    ensures
        old(pool).workers().len() > 0,
        cloned::<W>(
            old(pool).workers()[old(pool).index() as int % old(pool).workers().len() as int],
            worker,
        ),
        final(pool).workers() == old(pool).workers(),
        old(pool).index() < usize::MAX ==> final(pool).index() == old(pool).index() + 1,
        old(pool).index() == usize::MAX ==> final(pool).index() == 0,
{
}

/// The first calls on a new pool hand its workers out in the order in which they were created, and
/// then start over.
pub proof fn law_new_pool_starts_with_its_first_worker<W: Clone, E>(
    pending: PendingPool<W>,
    last: W,
    pool: &mut WorkerPool<W>,
    first: W,
    next: &mut WorkerPool<W>,
    second: W,
)
    requires
        call_ensures(
            PendingPool::<W>::worker_created::<E>,
            (pending, Ok(last)),
            PoolStep::Ready(*old(pool)),
        ),
        call_ensures(WorkerPool::<W>::next, (pool,), first),
        *next == *final(pool),
        call_ensures(WorkerPool::<W>::next, (next,), second),
    ensures
        cloned::<W>(pending.workers().push(last)[0], first),
        pending.size() == 1 ==> cloned::<W>(last, second),
        pending.size() > 1 ==> cloned::<W>(pending.workers().push(last)[1], second),
{
    let size = old(pool).workers().len() as int;
    if size > 1 {
        assert(1int % size == 1) by (nonlinear_arith)
            requires
                size > 1,
        ;
    }
    assert(0int % size == 0) by (nonlinear_arith)
        requires
            size >= 1,
    ;
}

/// The number of workers asked for is the number there will be; asked for none in particular,
/// there is one for each core, and at least one.
pub proof fn law_workers_are_as_many_as_asked_for(
    threads: Option<usize>,
    cores: usize,
    count: usize,
    machine_count: usize,
)
    requires
        call_ensures(thread_count_for, (threads, cores), count),
        call_ensures(thread_count, (threads,), machine_count),
    ensures
        threads matches Some(asked) ==> count == asked && machine_count == asked,
        threads is None ==> count == cores && machine_count >= 1,
{
}

} // verus!
