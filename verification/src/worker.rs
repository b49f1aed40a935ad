//! The pool of media workers.
pub mod laws;

use vstd::arithmetic::div_mod::*;
use vstd::prelude::*;

verus! {

/// First port that media workers use for RTP.
pub const RTC_PORTS_FIRST: u16 = 40000;

/// Last port that media workers use for RTP.
pub const RTC_PORTS_LAST: u16 = 40050;

/// A fixed set of media workers, handed out in turn.
pub struct WorkerPool<W> {
    workers: Vec<W>,
    index: usize,
}

/// A pool whose workers are being created.
pub struct PendingPool<W> {
    size: usize,
    workers: Vec<W>,
}

/// How far setting up a pool has come.
pub enum PoolStep<W, E> {
    /// Create another worker, then go on with [`PendingPool::worker_created`].
    CreateWorker(PendingPool<W>),
    /// The pool is complete.
    Ready(WorkerPool<W>),
    /// A worker could not be created.
    Failed(E),
}

impl<W> PendingPool<W> {
    /// The number of workers that the pool is to have.
    pub closed spec fn size(self) -> usize {
        self.size
    }

    /// The workers created so far, in order.
    pub closed spec fn workers(self) -> Seq<W> {
        self.workers@
    }

    #[verifier::type_invariant]
    spec fn well_formed(self) -> bool {
        self.workers@.len() < self.size
    }

    /// Goes on with the worker that was asked for, or with the reason why there is none.
    pub fn worker_created<E>(self, created: Result<W, E>) -> (step: PoolStep<W, E>)
        ensures
            self.workers().len() < self.size(),
            match created {
                Ok(worker) => if self.workers().len() + 1 < self.size() {
                    step matches PoolStep::CreateWorker(pending) && {
                        &&& pending.size() == self.size()
                        &&& pending.workers() == self.workers().push(worker)
                    }
                } else {
                    step matches PoolStep::Ready(pool) && {
                        &&& pool.workers() == self.workers().push(worker)
                        &&& pool.index() == 0
                    }
                },
                Err(error) => step == PoolStep::<W, E>::Failed(error),
            },
    {
        proof {
            use_type_invariant(&self);
        }
        match created {
            Ok(worker) => {
                let size: usize = self.size;
                let mut workers = self.workers;
                workers.push(worker);
                if workers.len() < size {
                    PoolStep::CreateWorker(PendingPool { size, workers })
                } else {
                    PoolStep::Ready(WorkerPool { workers, index: 0 })
                }
            },
            Err(error) => PoolStep::Failed(error),
        }
    }
}

impl<W> WorkerPool<W> {
    /// The workers of the pool, in the order in which they were created.
    pub closed spec fn workers(self) -> Seq<W> {
        self.workers@
    }

    /// How many times a worker was handed out; it starts again from 0 after `usize::MAX`.
    pub closed spec fn index(self) -> usize {
        self.index
    }

    #[verifier::type_invariant]
    spec fn well_formed(self) -> bool {
        self.workers@.len() > 0
    }

    /// Starts setting up a pool of `size` workers: that many workers have to be created.
    pub fn new(size: usize) -> (pending: Result<PendingPool<W>, String>)
        ensures
            match pending {
                Ok(pending) => {
                    &&& size > 0
                    &&& pending.size() == size
                    &&& pending.workers() == Seq::<W>::empty()
                },
                Err(message) => size == 0 && message@ == "Worker pool size must not be 0."@,
            },
    {
        if size == 0 {
            return Err("Worker pool size must not be 0.".to_string());
        }
        Ok(PendingPool { size, workers: Vec::new() })
    }
}

/// The count of workers handed out after one more.
pub open spec fn next_index(index: usize) -> usize {
    if index == usize::MAX {
        0
    } else {
        (index + 1) as usize
    }
}

/// The place in a pool of `size` workers of the worker that is handed out at count `index`.
pub open spec fn position(index: usize, size: nat) -> int {
    index as int % size as int
}

impl<W: Clone> WorkerPool<W> {
    /// Hands out the next worker, going round the pool.
    pub fn next(&mut self) -> (worker: W)
        ensures
            old(self).workers().len() > 0,
            cloned::<W>(
                old(self).workers()[position(old(self).index(), old(self).workers().len())],
                worker,
            ),
            final(self).workers() == old(self).workers(),
            final(self).index() == next_index(old(self).index()),
    {
        proof {
            use_type_invariant(&*self);
        }
        let index: usize = self.index;
        self.index = index.wrapping_add(1);
        let size: usize = self.workers.len();
        self.workers[index % size].clone()
    }
}

/// The count of workers handed out after `calls` more.
pub open spec fn index_after(index: usize, calls: nat) -> usize
    decreases calls,
{
    if calls == 0 {
        index
    } else {
        next_index(index_after(index, (calls - 1) as nat))
    }
}

proof fn lemma_index_after(index: usize, calls: nat)
    requires
        calls <= usize::MAX,
    ensures
        index_after(index, calls) == if index + calls <= usize::MAX {
            index + calls
        } else {
            index + calls - usize::MAX - 1
        },
    decreases calls,
{
    if calls > 0 {
        lemma_index_after(index, (calls - 1) as nat);
    }
}

/// The places in a pool of `size` workers follow on one another from count `index` on for as
/// many calls as the pool has workers: the count does not pass `usize::MAX` meanwhile, or it does
/// so at the end of a round.
pub open spec fn round_is_unbroken(index: usize, size: nat) -> bool {
    ||| index + size <= usize::MAX + 1
    ||| (usize::MAX + 1) % size as int == 0
}

/// Workers are handed out in the order of the pool, starting over after the last one: one call
/// after another moves one place on, whoever makes the calls. See [`round_is_unbroken`] for the
/// one exception.
pub proof fn law_workers_follow_one_another(index: usize, size: nat, calls: nat)
    requires
        calls < size <= usize::MAX,
        round_is_unbroken(index, size),
    ensures
        position(index_after(index, calls), size) == (index + calls) % size as int,
{
    lemma_index_after(index, calls);
    if index + calls > usize::MAX {
        let rounds = (usize::MAX + 1) / size as int;
        lemma_fundamental_div_mod(usize::MAX + 1, size as int);
        lemma_mod_multiples_vanish(rounds, index + calls - usize::MAX - 1, size as int);
    }
}

/// In as many calls as the pool has workers, every worker is handed out once and none twice,
/// unless the count passes `usize::MAX` meanwhile in the middle of a round; there the order
/// breaks off.
pub proof fn law_each_worker_once_per_round(index: usize, size: nat, place: int)
    requires
        0 <= place < size <= usize::MAX,
        round_is_unbroken(index, size),
    ensures
        exists|call: nat| #![trigger index_after(index, call)]
            call < size && position(index_after(index, call), size) == place,
        forall|a: nat, b: nat|
            #![trigger index_after(index, a), index_after(index, b)]
            a < size && b < size && position(index_after(index, a), size) == position(
                index_after(index, b),
                size,
            ) ==> a == b,
{
    let start = position(index, size);
    let call: nat = if place >= start {
        (place - start) as nat
    } else {
        (place - start + size) as nat
    };
    lemma_fundamental_div_mod(index as int, size as int);
    law_workers_follow_one_another(index, size, call);
    let rounds = index as int / size as int;
    assert(index as int == size * rounds + start);
    assert((index + call) % size as int == place) by {
        if place >= start {
            assert(index + call == size * rounds + place);
            lemma_fundamental_div_mod_converse(index + call, size as int, rounds, place);
        } else {
            assert(index + call == size * (rounds + 1) + place) by (nonlinear_arith)
                requires
                    index as int == size * rounds + start,
                    call == place - start + size,
            ;
            lemma_fundamental_div_mod_converse(index + call, size as int, rounds + 1, place);
        }
    }
    assert forall|a: nat, b: nat|
        #![trigger index_after(index, a), index_after(index, b)]
        a < size && b < size && position(index_after(index, a), size) == position(
            index_after(index, b),
            size,
        ) implies a == b by {
        law_workers_follow_one_another(index, size, a);
        law_workers_follow_one_another(index, size, b);
        lemma_fundamental_div_mod(index + a, size as int);
        lemma_fundamental_div_mod(index + b, size as int);
        let qa = (index + a) / size as int;
        let qb = (index + b) / size as int;
        assert(a - b == size * (qa - qb)) by (nonlinear_arith)
            requires
                index + a == size * qa + (index + a) % size as int,
                index + b == size * qb + (index + b) % size as int,
                (index + a) % size as int == (index + b) % size as int,
        ;
        assert(qa == qb) by (nonlinear_arith)
            requires
                a - b == size * (qa - qb),
                a < size,
                b < size,
        ;
    }
}

/// Calls `num_cpus::get`.
///
/// The number depends on the machine; all that is claimed is what the crate documents, that it
/// is at least 1.
#[verifier::external_body]
fn cpu_count() -> (cores: usize)
    ensures
        cores >= 1,
{
    num_cpus::get()
}

/// The number of workers: what was asked for, or else one for each of `cores`.
pub fn thread_count_for(threads: Option<usize>, cores: usize) -> (count: usize)
    ensures
        count == match threads {
            Some(threads) => threads,
            None => cores,
        },
{
    match threads {
        None => cores,
        Some(threads) => threads,
    }
}

/// The number of workers: what was asked for, or else one for each CPU of the machine.
pub fn thread_count(threads: Option<usize>) -> (count: usize)
    ensures
        match threads {
            Some(threads) => count == threads,
            None => count >= 1,
        },
{
    match threads {
        None => thread_count_for(threads, cpu_count()),
        Some(threads) => threads,
    }
}

} // verus!
