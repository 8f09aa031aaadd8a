//! The permit pool as a state machine.
//!
//! A limiter and its barrier share one counting resource. Seen one operation
//! at a time it is three numbers' worth of state, and every guarantee of
//! admission control is a fact about how the operations move it. This module
//! states those operations and proves the guarantees. It is a model: the
//! running code keeps its count inside tokio's semaphore, and that the
//! semaphore moves as the model does is what its documentation says, not
//! something proved here.

use vstd::prelude::*;

verus! {

/// The shared count at one moment.
pub struct Pool {
    /// How many permits exist.
    pub capacity: nat,
    /// How many of them are free.
    pub available: nat,
    /// Whether the pool has stopped issuing permits.
    pub closed: bool,
}

/// How an attempt to take a permit ends.
pub enum Admission {
    /// A permit was issued.
    Granted,
    /// No permit is free: the caller waits.
    Suspended,
    /// The pool is closed: the caller is turned away.
    Closed,
}

/// An operation on the pool.
pub enum PoolOp {
    /// Try to take a permit.
    Acquire,
    /// Give a permit back.
    Release,
    /// Stop issuing permits.
    Close,
}

impl Pool {
    /// A pool that nobody has touched yet.
    pub open spec fn fresh(capacity: nat) -> Pool {
        Pool { capacity, available: capacity, closed: false }
    }

    /// No more permits are free than exist.
    pub open spec fn wf(self) -> bool {
        self.available <= self.capacity
    }

    /// How many permits are held.
    pub open spec fn outstanding(self) -> nat {
        (self.capacity - self.available) as nat
    }

    /// Every permit is back.
    pub open spec fn drained(self) -> bool {
        self.available == self.capacity
    }

    /// How taking a permit ends in this state.
    pub open spec fn admission(self) -> Admission {
        if self.closed {
            Admission::Closed
        } else if self.available > 0 {
            Admission::Granted
        } else {
            Admission::Suspended
        }
    }

    /// The state after an attempt to take a permit: one permit fewer if it was
    /// granted, unchanged if not.
    pub open spec fn acquire(self) -> Pool {
        if self.admission() is Granted {
            Pool { available: (self.available - 1) as nat, ..self }
        } else {
            self
        }
    }

    /// The state after a holder gives its permit back. Without a holder there
    /// is nothing to give back.
    pub open spec fn release(self) -> Pool {
        if self.outstanding() > 0 {
            Pool { available: self.available + 1, ..self }
        } else {
            self
        }
    }

    /// The state after closing.
    pub open spec fn close(self) -> Pool {
        Pool { closed: true, ..self }
    }

    /// The state after one operation.
    pub open spec fn apply(self, op: PoolOp) -> Pool {
        match op {
            PoolOp::Acquire => self.acquire(),
            PoolOp::Release => self.release(),
            PoolOp::Close => self.close(),
        }
    }

    /// The state after a run of operations, first to last.
    pub open spec fn run(self, ops: Seq<PoolOp>) -> Pool
        decreases ops.len(),
    {
        if ops.len() == 0 {
            self
        } else {
            self.run(ops.drop_last()).apply(ops.last())
        }
    }

    /// The state after `n` attempts to take a permit in a row.
    pub open spec fn acquire_times(self, n: nat) -> Pool
        decreases n,
    {
        if n == 0 {
            self
        } else {
            self.acquire_times((n - 1) as nat).acquire()
        }
    }
}

/// Whatever is done to a pool, it never has more permits out than exist, its
/// capacity stays what it was, and once closed it stays closed.
pub proof fn lemma_run_preserves(pool: Pool, ops: Seq<PoolOp>)
    requires
        pool.wf(),
    ensures
        pool.run(ops).wf(),
        pool.run(ops).outstanding() <= pool.capacity,
        pool.run(ops).capacity == pool.capacity,
        pool.closed ==> pool.run(ops).closed,
    decreases ops.len(),
{
    if ops.len() > 0 {
        lemma_run_preserves(pool, ops.drop_last());
    }
}

/// A fresh pool of capacity `n` grants each of the first `n` attempts at
/// once, and leaves exactly the rest of its permits free.
pub proof fn lemma_fresh_pool_grants(n: nat, k: nat)
    requires
        k <= n,
    ensures
        Pool::fresh(n).acquire_times(k) == (Pool { capacity: n, available: (n - k) as nat, closed: false }),
        k < n ==> Pool::fresh(n).acquire_times(k).admission() is Granted,
    decreases k,
{
    if k > 0 {
        lemma_fresh_pool_grants(n, (k - 1) as nat);
    }
}

/// With all `n` permits of a fresh pool taken, one more attempt has to wait,
/// and goes on waiting until a holder releases; after one release it is
/// granted.
pub proof fn lemma_full_pool_suspends(n: nat)
    requires
        n >= 1,
    ensures
        Pool::fresh(n).acquire_times(n).admission() is Suspended,
        Pool::fresh(n).acquire_times(n).acquire() == Pool::fresh(n).acquire_times(n),
        Pool::fresh(n).acquire_times(n).release().admission() is Granted,
{
    lemma_fresh_pool_grants(n, n);
}

/// After closing, every attempt is turned away, whatever happens in between
/// and however many permits are still held; and no permit is issued any more,
/// so the number held only goes down.
pub proof fn lemma_closed_pool_admits_none(pool: Pool, ops: Seq<PoolOp>)
    requires
        pool.wf(),
    ensures
        pool.close().run(ops).admission() is Closed,
        pool.close().run(ops).outstanding() <= pool.outstanding(),
    decreases ops.len(),
{
    if ops.len() > 0 {
        lemma_closed_pool_admits_none(pool, ops.drop_last());
        lemma_run_preserves(pool.close(), ops.drop_last());
    }
}

/// A closed pool that has drained stays drained: the wait for it never has
/// to begin again.
pub proof fn lemma_drained_closed_pool_stays_drained(pool: Pool, ops: Seq<PoolOp>)
    requires
        pool.wf(),
        pool.drained(),
    ensures
        pool.close().run(ops).drained(),
{
    lemma_closed_pool_admits_none(pool, ops);
    lemma_run_preserves(pool.close(), ops);
}

/// Closing twice is closing once.
pub proof fn lemma_close_idempotent(pool: Pool)
    ensures
        pool.close().close() == pool.close(),
{
}

/// A pool is drained exactly when no permit is held.
pub proof fn lemma_drained_iff_none_outstanding(pool: Pool)
    requires
        pool.wf(),
    ensures
        pool.drained() <==> pool.outstanding() == 0,
{
}

} // verus!
