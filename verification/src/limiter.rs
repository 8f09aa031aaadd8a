//! Limiting how many VM executions run at once.
//!
//! The limiter, its permits and its barrier are thin shells around one tokio
//! semaphore. Waiting for a permit and sleeping between polls suspend the
//! task, which only the caller can do; this module says what to wait on, and
//! decides what each answer means.

use std::sync::Arc;
use tokio::runtime::Handle;
use tokio::sync::{AcquireError, OwnedSemaphorePermit, Semaphore};
use vstd::prelude::*;
use crate::pool::Pool;
use crate::semaphore::current_handle;

verus! {

/// The most permits a limiter can be made with: what the semaphore can hold.
pub const MAX_CONCURRENCY: usize = usize::MAX / 8;

/// How long to sleep between two looks at a draining limiter, in
/// milliseconds.
pub const POLL_INTERVAL_MS: u64 = 50;

/// Waiting for a permit longer than this many nanoseconds is worth a log
/// line.
pub const SLOW_ACQUIRE_NANOS: u128 = 10_000_000;

/// Permit to invoke VM code.
///
/// Any publicly-facing method that invokes VM is expected to accept a reference to this structure,
/// as a proof that the caller obtained a token from `VmConcurrencyLimiter`,
#[derive(Debug, Clone)]
pub struct VmPermit {
    /// A handle to the runtime that is used to query the VM storage.
    rt_handle: Handle,
    _permit: Arc<OwnedSemaphorePermit>,
}

impl VmPermit {
    /// The runtime this permit's VM call is to run on.
    pub closed spec fn handle(self) -> Handle {
        self.rt_handle
    }

    /// The semaphore permit that this permit holds on to.
    pub closed spec fn held(self) -> OwnedSemaphorePermit {
        *self._permit
    }

    /// A handle to the runtime that is used to query the VM storage.
    pub fn rt_handle(&self) -> (handle: &Handle)
        ensures
            *handle == self.handle(),
    {
        &self.rt_handle
    }
}

/// What one look at a draining limiter tells the waiter to do.
#[derive(Clone, Copy, Debug, PartialEq, Eq, Structural)]
pub enum DrainStep {
    /// The limiter is not closed, so waiting for it to drain is a mistake of
    /// the caller.
    NotClosed,
    /// Every permit is back: the wait is over.
    Stopped,
    /// Permits are still out: sleep, then look again.
    Sleep {
        /// How long to sleep, in milliseconds.
        millis: u64,
        /// How many permits are still out.
        remaining: usize,
    },
}

/// What to do on seeing a limiter of `max_concurrency` permits with `available`
/// of them free: stop once the pool is drained, else sleep one interval.
pub open spec fn drain_step_of(closed: bool, available: usize, max_concurrency: usize) -> DrainStep {
    let pool = Pool { capacity: max_concurrency as nat, available: available as nat, closed };
    if !closed {
        DrainStep::NotClosed
    } else if pool.drained() {
        DrainStep::Stopped
    } else {
        DrainStep::Sleep {
            millis: POLL_INTERVAL_MS,
            remaining: if pool.wf() {
                pool.outstanding() as usize
            } else {
                0
            },
        }
    }
}

/// The wait is declared over exactly when the limiter is closed and none of
/// its permits is held; while it is closed and permits are held, the waiter
/// is told to sleep one interval and how many are out.
pub proof fn lemma_wait_ends_when_drained(closed: bool, available: usize, max_concurrency: usize)
    requires
        available <= max_concurrency,
    ensures
        ({
            let pool = Pool {
                capacity: max_concurrency as nat,
                available: available as nat,
                closed,
            };
            let step = drain_step_of(closed, available, max_concurrency);
            &&& step is Stopped <==> closed && pool.outstanding() == 0
            &&& closed && pool.outstanding() > 0 ==> step == (DrainStep::Sleep {
                millis: POLL_INTERVAL_MS,
                remaining: pool.outstanding() as usize,
            })
        }),
{
}

/// Decides one step of waiting for a limiter to drain, from what was just
/// read off it.
pub fn drain_step(closed: bool, available: usize, max_concurrency: usize) -> (step: DrainStep)
    ensures
        step == drain_step_of(closed, available, max_concurrency),
        step is Stopped <==> closed && available == max_concurrency,
        step is NotClosed <==> !closed,
{
    if !closed {
        DrainStep::NotClosed
    } else if available == max_concurrency {
        DrainStep::Stopped
    } else {
        let remaining: usize = if available <= max_concurrency {
            max_concurrency - available
        } else {
            0
        };
        DrainStep::Sleep { millis: POLL_INTERVAL_MS, remaining }
    }
}

/// Whether a wait for a permit that took `elapsed_nanos` nanoseconds was
/// slow enough to be logged.
pub fn is_slow_acquire(elapsed_nanos: u128) -> (slow: bool)
    ensures
        slow == (elapsed_nanos > SLOW_ACQUIRE_NANOS),
{
    elapsed_nanos > SLOW_ACQUIRE_NANOS
}

/// Barrier-like synchronization primitive allowing to close a [`VmConcurrencyLimiter`] it's attached to
/// so that it doesn't issue new permits, and to wait for all permits to drop.
#[derive(Debug, Clone)]
pub struct VmConcurrencyBarrier {
    limiter: Arc<Semaphore>,
    max_concurrency: usize,
}

impl VmConcurrencyBarrier {
    /// The semaphore that this barrier closes and watches.
    pub closed spec fn resource(self) -> Semaphore {
        *self.limiter
    }

    /// The number of permits the limiter was made with.
    pub closed spec fn capacity(self) -> usize {
        self.max_concurrency
    }

    /// The number of permits the limiter was made with.
    pub fn max_concurrency(&self) -> (n: usize)
        ensures
            n == self.capacity(),
    {
        self.max_concurrency
    }

    /// Shuts down the related VM concurrency limiter so that it won't issue new permits.
    pub fn close(&self) {
        self.limiter.close();
    }

    /// Whether the limiter has been closed, as of this call.
    pub fn is_closed(&self) -> bool {
        self.limiter.is_closed()
    }

    /// One step of waiting until all permits issued by the VM concurrency
    /// limiter are dropped: looks at the semaphore and says whether the wait
    /// is over, has to go on after a sleep, or should never have begun.
    ///
    /// The caller repeats this, sleeping as told, until it says `Stopped`.
    pub fn wait_until_stopped(&self) -> (step: DrainStep)
        ensures
            exists|closed: bool, available: usize|
                step == drain_step_of(closed, available, self.capacity()),
            step matches DrainStep::Sleep { millis, remaining } ==> millis == POLL_INTERVAL_MS
                && remaining <= self.capacity(),
    {
        let closed = self.limiter.is_closed();
        let current_permits = self.limiter.available_permits();
        let step = drain_step(closed, current_permits, self.max_concurrency);
        assert(step == drain_step_of(closed, current_permits, self.capacity()));
        step
    }
}

/// Synchronization primitive that limits the number of concurrent VM executions.
/// This is required to prevent the server from being overloaded with the VM calls.
///
/// This structure is expected to be used in every method that executes VM code, on a topmost
/// level (i.e. before any async calls are made or VM is instantiated),
///
/// Note that the actual limit on the number of VMs is a minimum of the limit in this structure,
/// *and* the size of the blocking tokio threadpool. So, even if the limit is set to 1024, but
/// tokio is configured to have no more than 512 blocking threads, the actual limit will be 512.
#[derive(Debug)]
pub struct VmConcurrencyLimiter {
    /// Semaphore that limits the number of concurrent VM executions.
    limiter: Arc<Semaphore>,
    rt_handle: Handle,
}

impl VmConcurrencyLimiter {
    /// The semaphore that this limiter takes its permits from.
    pub closed spec fn resource(self) -> Semaphore {
        *self.limiter
    }

    /// The runtime that this limiter's permits carry.
    pub closed spec fn handle(self) -> Handle {
        self.rt_handle
    }

    /// Creates a limiter together with a barrier allowing to control its
    /// shutdown. Permits will carry the handle of the runtime that the call
    /// is made in; outside any runtime there is no such handle, and the
    /// answer is `None`.
    pub fn new(max_concurrency: usize) -> (made: Option<(Self, VmConcurrencyBarrier)>)
        requires
            1 <= max_concurrency <= MAX_CONCURRENCY,
        ensures
            made matches Some((limiter, barrier)) ==> barrier.capacity() == max_concurrency
                && barrier.resource() == limiter.resource(),
    {
        Self::in_runtime(max_concurrency, current_handle())
    }

    /// Creates a limiter for the runtime that the caller was found to run
    /// in: with `Some` handle, a limiter whose permits carry it, together
    /// with its barrier; with `None`, nothing.
    pub fn in_runtime(max_concurrency: usize, current: Option<Handle>) -> (made: Option<
        (Self, VmConcurrencyBarrier),
    >)
        requires
            1 <= max_concurrency <= MAX_CONCURRENCY,
        ensures
            made is Some <==> current is Some,
            made matches Some((limiter, barrier)) ==> limiter.handle() == current->Some_0
                && barrier.capacity() == max_concurrency && barrier.resource()
                == limiter.resource(),
    {
        match current {
            Some(rt_handle) => Some(Self::with_handle(max_concurrency, rt_handle)),
            None => None,
        }
    }

    /// Creates a limiter whose permits carry `rt_handle`, together with a
    /// barrier allowing to control its shutdown. The two share one semaphore
    /// of `max_concurrency` permits.
    pub fn with_handle(max_concurrency: usize, rt_handle: Handle) -> (made: (
        Self,
        VmConcurrencyBarrier,
    ))
        requires
            1 <= max_concurrency <= MAX_CONCURRENCY,
        ensures
            made.0.handle() == rt_handle,
            made.1.capacity() == max_concurrency,
            made.1.resource() == made.0.resource(),
    {
        let limiter = Arc::new(Semaphore::new(max_concurrency));
        let this = Self { limiter: Arc::clone(&limiter), rt_handle };
        let barrier = VmConcurrencyBarrier { limiter, max_concurrency };
        (this, barrier)
    }

    /// How many permits are free, as of this call. Sampled before waiting,
    /// for the gauge that watches the limiter.
    pub fn available_permits(&self) -> usize {
        self.limiter.available_permits()
    }

    /// The semaphore to wait on for a free slot.
    pub fn semaphore(&self) -> (semaphore: Arc<Semaphore>)
        ensures
            *semaphore == self.resource(),
    {
        Arc::clone(&self.limiter)
    }

    /// Turns the outcome of waiting on [`Self::semaphore`] into a permit
    /// that should be dropped when the VM execution is finished. The wait
    /// fails only if the limiter was closed, and then there is no permit.
    pub fn acquire(&self, acquired: Result<OwnedSemaphorePermit, AcquireError>) -> (permit: Option<
        VmPermit,
    >)
        ensures
            permit is Some <==> acquired is Ok,
            permit matches Some(permit) ==> permit.handle() == self.handle() && permit.held()
                == acquired->Ok_0,
    {
        match acquired {
            Ok(permit) => Some(
                VmPermit { rt_handle: self.rt_handle.clone(), _permit: Arc::new(permit) },
            ),
            Err(_) => None,
        }
    }
}

} // verus!
