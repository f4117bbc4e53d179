//! The ready queue and the accounting of the worker pool.
use vstd::prelude::*;

use crate::reference::ActorRef;
use std::collections::VecDeque;

verus! {

/// References of receivers that have work, first in first out.
pub struct RunQueue {
    queue: VecDeque<ActorRef>,
}

impl View for RunQueue {
    type V = Seq<ActorRef>;

    closed spec fn view(&self) -> Seq<ActorRef> {
        self.queue@
    }
}

impl RunQueue {
    /// An empty queue.
    pub fn new() -> (r: RunQueue)
        ensures
            r@.len() == 0,
    {
        RunQueue { queue: VecDeque::new() }
    }

    /// Adds a reference at the back.
    pub fn enqueue(&mut self, r: ActorRef)
        ensures
            final(self)@ == old(self)@.push(r),
    {
        self.queue.push_back(r);
    }

    /// Takes the reference at the front.
    pub fn pop(&mut self) -> (r: Option<ActorRef>)
        ensures
            old(self)@.len() == 0 ==> r is None && final(self)@ == old(self)@,
            old(self)@.len() > 0 ==> r == Some(old(self)@[0]) && final(self)@
                == old(self)@.drop_first(),
    {
        self.queue.pop_front()
    }

    /// The number of waiting references.
    pub fn len(&self) -> (r: usize)
        ensures
            r == self@.len(),
    {
        self.queue.len()
    }

    /// Drops every waiting reference.
    pub fn clear(&mut self)
        ensures
            final(self)@.len() == 0,
    {
        self.queue.clear();
    }
}

/// Abstract state of the worker pool.
pub struct PoolModel {
    /// Workers asked for and not told to stop.
    pub live: nat,
    /// Whether the pool has been shut down.
    pub shut_down: bool,
}

/// Decisions on the worker threads: how many to launch, to signal, to relaunch.
pub struct WorkerPool {
    live: u32,
    shut_down: bool,
}

impl View for WorkerPool {
    type V = PoolModel;

    closed spec fn view(&self) -> PoolModel {
        PoolModel { live: self.live as nat, shut_down: self.shut_down }
    }
}

/// The pool after a worker panicked: it is relaunched, so the count stays.
pub open spec fn after_panic(s: PoolModel) -> PoolModel {
    s
}

/// The pool after `n` panics in a row.
pub open spec fn after_panics(s: PoolModel, n: nat) -> PoolModel
    decreases n,
{
    if n == 0 {
        s
    } else {
        after_panic(after_panics(s, (n - 1) as nat))
    }
}

/// The pool after a shutdown, and the number of termination signals it sends.
pub open spec fn after_shutdown(s: PoolModel) -> (PoolModel, nat) {
    if s.shut_down {
        (s, 0)
    } else {
        (PoolModel { live: 0, shut_down: true }, s.live)
    }
}

/// However many behavior panics occur, the pool keeps the number of workers it was
/// asked for.
pub proof fn lemma_workers_survive_panics(s: PoolModel, n: nat)
    ensures
        after_panics(s, n).live == s.live,
    decreases n,
{
    if n > 0 {
        lemma_workers_survive_panics(s, (n - 1) as nat);
    }
}

/// A second shutdown succeeds and changes nothing.
pub proof fn lemma_shutdown_idempotent(s: PoolModel)
    ensures
        after_shutdown(after_shutdown(s).0).0 == after_shutdown(s).0,
        after_shutdown(after_shutdown(s).0).1 == 0,
{
}

impl WorkerPool {
    /// A pool with no worker.
    pub fn new() -> (r: WorkerPool)
        ensures
            r@ == (PoolModel { live: 0, shut_down: false }),
    {
        WorkerPool { live: 0, shut_down: false }
    }

    /// The number of live workers.
    pub fn live(&self) -> (r: u32)
        ensures
            r == self@.live,
    {
        self.live
    }

    /// Whether the pool was shut down.
    pub fn is_shut_down(&self) -> (r: bool)
        ensures
            r == self@.shut_down,
    {
        self.shut_down
    }

    /// Asks for `n` more workers; returns how many to launch: `n`, or none once the
    /// pool is shut down.
    pub fn spawn_threads(&mut self, n: u32) -> (r: u32)
        requires
            old(self)@.live + n <= u32::MAX,
        ensures
            old(self)@.shut_down ==> r == 0 && final(self)@ == old(self)@,
            !old(self)@.shut_down ==> r == n && final(self)@ == (PoolModel {
                live: old(self)@.live + n as nat,
                ..old(self)@
            }),
    {
        if self.shut_down {
            return 0;
        }
        self.live = self.live + n;
        n
    }

    /// Asks `n` workers to stop; returns how many termination signals to send, at most
    /// the number of live workers.
    pub fn terminate_threads(&mut self, n: u32) -> (r: u32)
        ensures
            r == if n <= old(self)@.live { n as nat } else { old(self)@.live },
            final(self)@ == (PoolModel { live: (old(self)@.live - r) as nat, ..old(self)@ }),
    {
        let k = if n <= self.live { n } else { self.live };
        self.live = self.live - k;
        k
    }

    /// A worker was unwound by a panic; returns whether to launch a replacement, which
    /// is owed unless the pool is shut down. The count of live workers stays.
    pub fn worker_panicked(&mut self) -> (r: bool)
        ensures
            final(self)@ == after_panic(old(self)@),
            r == !old(self)@.shut_down,
    {
        !self.shut_down
    }

    /// Shuts the pool down; returns how many termination signals to send. A second call
    /// sends none and changes nothing.
    pub fn shutdown(&mut self) -> (r: u32)
        ensures
            final(self)@ == after_shutdown(old(self)@).0,
            r == after_shutdown(old(self)@).1,
    {
        if self.shut_down {
            return 0;
        }
        let k = self.live;
        self.live = 0;
        self.shut_down = true;
        k
    }
}

} // verus!
