//! The behavior of a future cell: it waits for one value, then runs the
//! computations that were scheduled on it, in order.
use vstd::prelude::*;

use crate::reference::ActorRef;
use std::collections::VecDeque;

verus! {

/// Where a future stands.
pub enum FutureState<V> {
    /// No value yet.
    Uncompleted,
    /// Holds its value.
    Computing(V),
    /// Its value is lent to a computation that has not returned yet.
    Applying,
    /// Its value was forwarded: the future has nothing left to do.
    Extracted,
}

/// What may be asked of a future.
pub enum Computation<K> {
    /// Send the value to an actor, then stop.
    Forward(ActorRef),
    /// Complete another future with the value, then stop.
    ForwardToFuture(ActorRef),
    /// Replace the value with what the computation `K` makes of it.
    Apply(K),
}

/// What the runtime must do for a computation that ran.
pub enum Effect<V, K> {
    /// Tell the actor the value; the future then asks its father to remove it.
    Tell(ActorRef, V),
    /// Complete the future with the value; the future then asks its father to remove it.
    Complete(ActorRef, V),
    /// Run computation `K` on the value and hand back the result.
    Apply(K, V),
}

/// What became of a value offered to a future.
#[derive(Clone, Copy, Debug, PartialEq, Eq, Structural)]
pub enum Completion {
    /// It became the future's value.
    Accepted,
    /// The future already had one: the value was dropped.
    Rejected,
}

/// Abstract state of a future cell.
pub struct FutureModel<V, K> {
    pub state: FutureState<V>,
    pub scheduled: Seq<Computation<K>>,
}

/// The effect of running computation `c` on value `v`.
pub open spec fn effect_of<V, K>(c: Computation<K>, v: V) -> Effect<V, K> {
    match c {
        Computation::Forward(to) => Effect::Tell(to, v),
        Computation::ForwardToFuture(to) => Effect::Complete(to, v),
        Computation::Apply(k) => Effect::Apply(k, v),
    }
}

/// The state after computation `c` took the value.
pub open spec fn state_after<V, K>(c: Computation<K>) -> FutureState<V> {
    match c {
        Computation::Apply(_) => FutureState::Applying,
        _ => FutureState::Extracted,
    }
}

/// Runs the first scheduled computation of a future that holds its value: the result
/// is the future afterwards and the effect to perform. Every computation consumes the
/// value, so the others wait, in order, for the next one.
pub open spec fn run_first<V, K>(f: FutureModel<V, K>) -> (FutureModel<V, K>, Option<Effect<V, K>>) {
    match f.state {
        FutureState::Computing(v) => if f.scheduled.len() > 0 {
            (
                FutureModel { state: state_after::<V, K>(f.scheduled[0]), scheduled: f.scheduled.drop_first() },
                Some(effect_of(f.scheduled[0], v)),
            )
        } else {
            (f, None)
        },
        _ => (f, None),
    }
}

/// A future cell.
pub struct FutureCell<V, K> {
    state: FutureState<V>,
    scheduled: VecDeque<Computation<K>>,
}

impl<V, K> View for FutureCell<V, K> {
    type V = FutureModel<V, K>;

    closed spec fn view(&self) -> FutureModel<V, K> {
        FutureModel { state: self.state, scheduled: self.scheduled@ }
    }
}

impl<V, K> FutureCell<V, K> {
    /// A future with no value and nothing scheduled.
    pub fn new() -> (r: FutureCell<V, K>)
        ensures
            r@.state is Uncompleted,
            r@.scheduled.len() == 0,
    {
        FutureCell { state: FutureState::Uncompleted, scheduled: VecDeque::new() }
    }

    /// Whether the future has been given its value.
    pub fn is_completed(&self) -> (r: bool)
        ensures
            r == !(self@.state is Uncompleted),
    {
        match self.state {
            FutureState::Uncompleted => false,
            _ => true,
        }
    }

    /// Offers the future its value: accepted only by a future that has none.
    pub fn complete(&mut self, v: V) -> (r: Completion)
        ensures
            old(self)@.state is Uncompleted ==> r == Completion::Accepted && final(self)@ == (
            FutureModel { state: FutureState::Computing(v), ..old(self)@ }),
            !(old(self)@.state is Uncompleted) ==> r == Completion::Rejected && final(self)@
                == old(self)@,
    {
        match self.state {
            FutureState::Uncompleted => {
                self.state = FutureState::Computing(v);
                Completion::Accepted
            },
            _ => Completion::Rejected,
        }
    }

    /// Whether the value is lent to a computation.
    pub fn is_applying(&self) -> (r: bool)
        ensures
            r == (self@.state is Applying),
    {
        match self.state {
            FutureState::Applying => true,
            _ => false,
        }
    }

    /// Whether the value has been forwarded.
    pub fn is_extracted(&self) -> (r: bool)
        ensures
            r == (self@.state is Extracted),
    {
        match self.state {
            FutureState::Extracted => true,
            _ => false,
        }
    }

    /// Asks for a computation. It runs at once on a held value; it waits behind the
    /// others while there is no value or while the value is lent. A future whose value
    /// was forwarded takes no computation.
    pub fn compute(&mut self, c: Computation<K>) -> (r: Option<Effect<V, K>>)
        requires
            !(old(self)@.state is Extracted),
        ensures
            match old(self)@.state {
                FutureState::Computing(v) => {
                    &&& r == Some(effect_of(c, v))
                    &&& final(self)@ == FutureModel { state: state_after::<V, K>(c), ..old(self)@ }
                },
                FutureState::Extracted => r is None && final(self)@ == old(self)@,
                _ => {
                    &&& r is None
                    &&& final(self)@ == FutureModel {
                        scheduled: old(self)@.scheduled.push(c),
                        ..old(self)@
                    }
                },
            },
    {
        match &self.state {
            FutureState::Computing(_) => {},
            FutureState::Extracted => {
                return None;
            },
            _ => {
                self.scheduled.push_back(c);
                return None;
            },
        }
        let mut held = FutureState::Extracted;
        core::mem::swap(&mut self.state, &mut held);
        match held {
            FutureState::Computing(v) => {
                match c {
                    Computation::Forward(to) => Some(Effect::Tell(to, v)),
                    Computation::ForwardToFuture(to) => Some(Effect::Complete(to, v)),
                    Computation::Apply(k) => {
                        self.state = FutureState::Applying;
                        Some(Effect::Apply(k, v))
                    },
                }
            },
            _ => None,
        }
    }

    /// Hands back the result of a lent value's computation: it becomes the value.
    pub fn computed(&mut self, v: V) -> (r: Completion)
        ensures
            old(self)@.state is Applying ==> r == Completion::Accepted && final(self)@ == (
            FutureModel { state: FutureState::Computing(v), ..old(self)@ }),
            !(old(self)@.state is Applying) ==> r == Completion::Rejected && final(self)@
                == old(self)@,
    {
        match self.state {
            FutureState::Applying => {
                self.state = FutureState::Computing(v);
                Completion::Accepted
            },
            _ => Completion::Rejected,
        }
    }

    /// Runs the first scheduled computation, once the future holds a value.
    pub fn run_scheduled(&mut self) -> (r: Option<Effect<V, K>>)
        ensures
            (final(self)@, r) == run_first(old(self)@),
    {
        match self.next_scheduled() {
            Some(c) => self.compute(c),
            None => None,
        }
    }

    /// The next scheduled computation, once the future holds a value.
    pub fn next_scheduled(&mut self) -> (r: Option<Computation<K>>)
        ensures
            (old(self)@.state is Computing && old(self)@.scheduled.len() > 0) ==> r == Some(
                old(self)@.scheduled[0],
            ) && final(self)@ == (FutureModel {
                scheduled: old(self)@.scheduled.drop_first(),
                ..old(self)@
            }),
            !(old(self)@.state is Computing && old(self)@.scheduled.len() > 0) ==> r is None
                && final(self)@ == old(self)@,
    {
        match self.state {
            FutureState::Computing(_) => self.scheduled.pop_front(),
            _ => None,
        }
    }
}

} // verus!
