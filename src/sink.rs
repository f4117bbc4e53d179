//! One-shot reply sinks: the first message completes a future, later ones are dropped.
use vstd::prelude::*;

verus! {

#[verifier::external_type_specification]
#[verifier::external_body]
#[verifier::reject_recursive_types(T)]
#[verifier::reject_recursive_types(E)]
pub struct ExComplete<T: Send + 'static, E: Send + 'static>(eventual::Complete<T, E>);

#[verifier::external_type_specification]
#[verifier::external_body]
#[verifier::reject_recursive_types(T)]
#[verifier::reject_recursive_types(E)]
pub struct ExFuture<T: Send + 'static, E: Send + 'static>(eventual::Future<T, E>);

/// Relies on eventual::Future::pair: a fresh completer and the future that it resolves.
#[verifier::external_body]
fn new_pair<T: Send + 'static>() -> (eventual::Complete<T, ()>, eventual::Future<T, ()>) {
    eventual::Future::pair()
}

/// Relies on eventual::Complete::complete: consumes the completer and resolves its
/// future with `val`.
#[verifier::external_body]
fn fulfil<T: Send + 'static>(c: eventual::Complete<T, ()>, val: T) {
    c.complete(val)
}

/// What became of a message offered to a sink.
#[derive(Clone, Copy, Debug, PartialEq, Eq, Structural)]
pub enum Delivery {
    /// It completed the future.
    Completed,
    /// The future was already completed: the message was dropped.
    Dropped,
}

/// Whether a sink that was `pending` completes its future with an offered message,
/// and whether it is pending afterwards.
pub open spec fn offer_step(pending: bool) -> (Delivery, bool) {
    if pending {
        (Delivery::Completed, false)
    } else {
        (Delivery::Dropped, false)
    }
}

pub open spec fn completions(ds: Seq<Delivery>) -> nat
    decreases ds.len(),
{
    if ds.len() == 0 {
        0
    } else {
        (if ds[0] == Delivery::Completed {
            1nat
        } else {
            0nat
        }) + completions(ds.drop_first())
    }
}

/// The deliveries of `n` offers in a row to a sink that starts `pending`.
pub open spec fn offers(pending: bool, n: nat) -> Seq<Delivery>
    decreases n,
{
    if n == 0 {
        Seq::empty()
    } else {
        seq![offer_step(pending).0] + offers(offer_step(pending).1, (n - 1) as nat)
    }
}

proof fn lemma_completed_sink_drops(n: nat)
    ensures
        completions(offers(false, n)) == 0,
    decreases n,
{
    if n > 0 {
        lemma_completed_sink_drops((n - 1) as nat);
        assert(offers(false, n).drop_first() == offers(false, (n - 1) as nat));
    }
}

/// However many messages reach a fresh sink, it completes its future exactly once.
pub proof fn lemma_completes_once(n: nat)
    requires
        n >= 1,
    ensures
        completions(offers(true, n)) == 1,
{
    lemma_completed_sink_drops((n - 1) as nat);
    assert(offers(true, n).drop_first() == offers(false, (n - 1) as nat));
}

/// A one-shot completer.
#[verifier::reject_recursive_types(T)]
pub struct ReplySink<T: Send + 'static> {
    slot: Option<eventual::Complete<T, ()>>,
}

impl<T: Send + 'static> ReplySink<T> {
    /// Whether the future is still waiting for its value.
    pub closed spec fn is_pending(&self) -> bool {
        self.slot is Some
    }

    /// A pending sink and the future that it completes.
    pub fn new() -> (r: (ReplySink<T>, eventual::Future<T, ()>))
        ensures
            r.0.is_pending(),
    {
        let (c, f) = new_pair();
        (ReplySink { slot: Some(c) }, f)
    }

    /// Whether the future is still waiting for its value.
    pub fn pending(&self) -> (r: bool)
        ensures
            r == self.is_pending(),
    {
        self.slot.is_some()
    }

    /// Offers a message: the first completes the future, any later one is dropped.
    pub fn offer(&mut self, val: T) -> (r: Delivery)
        ensures
            (r, final(self).is_pending()) == offer_step(old(self).is_pending()),
    {
        match self.slot.take() {
            Some(c) => {
                fulfil(c, val);
                Delivery::Completed
            },
            None => Delivery::Dropped,
        }
    }
}

} // verus!
