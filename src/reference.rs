//! References (handles to receivers) and the messages that travel between them.
use vstd::prelude::*;

use crate::future::Computation;
use crate::path::ActorPath;

verus! {

/// What a message of the application must be to travel between threads; every type
/// that is `Send + 'static` is one.
pub trait Message: Send + 'static {}

impl<T: Send + 'static> Message for T {}

/// What stands behind a reference.
#[derive(Clone, Copy, Debug, PartialEq, Eq, Structural)]
pub enum Target {
    /// The root sentinel `/`: any message to it is a bug.
    Cthulhu,
    /// A local actor cell, by its slot in the runtime.
    Cell(u64),
    /// A one-shot reply sink, by its slot in the runtime.
    ReplySink(u64),
    /// A distant actor: nothing local backs it.
    Distant,
}

/// A cheap, clonable handle to a receiver: a path and what backs it.
pub struct ActorRef {
    pub path: ActorPath,
    pub target: Target,
}

impl Clone for ActorRef {
    fn clone(&self) -> (r: Self)
        ensures
            r == *self,
    {
        ActorRef { path: self.path.clone(), target: self.target }
    }
}

impl ActorRef {
    /// A reference to a distant actor, which nothing local backs.
    pub fn new_distant(path: ActorPath) -> (r: ActorRef)
        ensures
            r.path == path,
            r.target == Target::Distant,
    {
        ActorRef { path, target: Target::Distant }
    }

    /// The reference to the root sentinel, at `/`.
    pub fn with_cthulhu() -> (r: ActorRef)
        ensures
            r.path@ == (crate::path::PathModel::Local { logical: seq!['/'] }),
            r.target == Target::Cthulhu,
    {
        let root = "/";
        proof {
            reveal_strlit("/");
            assert(root@ =~= seq!['/']);
        }
        ActorRef { path: ActorPath::new_local(root.to_owned()), target: Target::Cthulhu }
    }

    /// A reference to the local cell in slot `id`.
    pub fn with_cell(id: u64, path: ActorPath) -> (r: ActorRef)
        ensures
            r.path == path,
            r.target == Target::Cell(id),
    {
        ActorRef { path, target: Target::Cell(id) }
    }

    /// A reference to the reply sink in slot `id`.
    pub fn with_complete(id: u64, path: ActorPath) -> (r: ActorRef)
        ensures
            r.path == path,
            r.target == Target::ReplySink(id),
    {
        ActorRef { path, target: Target::ReplySink(id) }
    }

    /// A copy of the path of this reference.
    pub fn path(&self) -> (r: ActorPath)
        ensures
            r == self.path,
    {
        self.path.clone()
    }

    /// Two references are equal when their paths are.
    pub fn equals(&self, other: &ActorRef) -> (r: bool)
        ensures
            r == (self.path@ == other.path@),
    {
        self.path.equals(&other.path)
    }
}

/// Lifecycle events, handled before any ordinary message.
pub enum SystemMessage {
    /// Replace the behavior with a fresh one from the factory.
    Restart,
    /// Initialise the behavior.
    Start,
    /// A child of the receiver has failed.
    Failure(ActorRef),
}

/// Control messages that travel in the ordinary mailbox.
pub enum ControlMessage {
    /// Asks the receiver to have its father terminate it.
    PoisonPill,
    /// Post-mortem notice delivered to monitors.
    Terminated(ActorRef),
    /// A child asks its father to remove it.
    KillMe(ActorRef),
}

/// Requests understood by the name resolver.
pub enum ResolveRequest {
    /// Registers a reference under its path.
    Add(ActorRef),
    /// Forgets the entry of a path.
    Remove(ActorPath),
    /// Asks for the reference registered under a local logical path.
    Get(String),
}

/// What an ordinary message carries.
pub enum Payload<M> {
    /// A message of the application.
    User(M),
    /// A request to the name resolver.
    Resolve(ResolveRequest),
    /// The name resolver's answer to a `Get`.
    Identity(Option<ActorRef>),
    /// A computation asked of a future cell; the number names a computation that the
    /// application supplies.
    Compute(Computation<u64>),
}

/// The content of an envelope.
pub enum InnerMessage<M> {
    /// Regular message.
    Message(Payload<M>),
    /// Control message.
    Control(ControlMessage),
}

/// A message and the reference of its sender.
pub struct Envelope<M> {
    pub message: InnerMessage<M>,
    pub sender: ActorRef,
}

} // verus!
