//! The actor cell: two mailboxes, a lifecycle, a busy latch and the
//! supervision links of one actor.
use vstd::prelude::*;

use crate::path::{ActorPath, PathModel};
use crate::reference::{ActorRef, Envelope, InnerMessage, SystemMessage};
use crate::table::{entry_of, paths_unique, removal, RefTable};
use std::collections::VecDeque;

verus! {

/// Where a cell stands in its life.
#[derive(Clone, Copy, Debug, PartialEq, Eq, Structural)]
pub enum Lifecycle {
    /// Created; its first `Start` has not been handled yet.
    Unstarted,
    /// Up and running.
    Running,
    /// Its behavior panicked and it has not been restarted yet.
    Failed,
}

/// Which behavior a cell runs: one built into the runtime, or one of the application.
#[derive(Clone, Copy, Debug, PartialEq, Eq, Structural)]
pub enum Role {
    /// `/user` or `/system`: spawns what it is asked to.
    Root,
    /// The name resolver at `/system/name_resolver`.
    NameResolver,
    /// A behavior supplied by the application.
    User,
    /// A future made by `ask`: it waits for one value.
    Future,
}

/// What one step of a cell found to do.
pub enum Work<M> {
    /// Another worker is inside the cell: it was left untouched.
    Busy,
    /// A system message was taken: it is handled before anything else.
    System(SystemMessage),
    /// The cell is not running: no ordinary message may be delivered, so it must be
    /// scheduled again.
    Requeue,
    /// Both mailboxes are empty.
    Idle,
    /// An ordinary message is being delivered; its sender is now the current sender.
    Deliver(InnerMessage<M>),
}

/// How the work of a step ended.
#[derive(Clone, Copy, Debug, PartialEq, Eq, Structural)]
pub enum Outcome {
    /// The work was done and changes nothing in the lifecycle.
    Done,
    /// A `Start` or a `Restart` was carried out: the cell now runs.
    Started,
    /// The behavior panicked.
    Panicked,
}

/// Abstract state of a cell.
pub struct CellModel<M, F> {
    pub path: ActorPath,
    pub factory: F,
    pub father: ActorRef,
    pub role: Role,
    pub mailbox: Seq<Envelope<M>>,
    pub system: Seq<SystemMessage>,
    pub sender: Option<ActorRef>,
    pub children: Seq<ActorRef>,
    pub monitoring: Seq<ActorRef>,
    pub lifecycle: Lifecycle,
    pub busy: bool,
}

impl<M, F> CellModel<M, F> {
    pub open spec fn wf(self) -> bool {
        &&& paths_unique(self.children)
        &&& paths_unique(self.monitoring)
        &&& self.sender is Some ==> self.busy
    }

    /// The same identity: path, factory, father and role.
    pub open spec fn same_identity(self, other: CellModel<M, F>) -> bool {
        &&& self.path == other.path
        &&& self.factory == other.factory
        &&& self.father == other.father
        &&& self.role == other.role
    }

    /// The same cell with only its busy latch, current sender and lifecycle possibly changed.
    pub open spec fn same_boxes(self, other: CellModel<M, F>) -> bool {
        &&& self.same_identity(other)
        &&& self.mailbox == other.mailbox
        &&& self.system == other.system
        &&& self.children == other.children
        &&& self.monitoring == other.monitoring
    }

    /// What `begin_step` does, from `self` to `post`, with result `w`.
    pub open spec fn begin_step(self, post: CellModel<M, F>, w: Work<M>) -> bool {
        if self.busy {
            w is Busy && post == self
        } else if self.system.len() > 0 {
            &&& w == Work::<M>::System(self.system[0])
            &&& post == CellModel { system: self.system.drop_first(), busy: true, ..self }
        } else if self.lifecycle != Lifecycle::Running {
            w is Requeue && post == self
        } else if self.mailbox.len() == 0 {
            w is Idle && post == self
        } else {
            &&& w == Work::Deliver(self.mailbox[0].message)
            &&& post == CellModel {
                mailbox: self.mailbox.drop_first(),
                sender: Some(self.mailbox[0].sender),
                busy: true,
                ..self
            }
        }
    }

    /// What `end_step` does with outcome `o`.
    pub open spec fn end_step(self, post: CellModel<M, F>, o: Outcome) -> bool {
        &&& post.same_boxes(self)
        &&& !post.busy
        &&& post.sender is None
        &&& post.lifecycle == match o {
            Outcome::Done => self.lifecycle,
            Outcome::Started => Lifecycle::Running,
            Outcome::Panicked => Lifecycle::Failed,
        }
    }
}

/// While a worker is inside a cell, a step enters nothing and changes nothing; a step
/// that takes work leaves the cell busy until `end_step`.
pub proof fn lemma_one_worker_inside<M, F>(
    c: CellModel<M, F>,
    post: CellModel<M, F>,
    w: Work<M>,
)
    requires
        c.begin_step(post, w),
    ensures
        c.busy ==> w is Busy && post == c,
        (w is System || w is Deliver) ==> !c.busy && post.busy,
{
}

/// A step on a cell whose system mailbox is not empty takes a system message and
/// leaves the ordinary mailbox untouched.
pub proof fn lemma_system_first<M, F>(c: CellModel<M, F>, post: CellModel<M, F>, w: Work<M>)
    requires
        c.begin_step(post, w),
        !c.busy,
        c.system.len() > 0,
    ensures
        w == Work::<M>::System(c.system[0]),
        post.mailbox == c.mailbox,
{
}

/// An ordinary envelope is delivered only by a running cell with no system message
/// waiting; a cell that is not running takes none and asks to be scheduled again.
pub proof fn lemma_lifecycle_gate<M, F>(c: CellModel<M, F>, post: CellModel<M, F>, w: Work<M>)
    requires
        c.begin_step(post, w),
    ensures
        w is Deliver ==> c.lifecycle == Lifecycle::Running && c.system.len() == 0,
        !c.busy && c.system.len() == 0 && c.lifecycle != Lifecycle::Running ==> w is Requeue
            && post.mailbox == c.mailbox,
{
}

/// A panic followed by a restart keeps the mail that was waiting when the panic began:
/// after the restart the ordinary mailbox holds exactly that mail, in the same order and
/// without the envelope whose handling panicked, followed by whatever arrived while the
/// cell was failed.
pub proof fn lemma_restart_keeps_mail<M, F>(
    c0: CellModel<M, F>,
    c1: CellModel<M, F>,
    c2: CellModel<M, F>,
    c3: CellModel<M, F>,
    c4: CellModel<M, F>,
    c5: CellModel<M, F>,
    w0: Work<M>,
    w3: Work<M>,
    arrived: Seq<Envelope<M>>,
    system: Seq<SystemMessage>,
)
    requires
        c0.begin_step(c1, w0),
        w0 is Deliver,
        c1.end_step(c2, Outcome::Panicked),
        system.len() > 0,
        system[0] == SystemMessage::Restart,
        c3 == (CellModel { mailbox: c2.mailbox + arrived, system, ..c2 }),
        c3.begin_step(c4, w3),
        c4.end_step(c5, Outcome::Started),
    ensures
        c2.lifecycle == Lifecycle::Failed,
        w3 == Work::<M>::System(SystemMessage::Restart),
        c5.mailbox == c1.mailbox + arrived,
        c5.mailbox == c0.mailbox.drop_first() + arrived,
        c5.mailbox.subrange(0, c1.mailbox.len() as int) == c1.mailbox,
        c5.lifecycle == Lifecycle::Running,
{
    assert((c1.mailbox + arrived).subrange(0, c1.mailbox.len() as int) =~= c1.mailbox);
}

/// While a failed cell waits for its restart, a step takes no ordinary envelope and
/// leaves it as it was: it only asks to be scheduled again.
pub proof fn lemma_failed_cell_waits<M, F>(c: CellModel<M, F>, post: CellModel<M, F>, w: Work<M>)
    requires
        c.begin_step(post, w),
        !c.busy,
        c.system.len() == 0,
        c.lifecycle == Lifecycle::Failed,
    ensures
        w is Requeue,
        post == c,
{
}

/// The state of one actor.
pub struct ActorCell<M, F> {
    path: ActorPath,
    factory: F,
    father: ActorRef,
    role: Role,
    mailbox: VecDeque<Envelope<M>>,
    system_mailbox: VecDeque<SystemMessage>,
    current_sender: Option<ActorRef>,
    children: RefTable,
    monitoring: RefTable,
    lifecycle: Lifecycle,
    busy: bool,
}

impl<M, F> View for ActorCell<M, F> {
    type V = CellModel<M, F>;

    closed spec fn view(&self) -> CellModel<M, F> {
        CellModel {
            path: self.path,
            factory: self.factory,
            father: self.father,
            role: self.role,
            mailbox: self.mailbox@,
            system: self.system_mailbox@,
            sender: self.current_sender,
            children: self.children@,
            monitoring: self.monitoring@,
            lifecycle: self.lifecycle,
            busy: self.busy,
        }
    }
}

impl<M, F> ActorCell<M, F> {
    /// A fresh cell: both mailboxes empty, no children, not started.
    pub fn new(path: ActorPath, factory: F, father: ActorRef, role: Role) -> (r: ActorCell<M, F>)
        ensures
            r@.path == path,
            r@.factory == factory,
            r@.father == father,
            r@.role == role,
            r@.mailbox.len() == 0,
            r@.system.len() == 0,
            r@.sender is None,
            r@.children.len() == 0,
            r@.monitoring.len() == 0,
            r@.lifecycle == Lifecycle::Unstarted,
            !r@.busy,
            r@.wf(),
    {
        ActorCell {
            path,
            factory,
            father,
            role,
            mailbox: VecDeque::new(),
            system_mailbox: VecDeque::new(),
            current_sender: None,
            children: RefTable::new(),
            monitoring: RefTable::new(),
            lifecycle: Lifecycle::Unstarted,
            busy: false,
        }
    }

    /// Puts a message and its sender at the back of the ordinary mailbox.
    pub fn receive_message(&mut self, message: InnerMessage<M>, sender: ActorRef)
        ensures
            final(self)@ == (CellModel {
                mailbox: old(self)@.mailbox.push(Envelope { message, sender }),
                ..old(self)@
            }),
    {
        self.mailbox.push_back(Envelope { message, sender });
    }

    /// Puts a system message at the back of the system mailbox.
    pub fn receive_system_message(&mut self, msg: SystemMessage)
        ensures
            final(self)@ == (CellModel { system: old(self)@.system.push(msg), ..old(self)@ }),
    {
        self.system_mailbox.push_back(msg);
    }

    /// Takes at most one unit of work: a system message first; an ordinary envelope
    /// only while the cell runs; nothing while another worker is inside.
    pub fn begin_step(&mut self) -> (w: Work<M>)
        requires
            old(self)@.wf(),
        ensures
            old(self)@.begin_step(final(self)@, w),
            final(self)@.wf(),
    {
        if self.busy {
            return Work::Busy;
        }
        if let Some(msg) = self.system_mailbox.pop_front() {
            self.busy = true;
            return Work::System(msg);
        }
        if self.lifecycle != Lifecycle::Running {
            return Work::Requeue;
        }
        match self.mailbox.pop_front() {
            None => Work::Idle,
            Some(env) => {
                self.current_sender = Some(env.sender);
                self.busy = true;
                Work::Deliver(env.message)
            },
        }
    }

    /// Releases the busy latch and clears the current sender; sets the lifecycle as the
    /// outcome says.
    pub fn end_step(&mut self, o: Outcome)
        requires
            old(self)@.wf(),
        ensures
            old(self)@.end_step(final(self)@, o),
            final(self)@.wf(),
    {
        match o {
            Outcome::Done => {},
            Outcome::Started => {
                self.lifecycle = Lifecycle::Running;
            },
            Outcome::Panicked => {
                self.lifecycle = Lifecycle::Failed;
            },
        }
        self.current_sender = None;
        self.busy = false;
    }

    /// Where the actor stands in the hierarchy.
    pub fn path(&self) -> (r: &ActorPath)
        ensures
            *r == self@.path,
    {
        &self.path
    }

    /// What makes a fresh behavior on restart.
    pub fn factory(&self) -> (r: &F)
        ensures
            *r == self@.factory,
    {
        &self.factory
    }

    /// The supervisor, told of each failure.
    pub fn father(&self) -> (r: &ActorRef)
        ensures
            *r == self@.father,
    {
        &self.father
    }

    /// Which behavior the cell runs.
    pub fn role(&self) -> (r: Role)
        ensures
            r == self@.role,
    {
        self.role
    }

    /// The sender of the envelope being delivered, if one is.
    pub fn sender(&self) -> (r: Option<ActorRef>)
        ensures
            r == self@.sender,
    {
        match &self.current_sender {
            Some(s) => Some(s.clone()),
            None => None,
        }
    }

    /// The lifecycle state.
    pub fn lifecycle(&self) -> (r: Lifecycle)
        ensures
            r == self@.lifecycle,
    {
        self.lifecycle
    }

    /// The number of envelopes waiting in the ordinary mailbox.
    pub fn pending(&self) -> (r: usize)
        ensures
            r == self@.mailbox.len(),
    {
        self.mailbox.len()
    }

    /// The references to the children that this cell owns.
    pub fn children(&self) -> (r: &Vec<ActorRef>)
        ensures
            r@ == self@.children,
    {
        self.children.entries()
    }

    /// The references to the actors that this cell monitors.
    pub fn monitored(&self) -> (r: &Vec<ActorRef>)
        ensures
            r@ == self@.monitoring,
    {
        self.monitoring.entries()
    }

    /// The owned child with path `p`, if there is one.
    pub fn child(&self, p: &ActorPath) -> (r: Option<ActorRef>)
        requires
            self@.wf(),
        ensures
            r == entry_of(self@.children, p@),
    {
        self.children.get(p)
    }

    /// The monitored reference with path `p`, if there is one.
    pub fn monitored_child(&self, p: &ActorPath) -> (r: Option<ActorRef>)
        requires
            self@.wf(),
        ensures
            r == entry_of(self@.monitoring, p@),
    {
        self.monitoring.get(p)
    }

    /// Records `child` as owned and monitored, replacing entries of the same path.
    pub fn add_child(&mut self, child: ActorRef)
        requires
            old(self)@.wf(),
        ensures
            final(self)@.wf(),
            entry_of(final(self)@.children, child.path@) == Some(child),
            entry_of(final(self)@.monitoring, child.path@) == Some(child),
            forall|q: PathModel|
                q != child.path@ ==> entry_of(final(self)@.children, q) == entry_of(
                    old(self)@.children,
                    q,
                ),
            forall|q: PathModel|
                q != child.path@ ==> entry_of(final(self)@.monitoring, q) == entry_of(
                    old(self)@.monitoring,
                    q,
                ),
            final(self)@.mailbox == old(self)@.mailbox,
            final(self)@.system == old(self)@.system,
            final(self)@.sender == old(self)@.sender,
            final(self)@.lifecycle == old(self)@.lifecycle,
            final(self)@.busy == old(self)@.busy,
            final(self)@.same_identity(old(self)@),
    {
        let watched = child.clone();
        self.children.insert(child);
        self.monitoring.insert(watched);
    }

    /// Removes the owned child with path `p`, which drops the cell's ownership of it.
    /// Returns the removed reference; `None`, and nothing changed, where there was none.
    pub fn remove_child(&mut self, p: &ActorPath) -> (r: Option<ActorRef>)
        requires
            old(self)@.wf(),
        ensures
            final(self)@.wf(),
            removal(old(self)@.children, final(self)@.children, p@, r),
            r is None ==> final(self)@ == old(self)@,
            final(self)@.mailbox == old(self)@.mailbox,
            final(self)@.system == old(self)@.system,
            final(self)@.monitoring == old(self)@.monitoring,
            final(self)@.sender == old(self)@.sender,
            final(self)@.lifecycle == old(self)@.lifecycle,
            final(self)@.busy == old(self)@.busy,
            final(self)@.same_identity(old(self)@),
    {
        self.children.remove(p)
    }
}

} // verus!
