//! The runtime: every cell, future and reply sink, the ready queue, the worker
//! pool and the name registry, with the routing of messages between them.
use vstd::prelude::*;

use crate::cell::{ActorCell, CellModel, Lifecycle, Outcome, Role, Work};
use crate::future::{
    effect_of, run_first, state_after, Completion, Computation, Effect, FutureCell, FutureModel,
    FutureState,
};
use crate::path::{child_logical, contains_slash, ActorPath, PathError, PathModel};
use crate::reference::{
    ActorRef, ControlMessage, Envelope, InnerMessage, Message, Payload, ResolveRequest,
    SystemMessage, Target,
};
use crate::scheduler::{PoolModel, RunQueue, WorkerPool};
use crate::sink::{Delivery, ReplySink};
use crate::table::{entry_of, removal, RefTable};

verus! {

/// What became of a message sent to a reference.
#[derive(Clone, Copy, Debug, PartialEq, Eq, Structural)]
pub enum Delivered {
    /// Put in a cell's mailbox; the cell was scheduled.
    Queued,
    /// It completed a reply sink.
    Completed,
    /// The reply sink was already completed: dropped.
    AlreadyCompleted,
    /// The cell no longer exists: dropped.
    DeadCell,
    /// Distant actors are not reached from here: dropped.
    Distant,
    /// The runtime was shut down: dropped.
    Halted,
    /// A reply sink takes no control or system message: refused.
    Refused,
    /// The root sentinel was reached, which only a bug does: the runtime shut down.
    Sentinel,
}

/// Why an actor could not be created.
#[derive(Clone, Copy, Debug, PartialEq, Eq, Structural)]
pub enum SpawnError {
    /// The name holds a `/`.
    InvalidName,
    /// The would-be father does not exist (any more).
    NoSuchParent,
    /// The runtime was shut down.
    Halted,
    /// No slot is left for a new cell.
    Full,
}

/// Abstract state of the runtime.
pub struct SystemModel<M, F> {
    pub cells: Seq<Option<CellModel<M, Option<F>>>>,
    pub futures: Seq<Option<FutureModel<Payload<M>, u64>>>,
    pub sinks: Seq<bool>,
    pub registry: Seq<ActorRef>,
    pub ready: Seq<ActorRef>,
    pub pool: PoolModel,
    pub halted: bool,
    pub name: Seq<char>,
    pub cthulhu: ActorRef,
    pub user: ActorRef,
    pub system: ActorRef,
    pub resolver: ActorRef,
}

/// The name and the root references are the same in `pre` and `post`.
pub open spec fn same_roots<M, F>(pre: SystemModel<M, F>, post: SystemModel<M, F>) -> bool {
    &&& post.name == pre.name
    &&& post.cthulhu == pre.cthulhu
    &&& post.user == pre.user
    &&& post.system == pre.system
    &&& post.resolver == pre.resolver
}

pub open spec fn user_root() -> Seq<char> {
    seq!['/', 'u', 's', 'e', 'r']
}

pub open spec fn system_root() -> Seq<char> {
    seq!['/', 's', 'y', 's', 't', 'e', 'm']
}

pub open spec fn resolver_path() -> Seq<char> {
    system_root() + seq!['/', 'n', 'a', 'm', 'e', '_', 'r', 'e', 's', 'o', 'l', 'v', 'e', 'r']
}

/// The live cell of slot `id`, where there is one.
pub open spec fn live<M, F>(m: SystemModel<M, F>, id: u64) -> bool {
    id < m.cells.len() && m.cells[id as int] is Some
}

pub open spec fn cell_of<M, F>(m: SystemModel<M, F>, id: u64) -> CellModel<M, Option<F>> {
    m.cells[id as int]->Some_0
}

/// `post` is `pre` with the cell of slot `id` replaced by `c`.
pub open spec fn with_cell<M, F>(
    pre: SystemModel<M, F>,
    post: SystemModel<M, F>,
    id: u64,
    c: CellModel<M, Option<F>>,
) -> bool {
    &&& post.cells == pre.cells.update(id as int, Some(c))
    &&& post.futures == pre.futures
    &&& post.sinks == pre.sinks
    &&& post.registry == pre.registry
    &&& post.pool == pre.pool
    &&& post.halted == pre.halted
    &&& same_roots(pre, post)
}

/// What `deliver` does with an envelope for `to`.
pub open spec fn delivered<M, F>(
    pre: SystemModel<M, F>,
    post: SystemModel<M, F>,
    to: ActorRef,
    env: Envelope<M>,
    r: Delivered,
) -> bool {
    if pre.halted {
        r == Delivered::Halted && post == pre
    } else {
        match to.target {
            Target::Cell(id) => if live(pre, id) {
                &&& r == Delivered::Queued
                &&& with_cell(
                    pre,
                    post,
                    id,
                    CellModel { mailbox: cell_of(pre, id).mailbox.push(env), ..cell_of(pre, id) },
                )
                &&& post.ready == pre.ready.push(to)
            } else {
                r == Delivered::DeadCell && post == pre
            },
            Target::ReplySink(id) => if id < pre.sinks.len() && env.message is Message {
                &&& r == if pre.sinks[id as int] {
                    Delivered::Completed
                } else {
                    Delivered::AlreadyCompleted
                }
                &&& post == SystemModel { sinks: pre.sinks.update(id as int, false), ..pre }
            } else {
                r == Delivered::Refused && post == pre
            },
            Target::Distant => r == Delivered::Distant && post == pre,
            Target::Cthulhu => {
                &&& r == Delivered::Sentinel
                &&& post.halted
                &&& post.cells.len() == pre.cells.len()
                &&& forall|j: u64| !live(post, j)
                &&& post.futures == pre.futures
                &&& post.sinks == pre.sinks
                &&& post.registry == pre.registry
                &&& same_roots(pre, post)
            },
        }
    }
}

/// What `deliver_system` does with a system message for `to`.
pub open spec fn system_delivered<M, F>(
    pre: SystemModel<M, F>,
    post: SystemModel<M, F>,
    to: ActorRef,
    msg: SystemMessage,
    r: Delivered,
) -> bool {
    if pre.halted {
        r == Delivered::Halted && post == pre
    } else {
        match to.target {
            Target::Cell(id) => if live(pre, id) {
                &&& r == Delivered::Queued
                &&& with_cell(
                    pre,
                    post,
                    id,
                    CellModel { system: cell_of(pre, id).system.push(msg), ..cell_of(pre, id) },
                )
                &&& post.ready == pre.ready.push(to)
            } else {
                r == Delivered::DeadCell && post == pre
            },
            Target::ReplySink(_) => r == Delivered::Refused && post == pre,
            Target::Distant => r == Delivered::Distant && post == pre,
            Target::Cthulhu => {
                &&& r == Delivered::Sentinel
                &&& post.halted
                &&& post.cells.len() == pre.cells.len()
                &&& forall|j: u64| !live(post, j)
                &&& post.futures == pre.futures
                &&& post.sinks == pre.sinks
                &&& post.registry == pre.registry
                &&& same_roots(pre, post)
            },
        }
    }
}

/// The state of a cell just created with `Start` posted to it.
pub open spec fn fresh_cell<M, F>(
    c: CellModel<M, Option<F>>,
    path: PathModel,
    factory: Option<F>,
    father: ActorRef,
    role: Role,
) -> bool {
    &&& c.path@ == path
    &&& c.factory == factory
    &&& c.father == father
    &&& c.role == role
    &&& c.mailbox.len() == 0
    &&& c.system == seq![SystemMessage::Start]
    &&& c.sender is None
    &&& c.children.len() == 0
    &&& c.monitoring.len() == 0
    &&& c.lifecycle == Lifecycle::Unstarted
    &&& !c.busy
}

/// What creating a child named `name` of the cell in slot `parent` does.
pub open spec fn spawned<M, F>(
    pre: SystemModel<M, F>,
    post: SystemModel<M, F>,
    parent: u64,
    factory: Option<F>,
    name: Seq<char>,
    role: Role,
    r: Result<ActorRef, SpawnError>,
) -> bool {
    &&& (pre.halted ==> r == Err::<ActorRef, SpawnError>(SpawnError::Halted))
    &&& (!pre.halted && !live(pre, parent) ==> r == Err::<ActorRef, SpawnError>(
        SpawnError::NoSuchParent,
    ))
    &&& (!pre.halted && live(pre, parent) && contains_slash(name) ==> r == Err::<
        ActorRef,
        SpawnError,
    >(SpawnError::InvalidName))
    &&& (!pre.halted && live(pre, parent) && !contains_slash(name) && pre.cells.len() + 2
        < u64::MAX ==> r is Ok)
    &&& (r is Err ==> post == pre)
    &&& (r matches Ok(c) ==> ({
        let n = pre.cells.len();
        let pc = cell_of(pre, parent);
        let father = ActorRef { path: pc.path, target: Target::Cell(parent) };
        &&& live(pre, parent)
        &&& c.target == Target::Cell(n as u64)
        &&& c.path@ == (PathModel::Local { logical: child_logical(pc.path@.logical(), name) })
        &&& live(post, n as u64)
        &&& fresh_cell(cell_of(post, n as u64), c.path@, factory, father, role)
        &&& live(post, parent)
        &&& entry_of(cell_of(post, parent).children, c.path@) == Some(c)
        &&& entry_of(cell_of(post, parent).monitoring, c.path@) == Some(c)
        &&& post.cells.len() == n + 1
        &&& forall|j: u64| j < n ==> live(post, j) == live(pre, j)
        &&& forall|j: u64|
            j < n && live(pre, j) ==> cell_of(post, j).same_identity(cell_of(pre, j))
        &&& post.pool == pre.pool
        &&& post.halted == pre.halted
        &&& post.sinks == pre.sinks
        &&& post.registry == pre.registry
        &&& same_roots(pre, post)
        &&& post.futures.len() == n + 1
        &&& cell_of(post, parent) == (CellModel {
            children: cell_of(post, parent).children,
            monitoring: cell_of(post, parent).monitoring,
            mailbox: cell_of(post, parent).mailbox,
            ..pc
        })
        &&& if registers(pre, c) {
            let k = pre.resolver.target->Cell_0;
            let add = Envelope {
                message: InnerMessage::Message(Payload::Resolve(ResolveRequest::Add(c))),
                sender: father,
            };
            &&& cell_of(post, k).mailbox == cell_of(pre, k).mailbox.push(add)
            &&& k != parent ==> cell_of(post, k) == (CellModel { mailbox: cell_of(pre, k).mailbox.push(add), ..cell_of(pre, k) })
            &&& post.ready == pre.ready.push(c).push(pre.resolver)
            &&& forall|j: u64| j < n && j != parent && j != k ==> post.cells[j as int] == pre.cells[j as int]
        } else {
            &&& cell_of(post, parent).mailbox == pc.mailbox
            &&& post.ready == pre.ready.push(c)
            &&& forall|j: u64| j < n && j != parent ==> post.cells[j as int] == pre.cells[j as int]
        }
    }))
}

/// What the name resolver's table becomes on a request.
pub open spec fn resolves<M>(pre: Seq<ActorRef>, post: Seq<ActorRef>, p: Payload<M>) -> bool {
    match p {
        Payload::Resolve(ResolveRequest::Add(a)) => {
            &&& entry_of(post, a.path@) == Some(a)
            &&& forall|q: PathModel| q != a.path@ ==> entry_of(post, q) == entry_of(pre, q)
        },
        Payload::Resolve(ResolveRequest::Remove(x)) => {
            &&& entry_of(post, x@) is None
            &&& forall|q: PathModel| q != x@ ==> entry_of(post, q) == entry_of(pre, q)
        },
        _ => post == pre,
    }
}

/// The reference that the name resolver answers for a local logical path.
pub open spec fn identified(registry: Seq<ActorRef>, logical: Seq<char>) -> Option<ActorRef> {
    entry_of(registry, PathModel::Local { logical })
}

/// Two messages told to the same cell one after the other stand in its mailbox in
/// that order, behind what was there before.
pub proof fn lemma_fifo_per_producer<M, F>(
    r0: SystemModel<M, F>,
    r1: SystemModel<M, F>,
    r2: SystemModel<M, F>,
    to: ActorRef,
    e1: Envelope<M>,
    e2: Envelope<M>,
)
    requires
        delivered(r0, r1, to, e1, Delivered::Queued),
        delivered(r1, r2, to, e2, Delivered::Queued),
    ensures
        match to.target {
            Target::Cell(id) => {
                let mb = cell_of(r2, id).mailbox;
                let n = cell_of(r0, id).mailbox.len();
                &&& mb == cell_of(r0, id).mailbox.push(e1).push(e2)
                &&& mb[n as int] == e1
                &&& mb[n as int + 1] == e2
            },
            _ => false,
        },
{
}

/// Once the name resolver has handled the `Add` of a local reference, looking up its
/// logical path gives that reference; once it has then handled the `Remove` of that
/// path, the lookup gives none.
pub proof fn lemma_registry_consistency<M>(
    t0: Seq<ActorRef>,
    t1: Seq<ActorRef>,
    t2: Seq<ActorRef>,
    c: ActorRef,
)
    requires
        c.path@ is Local,
        resolves::<M>(t0, t1, Payload::Resolve(ResolveRequest::Add(c))),
        resolves::<M>(t1, t2, Payload::Resolve(ResolveRequest::Remove(c.path))),
    ensures
        identified(t1, c.path@.logical()) == Some(c),
        identified(t2, c.path@.logical()) is None,
{
}

/// `post` follows `pre` by an `ask` from `from` to `to`: the future `f` was made a
/// child of `from` named `name`, then `payload` was sent to `to` with `f` as sender.
pub open spec fn asked<M, F>(
    pre: SystemModel<M, F>,
    post: SystemModel<M, F>,
    from: ActorRef,
    to: ActorRef,
    payload: Payload<M>,
    name: Seq<char>,
    f: ActorRef,
) -> bool {
    match from.target {
        Target::Cell(id) => exists|mid: SystemModel<M, F>, d: Delivered|
            spawned(pre, mid, id, None, name, Role::Future, Ok(f)) && #[trigger] delivered(
                mid,
                post,
                to,
                Envelope { message: InnerMessage::Message(payload), sender: f },
                d,
            ),
        _ => false,
    }
}

/// `m` with one more reply sink, still pending.
pub open spec fn with_new_sink<M, F>(m: SystemModel<M, F>) -> SystemModel<M, F> {
    SystemModel { sinks: m.sinks.push(true), ..m }
}

/// `m` with the cell of slot `id` set to `c`.
pub open spec fn put<M, F>(m: SystemModel<M, F>, id: u64, c: CellModel<M, Option<F>>) -> SystemModel<
    M,
    F,
> {
    SystemModel { cells: m.cells.update(id as int, Some(c)), ..m }
}

/// `m` with the future of slot `id` set to `f`.
pub open spec fn put_future<M, F>(
    m: SystemModel<M, F>,
    id: u64,
    f: FutureModel<Payload<M>, u64>,
) -> SystemModel<M, F> {
    SystemModel { futures: m.futures.update(id as int, Some(f)), ..m }
}

/// `m` with `r` scheduled again.
pub open spec fn requeued<M, F>(m: SystemModel<M, F>, r: ActorRef) -> SystemModel<M, F> {
    SystemModel { ready: m.ready.push(r), ..m }
}

/// The reference of the cell `c` of slot `id`.
pub open spec fn me_of<M, F>(c: CellModel<M, F>, id: u64) -> ActorRef {
    ActorRef { path: c.path, target: Target::Cell(id) }
}

/// The cell once its first system message is handled, its lifecycle unchanged.
pub open spec fn past_system<M, F>(c: CellModel<M, F>) -> CellModel<M, F> {
    CellModel { system: c.system.drop_first(), busy: false, sender: None, ..c }
}

/// The cell once its first envelope is handled, its lifecycle unchanged.
pub open spec fn past_envelope<M, F>(c: CellModel<M, F>) -> CellModel<M, F> {
    CellModel { mailbox: c.mailbox.drop_first(), busy: false, sender: None, ..c }
}

/// The cell while a behavior of the application handles its first envelope.
pub open spec fn delivering<M, F>(c: CellModel<M, F>) -> CellModel<M, F> {
    CellModel {
        mailbox: c.mailbox.drop_first(),
        sender: Some(c.mailbox[0].sender),
        busy: true,
        ..c
    }
}

/// The cell whose step has ended.
pub open spec fn at_rest<M, F>(c: CellModel<M, F>) -> CellModel<M, F> {
    CellModel { busy: false, sender: None, ..c }
}

/// A child's request to its father to be removed.
pub open spec fn kill_me_env<M>(me: ActorRef) -> Envelope<M> {
    Envelope { message: InnerMessage::Control(ControlMessage::KillMe(me)), sender: me }
}

/// A message may be handed to `deliver`: the root sentinel takes none, a reply sink
/// takes no control message, and a root (whose father is the sentinel) takes no
/// `PoisonPill`.
pub open spec fn deliverable<M, F>(m: SystemModel<M, F>, to: ActorRef, msg: InnerMessage<M>) -> bool {
    &&& !(to.target is Cthulhu)
    &&& !(to.target is ReplySink && msg is Control)
    &&& (to.target is Cell && live(m, to.target->Cell_0) && msg == InnerMessage::<M>::Control(
        ControlMessage::PoisonPill,
    )) ==> !(cell_of(m, to.target->Cell_0).father.target is Cthulhu)
}

/// Whether `list` holds a reference to the cell of slot `j`.
pub open spec fn listed(list: Seq<ActorRef>, j: u64) -> bool {
    exists|i: int| 0 <= i < list.len() && (#[trigger] list[i]).target == Target::Cell(j)
}

/// The slot of the name resolver, where it is a cell.
pub open spec fn resolver_slot<M, F>(m: SystemModel<M, F>) -> u64 {
    match m.resolver.target {
        Target::Cell(k) => k,
        _ => u64::MAX,
    }
}

/// `x` and its descendants were destroyed, from `pre` to `post`, sparing the cells of
/// slots `a` and `b`; `list` holds the references of the destroyed cells, `x` first.
/// Every other cell is left as it was.
pub open spec fn destroyed<M, F>(
    pre: SystemModel<M, F>,
    post: SystemModel<M, F>,
    x: ActorRef,
    list: Seq<ActorRef>,
    a: u64,
    b: u64,
) -> bool {
    &&& post == SystemModel { cells: post.cells, ..pre }
    &&& post.cells.len() == pre.cells.len()
    &&& forall|j: u64| #[trigger] live(post, j) ==> live(pre, j) && cell_of(post, j) == cell_of(pre, j)
    &&& forall|j: u64| live(pre, j) && !live(post, j) ==> #[trigger] listed(list, j)
    &&& !listed(list, a) && !listed(list, b)
    &&& (x.target is Cell && live(pre, x.target->Cell_0) && x.target->Cell_0 != a
        && x.target->Cell_0 != b) ==> list.len() > 0 && list[0] == x
    &&& (x.target is Cell && x.target->Cell_0 != a && x.target->Cell_0 != b) ==> !live(
        post,
        x.target->Cell_0,
    )
    &&& forall|i: int|
        0 <= i < list.len() ==> (#[trigger] list[i]).target is Cell && live(pre, list[i].target->Cell_0)
            && !live(post, list[i].target->Cell_0)
    &&& forall|i: int, y: ActorRef|
        0 <= i < list.len() && #[trigger] cell_of(pre, list[i].target->Cell_0).children.contains(y)
            && y.target is Cell && live(pre, y.target->Cell_0) ==> listed(list, y.target->Cell_0)
            || y.target->Cell_0 == a || y.target->Cell_0 == b
}

/// From `b`, the value `v` goes to `to`, then the future `me` asks `father` to remove it.
pub open spec fn forwarded<M, F>(
    b: SystemModel<M, F>,
    post: SystemModel<M, F>,
    me: ActorRef,
    father: ActorRef,
    to: ActorRef,
    v: Payload<M>,
) -> bool {
    exists|mid: SystemModel<M, F>, r1: Delivered, r2: Delivered|
        #![trigger delivered(b, mid, to, Envelope { message: InnerMessage::Message(v), sender: me }, r1), delivered(mid, post, father, kill_me_env(me), r2)]
        delivered(b, mid, to, Envelope { message: InnerMessage::Message(v), sender: me }, r1)
            && delivered(mid, post, father, kill_me_env(me), r2)
}

/// What the future cell of slot `id` does with effect `e`, from `b`: `busy` is the cell
/// while a computation of the application runs, `done` the cell once its step ends.
pub open spec fn future_effect<M, F>(
    b: SystemModel<M, F>,
    post: SystemModel<M, F>,
    id: u64,
    busy: CellModel<M, Option<F>>,
    done: CellModel<M, Option<F>>,
    e: Option<Effect<Payload<M>, u64>>,
    dropped: bool,
    d: Dispatch<M>,
) -> bool {
    let me = me_of(done, id);
    match e {
        None => (if dropped {
            d == Dispatch::<M>::Dropped { cell: me }
        } else {
            d is Handled
        }) && post == put(b, id, done),
        Some(Effect::Apply(k, v)) => d == (Dispatch::Compute { cell: me, token: k, value: v })
            && post == put(b, id, busy),
        Some(Effect::Tell(to, v)) => d is Handled && forwarded(put(b, id, done), post, me, done.father, to, v),
        Some(Effect::Complete(to, v)) => d is Handled && forwarded(
            put(b, id, done),
            post,
            me,
            done.father,
            to,
            v,
        ),
    }
}

/// What a future does with an ordinary payload: a computation runs at once on a held
/// value, waits while there is none or while it is lent, and is dropped once the value
/// was forwarded; any other payload becomes the value of a future that has none, and
/// the first waiting computation then runs.
pub open spec fn future_on<M>(f: FutureModel<Payload<M>, u64>, p: Payload<M>) -> (
    FutureModel<Payload<M>, u64>,
    Option<Effect<Payload<M>, u64>>,
) {
    match p {
        Payload::Compute(comp) => match f.state {
            FutureState::Computing(v) => (
                FutureModel { state: state_after::<Payload<M>, u64>(comp), ..f },
                Some(effect_of(comp, v)),
            ),
            FutureState::Extracted => (f, None),
            _ => (FutureModel { scheduled: f.scheduled.push(comp), ..f }, None),
        },
        _ => if f.state is Uncompleted {
            run_first(FutureModel { state: FutureState::Computing(p), ..f })
        } else {
            (f, None)
        },
    }
}

/// A future answered twice keeps the first answer: the second is dropped and leaves the
/// future and its waiting computations as they were.
pub proof fn lemma_future_keeps_first_answer<M>(
    f: FutureModel<Payload<M>, u64>,
    v1: Payload<M>,
    v2: Payload<M>,
)
    requires
        f.state is Uncompleted,
        !(v1 is Compute),
        !(v2 is Compute),
    ensures
        future_on(future_on(f, v1).0, v2) == (future_on(f, v1).0, None::<Effect<Payload<M>, u64>>),
        f.scheduled.len() == 0 ==> future_on(f, v1).0.state == FutureState::<Payload<M>>::Computing(v1),
{
}

/// What the name resolver does with payload `p` from `s`, once its step ended in `mid`.
pub open spec fn resolver_step<M, F>(
    mid: SystemModel<M, F>,
    post: SystemModel<M, F>,
    me: ActorRef,
    s: ActorRef,
    p: Payload<M>,
) -> bool {
    match p {
        Payload::Resolve(ResolveRequest::Get(l)) => exists|r2: Delivered|
            #[trigger] delivered(
                mid,
                post,
                s,
                Envelope {
                    message: InnerMessage::Message(Payload::Identity(identified(mid.registry, l@))),
                    sender: me,
                },
                r2,
            ),
        Payload::Resolve(_) => post == SystemModel { registry: post.registry, ..mid } && resolves(
            mid.registry,
            post.registry,
            p,
        ),
        _ => post == mid,
    }
}

/// What a `KillMe(ch)` does once the step of the cell of slot `id` ended in `mid`: an
/// owned child leaves the children table and is destroyed with its descendants, and
/// the name resolver is told to forget it; an unknown child changes nothing.
pub open spec fn killed<M, F>(
    mid: SystemModel<M, F>,
    post: SystemModel<M, F>,
    id: u64,
    me: ActorRef,
    ch: ActorRef,
    d: Dispatch<M>,
) -> bool {
    let c = cell_of(mid, id);
    match entry_of(c.children, ch.path@) {
        None => d is Handled && post == mid,
        Some(x) => d is Removed && exists|kids: Seq<ActorRef>, mid2: SystemModel<M, F>, r2: Delivered|
            #![trigger removal(c.children, kids, ch.path@, Some(x)), delivered(mid2, post, mid.resolver, Envelope { message: InnerMessage::Message(Payload::Resolve(ResolveRequest::Remove(x.path))), sender: me }, r2)]
            removal(c.children, kids, ch.path@, Some(x)) && destroyed(
                put(mid, id, CellModel { children: kids, ..c }),
                mid2,
                x,
                d->cells@,
                id,
                resolver_slot(mid),
            ) && delivered(
                mid2,
                post,
                mid.resolver,
                Envelope {
                    message: InnerMessage::Message(Payload::Resolve(ResolveRequest::Remove(x.path))),
                    sender: me,
                },
                r2,
            ),
    }
}

/// Once the name resolver has handled the `Add` of a local reference `c` (sent when `c`
/// was spawned), a later `Get` of its logical path is answered with `c`, as long as the
/// table has not changed in between; once it has handled the `Remove` of that path, the
/// answer is none.
pub proof fn lemma_identify_after_spawn_and_stop<M, F>(
    m0: SystemModel<M, F>,
    m1: SystemModel<M, F>,
    m2: SystemModel<M, F>,
    m3: SystemModel<M, F>,
    m4: SystemModel<M, F>,
    m5: SystemModel<M, F>,
    me: ActorRef,
    s: ActorRef,
    c: ActorRef,
    l: String,
)
    requires
        c.path@ is Local,
        l@ == c.path@.logical(),
        resolver_step(m0, m1, me, s, Payload::<M>::Resolve(ResolveRequest::Add(c))),
        m2.registry == m1.registry,
        resolver_step(m2, m3, me, s, Payload::<M>::Resolve(ResolveRequest::Get(l))),
        m4.registry == m3.registry,
        resolver_step(m4, m5, me, s, Payload::<M>::Resolve(ResolveRequest::Remove(c.path))),
    ensures
        exists|r2: Delivered|
            #[trigger] delivered(
                m2,
                m3,
                s,
                Envelope { message: InnerMessage::Message(Payload::Identity(Some(c))), sender: me },
                r2,
            ),
        identified(m5.registry, l@) is None,
{
    assert(identified(m1.registry, l@) == Some(c));
}

/// A father that handles `KillMe(ch)` for a child it owns stays alive without that
/// child, the child is destroyed, and the name resolver's mailbox gains
/// `Remove(ch.path)`.
pub proof fn lemma_kill_removes<M, F>(
    mid: SystemModel<M, F>,
    post: SystemModel<M, F>,
    id: u64,
    me: ActorRef,
    ch: ActorRef,
    d: Dispatch<M>,
)
    requires
        live(mid, id),
        !mid.halted,
        mid.resolver.target is Cell,
        live(mid, resolver_slot(mid)),
        killed(mid, post, id, me, ch, d),
        entry_of(cell_of(mid, id).children, ch.path@) is Some,
    ensures
        d is Removed,
        live(post, id),
        entry_of(cell_of(post, id).children, ch.path@) is None,
        live(post, resolver_slot(mid)),
        ({
            let x = entry_of(cell_of(mid, id).children, ch.path@)->Some_0;
            &&& x.target is Cell && x.target->Cell_0 != id && x.target->Cell_0 != resolver_slot(mid)
                ==> !live(post, x.target->Cell_0)
            &&& cell_of(post, resolver_slot(mid)).mailbox.len() > 0
            &&& cell_of(post, resolver_slot(mid)).mailbox.last() == Envelope::<M> {
                message: InnerMessage::Message(Payload::Resolve(ResolveRequest::Remove(x.path))),
                sender: me,
            }
        }),
{
    let c = cell_of(mid, id);
    let x = entry_of(c.children, ch.path@)->Some_0;
    let (kids, m2, r2) = choose|kids: Seq<ActorRef>, m2: SystemModel<M, F>, r2: Delivered|
        removal(c.children, kids, ch.path@, Some(x)) && destroyed(
            put(mid, id, CellModel { children: kids, ..c }),
            m2,
            x,
            d->cells@,
            id,
            resolver_slot(mid),
        ) && delivered(
            m2,
            post,
            mid.resolver,
            Envelope {
                message: InnerMessage::Message(Payload::Resolve(ResolveRequest::Remove(x.path))),
                sender: me,
            },
            r2,
        );
    let base = put(mid, id, CellModel { children: kids, ..c });
    let k = resolver_slot(mid);
    assert(live(base, id));
    assert(live(base, k));
    assert(!listed(d->cells@, id));
    assert(live(m2, id));
    assert(live(m2, k));
}

/// Once a father has handled `KillMe(ch)`, it still lives and owns no child at that
/// path; so a second `KillMe(ch)` finds nothing and changes nothing: a child stopped
/// twice is terminated once.
pub proof fn lemma_stop_twice<M, F>(
    mid: SystemModel<M, F>,
    post: SystemModel<M, F>,
    mid2: SystemModel<M, F>,
    post2: SystemModel<M, F>,
    id: u64,
    me: ActorRef,
    ch: ActorRef,
    d: Dispatch<M>,
    d2: Dispatch<M>,
)
    requires
        live(mid, id),
        !mid.halted,
        mid.resolver.target is Cell,
        killed(mid, post, id, me, ch, d),
        live(mid2, id),
        cell_of(mid2, id).children == cell_of(post, id).children,
        killed(mid2, post2, id, me, ch, d2),
    ensures
        live(post, id),
        entry_of(cell_of(post, id).children, ch.path@) is None,
        d2 is Handled,
        post2 == mid2,
{
    let c = cell_of(mid, id);
    if let Some(x) = entry_of(c.children, ch.path@) {
        let (kids, m2, r2) = choose|kids: Seq<ActorRef>, m2: SystemModel<M, F>, r2: Delivered|
            removal(c.children, kids, ch.path@, Some(x)) && destroyed(
                put(mid, id, CellModel { children: kids, ..c }),
                m2,
                x,
                d->cells@,
                id,
                resolver_slot(mid),
            ) && delivered(
                m2,
                post,
                mid.resolver,
                Envelope {
                    message: InnerMessage::Message(Payload::Resolve(ResolveRequest::Remove(x.path))),
                    sender: me,
                },
                r2,
            );
        let base = put(mid, id, CellModel { children: kids, ..c });
        assert(live(base, id));
        assert(cell_of(base, id).children == kids);
        assert(live(m2, id));
        assert(cell_of(m2, id).children == kids);
    }
}

/// A step of the cell `c` of slot `id` whose first system message is taken.
pub open spec fn system_step<M, F>(
    pre: SystemModel<M, F>,
    post: SystemModel<M, F>,
    r: ActorRef,
    id: u64,
    c: CellModel<M, Option<F>>,
    d: Dispatch<M>,
) -> bool {
    let taken = CellModel { system: c.system.drop_first(), busy: true, ..c };
    let started = CellModel { lifecycle: Lifecycle::Running, ..past_system(c) };
    match c.system[0] {
        SystemMessage::Start => if c.role == Role::User {
            d == Dispatch::<M>::Start { cell: r } && post == put(pre, id, taken)
        } else {
            d is Handled && post == put(pre, id, started)
        },
        SystemMessage::Restart => if c.role == Role::User {
            d == Dispatch::<M>::Restart { cell: r } && post == put(pre, id, taken)
        } else {
            d is Handled && post == put(pre, id, started)
        },
        SystemMessage::Failure(ch) => d is Handled && match entry_of(c.monitoring, ch.path@) {
            Some(w) => exists|r2: Delivered|
                #[trigger] system_delivered(put(pre, id, past_system(c)), post, w, SystemMessage::Restart, r2),
            None => post == put(pre, id, past_system(c)),
        },
    }
}

/// A step of the running cell `c` of slot `id` that takes its first envelope.
pub open spec fn envelope_step<M, F>(
    pre: SystemModel<M, F>,
    post: SystemModel<M, F>,
    r: ActorRef,
    id: u64,
    c: CellModel<M, Option<F>>,
    d: Dispatch<M>,
) -> bool {
    let e = c.mailbox[0];
    let me = me_of(c, id);
    let mid = put(pre, id, past_envelope(c));
    match e.message {
        InnerMessage::Control(ControlMessage::PoisonPill) => d is Handled && exists|r2: Delivered|
            #[trigger] delivered(mid, post, c.father, kill_me_env(me), r2),
        InnerMessage::Control(ControlMessage::Terminated(who)) => if c.role == Role::User {
            d == Dispatch::<M>::Terminated { cell: r, who } && post == put(pre, id, delivering(c))
        } else {
            d is Handled && post == mid
        },
        InnerMessage::Control(ControlMessage::KillMe(ch)) => killed(mid, post, id, me, ch, d),
        InnerMessage::Message(p) => match c.role {
            Role::User => d == Dispatch::Receive { cell: r, payload: p, sender: e.sender } && post
                == put(pre, id, delivering(c)),
            Role::Root => d is Handled && post == mid,
            Role::NameResolver => d is Handled && resolver_step(mid, post, me, e.sender, p),
            Role::Future => match pre.futures[id as int] {
                None => d is Handled && post == mid,
                Some(f) => future_effect(
                    put_future(pre, id, future_on(f, p).0),
                    post,
                    id,
                    delivering(c),
                    past_envelope(c),
                    future_on(f, p).1,
                    !(p is Compute) && !(f.state is Uncompleted),
                    d,
                ),
            },
        },
    }
}

/// One step of what `r` refers to, from `pre` to `post`, with result `d`.
pub open spec fn handle_spec<M, F>(
    pre: SystemModel<M, F>,
    post: SystemModel<M, F>,
    r: ActorRef,
    d: Dispatch<M>,
) -> bool {
    match r.target {
        Target::Cell(id) => if !live(pre, id) {
            d is Handled && post == pre
        } else {
            let c = cell_of(pre, id);
            if c.busy {
                d is Handled && post == requeued(pre, r)
            } else if c.system.len() > 0 {
                system_step(pre, post, r, id, c, d)
            } else if c.lifecycle != Lifecycle::Running {
                d is Handled && post == requeued(pre, r)
            } else if c.mailbox.len() == 0 {
                d is Handled && post == pre
            } else {
                envelope_step(pre, post, r, id, c, d)
            }
        },
        _ => d is Handled && post == pre,
    }
}

/// What handing back `value` for the lent value of a future does.
pub open spec fn computed_spec<M, F>(
    pre: SystemModel<M, F>,
    post: SystemModel<M, F>,
    cell: ActorRef,
    value: Payload<M>,
    d: Dispatch<M>,
) -> bool {
    match cell.target {
        Target::Cell(id) => if live(pre, id) && id < pre.futures.len() && pre.futures[id as int] is Some
            && pre.futures[id as int]->Some_0.state is Applying {
            let c = cell_of(pre, id);
            let f = pre.futures[id as int]->Some_0;
            let next = run_first(FutureModel { state: FutureState::Computing(value), ..f });
            future_effect(put_future(pre, id, next.0), post, id, c, at_rest(c), next.1, false, d)
        } else {
            d is Handled && post == pre
        },
        _ => d is Handled && post == pre,
    }
}

/// Counts the live slots.
pub open spec fn count_live<C>(s: Seq<Option<C>>) -> nat
    decreases s.len(),
{
    if s.len() == 0 {
        0
    } else {
        count_live(s.drop_last()) + if s.last() is Some {
            1nat
        } else {
            0nat
        }
    }
}

proof fn lemma_count_drop<C>(s: Seq<Option<C>>, i: int)
    requires
        0 <= i < s.len(),
        s[i] is Some,
    ensures
        count_live(s.update(i, None)) + 1 == count_live(s),
    decreases s.len(),
{
    let t = s.update(i, None);
    if i == s.len() - 1 {
        assert(t.drop_last() =~= s.drop_last());
    } else {
        assert(t.drop_last() =~= s.drop_last().update(i, None));
        lemma_count_drop(s.drop_last(), i);
    }
}

proof fn lemma_put_over_none<M, F>(pre: SystemModel<M, F>, id: u64, c: CellModel<M, Option<F>>)
    requires
        id < pre.cells.len(),
    ensures
        put(SystemModel { cells: pre.cells.update(id as int, None), ..pre }, id, c) == put(pre, id, c),
{
    assert(pre.cells.update(id as int, None).update(id as int, Some(c)) =~= pre.cells.update(
        id as int,
        Some(c),
    ));
}

/// What a worker must do after a step of the runtime.
pub enum Dispatch<M> {
    /// The ready queue was empty.
    Empty,
    /// The step was carried out inside the runtime: nothing is left to run.
    Handled,
    /// Run the behavior's start hook, then call `finish`.
    Start { cell: ActorRef },
    /// Run the old behavior's pre-restart hook, make a fresh one with the cell's
    /// factory, run its post-restart hook, then call `finish`.
    Restart { cell: ActorRef },
    /// Run the behavior's `receive` on the payload, then call `finish`.
    Receive { cell: ActorRef, payload: Payload<M>, sender: ActorRef },
    /// Run the behavior's termination hook, then call `finish`.
    Terminated { cell: ActorRef, who: ActorRef },
    /// Run the computation `token` on the value and hand the result to `computed`.
    Compute { cell: ActorRef, token: u64, value: Payload<M> },
    /// These cells were destroyed: run their stop hooks and drop their behaviors.
    Removed { cells: Vec<ActorRef> },
    /// A value reached the future `cell`, which already had one: it was dropped.
    Dropped { cell: ActorRef },
}

/// Whether creating `c` registers it with the name resolver: the resolver is an
/// existing live cell and `c` is not the resolver itself.
pub open spec fn registers<M, F>(pre: SystemModel<M, F>, c: ActorRef) -> bool {
    &&& pre.resolver.target is Cell
    &&& pre.resolver.target->Cell_0 < pre.cells.len()
    &&& live(pre, pre.resolver.target->Cell_0)
    &&& c.path@ != pre.resolver.path@
}

/// The actor runtime.
#[verifier::reject_recursive_types(M)]
pub struct ActorSystem<M: Message, F> {
    name: String,
    cells: Vec<Option<ActorCell<M, Option<F>>>>,
    futures: Vec<Option<FutureCell<Payload<M>, u64>>>,
    sinks: Vec<ReplySink<Payload<M>>>,
    registry: RefTable,
    ready: RunQueue,
    pool: WorkerPool,
    halted: bool,
    cthulhu: ActorRef,
    user: ActorRef,
    system: ActorRef,
    resolver: ActorRef,
}

impl<M: Message, F> View for ActorSystem<M, F> {
    type V = SystemModel<M, F>;

    closed spec fn view(&self) -> SystemModel<M, F> {
        SystemModel {
            cells: self.cells@.map_values(|c: Option<ActorCell<M, Option<F>>>| match c {
                Some(c) => Some(c@),
                None => None,
            }),
            futures: self.futures@.map_values(|f: Option<FutureCell<Payload<M>, u64>>| match f {
                Some(f) => Some(f@),
                None => None,
            }),
            sinks: self.sinks@.map_values(|s: ReplySink<Payload<M>>| s.is_pending()),
            registry: self.registry@,
            ready: self.ready@,
            pool: self.pool@,
            halted: self.halted,
            name: self.name@,
            cthulhu: self.cthulhu,
            user: self.user,
            system: self.system,
            resolver: self.resolver,
        }
    }
}

impl<M: Message, F> ActorSystem<M, F> {
    /// The runtime's own invariant.
    pub closed spec fn wf(&self) -> bool {
        &&& self.cells@.len() == self.futures@.len()
        &&& self.cells@.len() < u64::MAX
        &&& self.sinks@.len() < u64::MAX
        &&& self.registry.wf()
        &&& self.halted == self.pool@.shut_down
        &&& self.halted ==> forall|i: int| 0 <= i < self.cells@.len() ==> (#[trigger] self.cells@[i]) is None
        &&& forall|i: int|
            0 <= i < self.cells@.len() && (#[trigger] self.cells@[i]) is Some
                ==> self.cells@[i]->Some_0@.path@ is Local
        &&& forall|i: int|
            0 <= i < self.cells@.len() && (#[trigger] self.cells@[i]) is Some
                ==> self.cells@[i]->Some_0@.wf()
    }

    /// The cell of slot `id` leaves its slot, to be put back with `put_cell`.
    fn take_cell(&mut self, id: u64) -> (r: Option<ActorCell<M, Option<F>>>)
        requires
            old(self).wf(),
        ensures
            final(self).cells@.len() == old(self).cells@.len(),
            live(old(self)@, id) ==> (r matches Some(c) && c@ == cell_of(old(self)@, id)
                && final(self).cells@ == old(self).cells@.update(id as int, None)
                && final(self)@ == SystemModel {
                cells: old(self)@.cells.update(id as int, None),
                ..old(self)@
            }),
            !live(old(self)@, id) ==> r is None && *final(self) == *old(self),
            final(self).futures == old(self).futures,
            final(self).sinks == old(self).sinks,
            final(self).registry == old(self).registry,
            final(self).ready == old(self).ready,
            final(self).pool == old(self).pool,
            final(self).halted == old(self).halted,
            final(self).user == old(self).user,
            final(self).system == old(self).system,
            final(self).resolver == old(self).resolver,
            final(self).cthulhu == old(self).cthulhu,
    {
        if id < self.cells.len() as u64 && self.cells[id as usize].is_some() {
            let mut slot: Option<ActorCell<M, Option<F>>> = None;
            core::mem::swap(&mut self.cells[id as usize], &mut slot);
            assert(self@.cells =~= old(self)@.cells.update(id as int, None));
            slot
        } else {
            None
        }
    }

    /// Puts a cell back in slot `id`.
    fn put_cell(&mut self, id: u64, c: ActorCell<M, Option<F>>)
        requires
            old(self).wf(),
            id < old(self)@.cells.len(),
            c@.wf(),
            c@.path@ is Local,
            !old(self)@.halted,
        ensures
            final(self).wf(),
            final(self)@ == (SystemModel {
                cells: old(self)@.cells.update(id as int, Some(c@)),
                ..old(self)@
            }),
            final(self).cells@.len() == old(self).cells@.len(),
            final(self).futures == old(self).futures,
            final(self).sinks == old(self).sinks,
            final(self).registry == old(self).registry,
            final(self).ready == old(self).ready,
            final(self).pool == old(self).pool,
            final(self).halted == old(self).halted,
            final(self).user == old(self).user,
            final(self).system == old(self).system,
            final(self).resolver == old(self).resolver,
            final(self).cthulhu == old(self).cthulhu,
    {
        let ghost c_view = c@;
        // Reading the length bounds the slot index by `usize::MAX`.
        let _n = self.cells.len();
        let slot = Some(c);
        let ghost kept = slot;
        self.cells.set(id as usize, slot);
        assert(self.cells@ =~= old(self).cells@.update(id as int, kept));
        assert(self@.cells =~= old(self)@.cells.update(id as int, Some(c_view)));
    }

    /// Puts an envelope in the mailbox of what `to` refers to and schedules it; a
    /// reply sink is completed at once. A dead, distant or halted target drops it.
    pub fn deliver(&mut self, to: &ActorRef, env: Envelope<M>) -> (r: Delivered)
        requires
            old(self).wf(),
            deliverable(old(self)@, *to, env.message),
        ensures
            final(self).wf(),
            delivered(old(self)@, final(self)@, *to, env, r),
    {
        self.route(to, env)
    }

    /// Routes an envelope: as `deliver`, and a message reaching the root sentinel, which
    /// only a bug sends, shuts the runtime down.
    fn route(&mut self, to: &ActorRef, env: Envelope<M>) -> (r: Delivered)
        requires
            old(self).wf(),
        ensures
            final(self).wf(),
            delivered(old(self)@, final(self)@, *to, env, r),
    {
        if self.halted {
            return Delivered::Halted;
        }
        match to.target {
            Target::Cell(id) => {
                match self.take_cell(id) {
                    Some(mut c) => {
                        c.receive_message(env.message, env.sender);
                        self.put_cell(id, c);
                        assert(self@.cells =~= old(self)@.cells.update(id as int, Some(c@)));
                        self.ready.enqueue(to.clone());
                        Delivered::Queued
                    },
                    None => Delivered::DeadCell,
                }
            },
            Target::ReplySink(id) => {
                if id < self.sinks.len() as u64 {
                    match env.message {
                        InnerMessage::Message(p) => {
                            let mut sink = self.sinks.remove(id as usize);
                            let d = sink.offer(p);
                            self.sinks.insert(id as usize, sink);
                            assert(self@.sinks =~= old(self)@.sinks.update(id as int, false));
                            if d == Delivery::Completed {
                                Delivered::Completed
                            } else {
                                Delivered::AlreadyCompleted
                            }
                        },
                        InnerMessage::Control(_) => Delivered::Refused,
                    }
                } else {
                    Delivered::Refused
                }
            },
            Target::Distant => Delivered::Distant,
            Target::Cthulhu => {
                self.shutdown();
                Delivered::Sentinel
            },
        }
    }

    /// Shuts the runtime down; returns how many workers to signal. Cells are dropped
    /// and the ready queue is emptied. A second call changes nothing.
    pub fn shutdown(&mut self) -> (r: u32)
        requires
            old(self).wf(),
        ensures
            final(self).wf(),
            final(self)@.halted,
            final(self)@.pool == crate::scheduler::after_shutdown(old(self)@.pool).0,
            r == crate::scheduler::after_shutdown(old(self)@.pool).1,
            old(self)@.halted ==> final(self)@ == old(self)@ && r == 0,
            !old(self)@.halted ==> r == old(self)@.pool.live && final(self)@.ready.len() == 0
                && final(self)@.pool.live == 0,
            old(self)@.halted ==> final(self)@.cells == old(self)@.cells,
            final(self)@.cells.len() == old(self)@.cells.len(),
            forall|j: u64| !live(final(self)@, j),
            final(self)@.futures == old(self)@.futures,
            final(self)@.sinks == old(self)@.sinks,
            final(self)@.registry == old(self)@.registry,
            same_roots(old(self)@, final(self)@),
    {
        if self.halted {
            return 0;
        }
        let n = self.cells.len();
        let mut i: usize = 0;
        while i < n
            invariant
                self.wf(),
                self.cells@.len() == n,
                i <= n,
                !self.halted,
                self@.ready == old(self)@.ready,
                self@.pool == old(self)@.pool,
                self@.futures == old(self)@.futures,
                self@.sinks == old(self)@.sinks,
                self@.registry == old(self)@.registry,
                same_roots(old(self)@, self@),
                forall|j: u64| j < i ==> !live(self@, j),
            decreases n - i,
        {
            let ghost before = self@;
            self.take_cell(i as u64);
            assert forall|j: u64| j < i + 1 implies !live(self@, j) by {
                if j < i {
                    assert(!live(before, j));
                }
            }
            i = i + 1;
        }
        assert forall|k: int| 0 <= k < self.cells@.len() implies (#[trigger] self.cells@[k]) is None by {
            assert(!live(self@, k as u64));
        }
        let r = self.pool.shutdown();
        self.halted = true;
        self.ready.clear();
        r
    }

    /// Puts a system message in the system mailbox of what `to` refers to and schedules
    /// it.
    pub fn deliver_system(&mut self, to: &ActorRef, msg: SystemMessage) -> (r: Delivered)
        requires
            old(self).wf(),
            !(to.target is Cthulhu),
            !(to.target is ReplySink),
        ensures
            final(self).wf(),
            system_delivered(old(self)@, final(self)@, *to, msg, r),
    {
        self.route_system(to, msg)
    }

    /// Routes a system message: as `deliver_system`; a reply sink refuses it and the
    /// root sentinel shuts the runtime down.
    fn route_system(&mut self, to: &ActorRef, msg: SystemMessage) -> (r: Delivered)
        requires
            old(self).wf(),
        ensures
            final(self).wf(),
            system_delivered(old(self)@, final(self)@, *to, msg, r),
    {
        if self.halted {
            return Delivered::Halted;
        }
        match to.target {
            Target::Cell(id) => {
                match self.take_cell(id) {
                    Some(mut c) => {
                        c.receive_system_message(msg);
                        self.put_cell(id, c);
                        assert(self@.cells =~= old(self)@.cells.update(id as int, Some(c@)));
                        self.ready.enqueue(to.clone());
                        Delivered::Queued
                    },
                    None => Delivered::DeadCell,
                }
            },
            Target::ReplySink(_) => Delivered::Refused,
            Target::Distant => Delivered::Distant,
            Target::Cthulhu => {
                self.shutdown();
                Delivered::Sentinel
            },
        }
    }

    /// Sends `payload` to `to` with `from` as its sender.
    pub fn tell(&mut self, from: &ActorRef, to: &ActorRef, payload: M) -> (r: Delivered)
        requires
            old(self).wf(),
            !(to.target is Cthulhu),
        ensures
            final(self).wf(),
            delivered(
                old(self)@,
                final(self)@,
                *to,
                Envelope { message: InnerMessage::Message(Payload::User(payload)), sender: *from },
                r,
            ),
    {
        self.route(
            to,
            Envelope { message: InnerMessage::Message(Payload::User(payload)), sender: from.clone() },
        )
    }

    /// Creates a child of the cell in slot `parent`: it is recorded as owned and
    /// monitored by its father, gets `Start`, and is registered with the name resolver
    /// (unless it is the name resolver).
    fn spawn_child(&mut self, parent: u64, factory: Option<F>, name: String, role: Role) -> (r:
        Result<ActorRef, SpawnError>)
        requires
            old(self).wf(),
        ensures
            final(self).wf(),
            spawned(old(self)@, final(self)@, parent, factory, name@, role, r),
    {
        if self.halted {
            return Err(SpawnError::Halted);
        }
        let n = self.cells.len() as u64;
        let mut pc = match self.take_cell(parent) {
            Some(c) => c,
            None => {
                return Err(SpawnError::NoSuchParent);
            },
        };
        let ghost pc0 = pc@;
        let ghost taken = self@;
        if crate::path::has_slash(&name) || n >= u64::MAX - 2 {
            self.put_cell(parent, pc);
            assert(self@.cells =~= old(self)@.cells);
            return if crate::path::has_slash(&name) {
                Err(SpawnError::InvalidName)
            } else {
                Err(SpawnError::Full)
            };
        }
        let child_path = match pc.path().child(name) {
            Ok(p) => p,
            Err(_) => {
                self.put_cell(parent, pc);
                assert(self@.cells =~= old(self)@.cells);
                return Err(SpawnError::InvalidName);
            },
        };
        let father = ActorRef::with_cell(parent, pc.path().clone());
        let child_ref = ActorRef::with_cell(n, child_path.clone());
        let mut child: ActorCell<M, Option<F>> = ActorCell::new(child_path, factory, father.clone(), role);
        child.receive_system_message(SystemMessage::Start);
        assert(child@.system =~= seq![SystemMessage::Start]);
        pc.add_child(child_ref.clone());
        self.put_cell(parent, pc);
        let ghost after_put = self@;
        assert(after_put.cells[parent as int] == Some(pc@));
        let ghost child_view = child@;
        let ghost pre_cells = self.cells@;
        let slot = Some(child);
        let ghost kept = slot;
        self.cells.push(slot);
        assert(self.cells@ == pre_cells.push(kept));
        if role == Role::Future {
            self.futures.push(Some(FutureCell::new()));
        } else {
            self.futures.push(None);
        }
        assert(self.cells@[n as int] == kept);
        assert(self@.cells[n as int] == Some(child_view));
        assert(self.cells@[parent as int] == pre_cells[parent as int]);
        assert(self@.cells[parent as int] == after_put.cells[parent as int]);
        assert forall|j: u64| j < n implies live(self@, j) == live(old(self)@, j) && (live(
            old(self)@,
            j,
        ) ==> cell_of(self@, j).same_identity(cell_of(old(self)@, j)) && cell_of(self@, j).mailbox
            == cell_of(old(self)@, j).mailbox) by {
            assert(self.cells@[j as int] == pre_cells[j as int]);
            assert(self@.cells[j as int] == after_put.cells[j as int]);
            if j != parent {
                assert(after_put.cells[j as int] == taken.cells[j as int]);
                assert(taken.cells[j as int] == old(self)@.cells[j as int]);
            } else {
                assert(cell_of(old(self)@, j) == pc0);
            }
        }
        assert forall|i: int|
            0 <= i < self.cells@.len() && (#[trigger] self.cells@[i]) is Some implies self.cells@[i]->Some_0@.wf()
                && self.cells@[i]->Some_0@.path@ is Local by {
            if i < n {
                assert(self.cells@[i] == pre_cells[i]);
            }
        }
        assert forall|j: u64| j < n && j != parent implies self@.cells[j as int] == old(self)@.cells[j as int] by {
            assert(self.cells@[j as int] == pre_cells[j as int]);
            assert(self@.cells[j as int] == after_put.cells[j as int]);
            assert(after_put.cells[j as int] == taken.cells[j as int]);
        }
        assert(cell_of(self@, parent) == (CellModel {
            children: cell_of(self@, parent).children,
            monitoring: cell_of(self@, parent).monitoring,
            mailbox: cell_of(self@, parent).mailbox,
            ..pc0
        }));
        assert(cell_of(self@, parent).mailbox == pc0.mailbox);
        self.ready.enqueue(child_ref.clone());
        let ghost mid = self@;
        assert(live(mid, n));
        assert(live(mid, parent));
        assert(entry_of(cell_of(mid, parent).children, child_ref.path@) == Some(child_ref));
        let registered = match self.resolver.target {
            Target::Cell(k) => k < n,
            _ => false,
        };
        if registered && !child_ref.path.equals(&self.resolver.path) {
            let resolver = self.resolver.clone();
            let ghost env = Envelope {
                message: InnerMessage::Message(Payload::Resolve(ResolveRequest::Add(child_ref))),
                sender: father,
            };
            let r2 = self.route(
                &resolver,
                Envelope {
                    message: InnerMessage::Message(
                        Payload::Resolve(ResolveRequest::Add(child_ref.clone())),
                    ),
                    sender: father,
                },
            );
            assert(delivered(mid, self@, mid.resolver, env, r2));
            assert(self@.cells[n as int] == mid.cells[n as int]);
            assert forall|j: u64| j < n implies live(self@, j) == live(mid, j) && (live(mid, j)
                ==> cell_of(self@, j).same_identity(cell_of(mid, j))) by {}
            assert(cell_of(self@, parent).children == cell_of(mid, parent).children);
            assert(cell_of(self@, parent).monitoring == cell_of(mid, parent).monitoring);
        }
        Ok(child_ref)
    }

    /// Builds the runtime: the root sentinel `/`, the root cells `/user` and `/system`
    /// (slots 0 and 1), each with `Start` posted, and the name resolver
    /// `/system/name_resolver` (slot 2). No worker is started.
    pub fn new(name: String) -> (r: ActorSystem<M, F>)
        ensures
            r.wf(),
            !r@.halted,
            r@.pool == (PoolModel { live: 0, shut_down: false }),
            r@.cells.len() == 3,
            live(r@, 0) && live(r@, 1) && live(r@, 2),
            cell_of(r@, 0).role == Role::Root && cell_of(r@, 0).path@ == (PathModel::Local {
                logical: user_root(),
            }),
            cell_of(r@, 1).role == Role::Root && cell_of(r@, 1).path@ == (PathModel::Local {
                logical: system_root(),
            }),
            cell_of(r@, 2).role == Role::NameResolver && cell_of(r@, 2).path@ == (
            PathModel::Local { logical: resolver_path() }),
            r@.registry.len() == 0,
            r@.sinks.len() == 0,
            r@.name == name@,
            r@.cthulhu.target == Target::Cthulhu,
            r@.user.target == Target::Cell(0) && r@.user.path == cell_of(r@, 0).path,
            r@.system.target == Target::Cell(1) && r@.system.path == cell_of(r@, 1).path,
            r@.resolver.target == Target::Cell(2) && r@.resolver.path@ == cell_of(r@, 2).path@,
            fresh_cell(cell_of(r@, 0), cell_of(r@, 0).path@, None, r@.cthulhu, Role::Root),
            cell_of(r@, 1).father == r@.cthulhu && cell_of(r@, 1).system == seq![SystemMessage::Start]
                && cell_of(r@, 1).mailbox.len() == 0 && cell_of(r@, 1).lifecycle == Lifecycle::Unstarted,
            fresh_cell(
                cell_of(r@, 2),
                cell_of(r@, 2).path@,
                None,
                ActorRef { path: cell_of(r@, 1).path, target: Target::Cell(1) },
                Role::NameResolver,
            ),
            entry_of(cell_of(r@, 1).children, cell_of(r@, 2).path@) is Some,
            entry_of(cell_of(r@, 1).monitoring, cell_of(r@, 2).path@) is Some,
            cell_of(r@, 0).children.len() == 0,
            r@.ready.len() == 3 && r@.ready[0] == r@.user && r@.ready[1] == r@.system
                && r@.ready[2].target == Target::Cell(2) && r@.ready[2].path@ == r@.resolver.path@,
    {
        let user_name = "/user";
        let system_name = "/system";
        let resolver_name = "/system/name_resolver";
        let leaf = "name_resolver";
        proof {
            reveal_strlit("/user");
            reveal_strlit("/system");
            reveal_strlit("/system/name_resolver");
            reveal_strlit("name_resolver");
            assert(user_name@ =~= user_root());
            assert(system_name@ =~= system_root());
            assert(resolver_name@ =~= resolver_path());
            assert(resolver_path() =~= child_logical(system_root(), leaf@));
            assert(!contains_slash(leaf@)) by {
                assert forall|i: int| 0 <= i < leaf@.len() implies leaf@[i] != '/' by {}
            }
        }
        let cthulhu = ActorRef::with_cthulhu();
        let user_path = ActorPath::new_local(user_name.to_owned());
        let system_path = ActorPath::new_local(system_name.to_owned());
        let user = ActorRef::with_cell(0, user_path.clone());
        let system = ActorRef::with_cell(1, system_path.clone());
        let resolver = ActorRef::with_cell(2, ActorPath::new_local(resolver_name.to_owned()));
        let mut user_cell: ActorCell<M, Option<F>> = ActorCell::new(user_path, None, cthulhu.clone(), Role::Root);
        user_cell.receive_system_message(SystemMessage::Start);
        assert(user_cell@.system =~= seq![SystemMessage::Start]);
        let mut system_cell: ActorCell<M, Option<F>> = ActorCell::new(system_path, None, cthulhu.clone(), Role::Root);
        system_cell.receive_system_message(SystemMessage::Start);
        assert(system_cell@.system =~= seq![SystemMessage::Start]);
        let mut cells: Vec<Option<ActorCell<M, Option<F>>>> = Vec::new();
        cells.push(Some(user_cell));
        cells.push(Some(system_cell));
        let mut futures: Vec<Option<FutureCell<Payload<M>, u64>>> = Vec::new();
        futures.push(None);
        futures.push(None);
        let mut ready = RunQueue::new();
        ready.enqueue(user.clone());
        ready.enqueue(system.clone());
        let mut rt = ActorSystem {
            name,
            cells,
            futures,
            sinks: Vec::new(),
            registry: RefTable::new(),
            ready,
            pool: WorkerPool::new(),
            halted: false,
            cthulhu,
            user,
            system,
            resolver,
        };
        assert(rt.cells@.len() == 2);
        assert(rt.wf()) by {
            assert forall|i: int|
                0 <= i < rt.cells@.len() && (#[trigger] rt.cells@[i]) is Some implies rt.cells@[i]->Some_0@.wf()
                    && rt.cells@[i]->Some_0@.path@ is Local by {}
        }
        assert(live(rt@, 1));
        let made = rt.spawn_child(1, None, leaf.to_owned(), Role::NameResolver);
        assert(made is Ok);
        assert(live(rt@, 0));
        rt
    }

    /// Creates an actor named `name` under the actor that `parent` refers to.
    pub fn spawn(&mut self, parent: &ActorRef, factory: F, name: String) -> (r: Result<
        ActorRef,
        SpawnError,
    >)
        requires
            old(self).wf(),
        ensures
            final(self).wf(),
            match parent.target {
                Target::Cell(id) => spawned(
                    old(self)@,
                    final(self)@,
                    id,
                    Some(factory),
                    name@,
                    Role::User,
                    r,
                ),
                _ => r == Err::<ActorRef, SpawnError>(SpawnError::NoSuchParent) && final(self)@
                    == old(self)@,
            },
    {
        match parent.target {
            Target::Cell(id) => self.spawn_child(id, Some(factory), name, Role::User),
            _ => Err(SpawnError::NoSuchParent),
        }
    }

    /// Creates an actor of the application under `/user`.
    pub fn actor_of(&mut self, factory: F, name: String) -> (r: Result<ActorRef, SpawnError>)
        requires
            old(self).wf(),
        ensures
            final(self).wf(),
            spawned(old(self)@, final(self)@, 0, Some(factory), name@, Role::User, r),
    {
        self.spawn_child(0, Some(factory), name, Role::User)
    }

    /// Creates an actor of the runtime under `/system`.
    pub fn system_actor_of(&mut self, factory: F, name: String) -> (r: Result<
        ActorRef,
        SpawnError,
    >)
        requires
            old(self).wf(),
        ensures
            final(self).wf(),
            spawned(old(self)@, final(self)@, 1, Some(factory), name@, Role::User, r),
    {
        self.spawn_child(1, Some(factory), name, Role::User)
    }

    /// The reference to the cell in slot `id`.
    fn self_ref(c: &ActorCell<M, Option<F>>, id: u64) -> (r: ActorRef)
        ensures
            r == me_of(c@, id),
    {
        ActorRef::with_cell(id, c.path().clone())
    }

    /// Puts a future back in slot `id`.
    fn put_future_cell(&mut self, id: u64, f: FutureCell<Payload<M>, u64>)
        requires
            old(self).wf(),
            id < old(self)@.futures.len(),
        ensures
            final(self).wf(),
            final(self)@ == put_future(old(self)@, id, f@),
            final(self).cells == old(self).cells,
            final(self).futures@.len() == old(self).futures@.len(),
            final(self).resolver == old(self).resolver,
    {
        let _n = self.futures.len();
        let ghost fv = f@;
        let slot = Some(f);
        let ghost kept = slot;
        self.futures.set(id as usize, slot);
        assert(self.futures@ =~= old(self).futures@.update(id as int, kept));
        assert(self@.futures =~= old(self)@.futures.update(id as int, Some(fv)));
    }

    /// Takes the future of slot `id` out, leaving nothing there.
    fn take_future(&mut self, id: u64) -> (r: Option<FutureCell<Payload<M>, u64>>)
        requires
            old(self).wf(),
            id < old(self).futures@.len(),
        ensures
            final(self).wf(),
            final(self).cells == old(self).cells,
            final(self).resolver == old(self).resolver,
            final(self).futures@.len() == old(self).futures@.len(),
            match old(self)@.futures[id as int] {
                Some(f) => r matches Some(x) && x@ == f && final(self)@ == (SystemModel {
                    futures: old(self)@.futures.update(id as int, None),
                    ..old(self)@
                }),
                None => r is None && final(self)@ == old(self)@,
            },
    {
        let _n = self.futures.len();
        let mut slot: Option<FutureCell<Payload<M>, u64>> = None;
        core::mem::swap(&mut self.futures[id as usize], &mut slot);
        assert(self@.futures =~= old(self)@.futures.update(id as int, None));
        proof {
            if old(self)@.futures[id as int] is None {
                assert(self@.futures =~= old(self)@.futures);
            }
        }
        slot
    }

    /// Destroys the cell that `x` refers to and, as each father owns its children, its
    /// descendants, sparing the cells of slots `a` and `b`; returns the references of the
    /// destroyed cells, `x` first.
    fn destroy(&mut self, x: ActorRef, a: u64, b: u64) -> (r: Vec<ActorRef>)
        requires
            old(self).wf(),
        ensures
            final(self).wf(),
            destroyed(old(self)@, final(self)@, x, r@, a, b),
            final(self).resolver == old(self).resolver,
            final(self).futures == old(self).futures,
    {
        let mut removed: Vec<ActorRef> = Vec::new();
        let mut work: Vec<ActorRef> = Vec::new();
        work.push(x.clone());
        assert(work@[0] == x);
        assert(work@ =~= seq![x]);
        while work.len() > 0
            invariant
                self.wf(),
                self@ == (SystemModel { cells: self@.cells, ..old(self)@ }),
                self@.cells.len() == old(self)@.cells.len(),
                self.resolver == old(self).resolver,
                self.futures == old(self).futures,
                forall|j: u64| #[trigger] live(self@, j) ==> live(old(self)@, j) && cell_of(self@, j)
                    == cell_of(old(self)@, j),
                forall|j: u64| live(old(self)@, j) && !live(self@, j) ==> #[trigger] listed(removed@, j),
                !listed(removed@, a) && !listed(removed@, b),
                forall|i: int|
                    0 <= i < removed@.len() ==> (#[trigger] removed@[i]).target is Cell && live(
                        old(self)@,
                        removed@[i].target->Cell_0,
                    ) && !live(self@, removed@[i].target->Cell_0),
                forall|i: int, y: ActorRef|
                    0 <= i < removed@.len() && #[trigger] cell_of(
                        old(self)@,
                        removed@[i].target->Cell_0,
                    ).children.contains(y) && y.target is Cell && live(old(self)@, y.target->Cell_0)
                        ==> listed(removed@, y.target->Cell_0) || y.target->Cell_0 == a
                        || y.target->Cell_0 == b || work@.contains(y),
                removed@.len() == 0 ==> self@ == old(self)@ && (work@ == seq![x] || (work@.len()
                    == 0 && !(x.target is Cell && live(old(self)@, x.target->Cell_0)
                    && x.target->Cell_0 != a && x.target->Cell_0 != b))),
                removed@.len() > 0 && x.target is Cell && live(old(self)@, x.target->Cell_0)
                    && x.target->Cell_0 != a && x.target->Cell_0 != b ==> removed@[0] == x,
                (x.target is Cell && x.target->Cell_0 != a && x.target->Cell_0 != b) ==> !live(
                    self@,
                    x.target->Cell_0,
                ) || work@.contains(x),
            decreases count_live(self@.cells), work@.len(),
        {
            let ghost w0 = work@;
            let ghost before = self@;
            let ghost r0 = removed@;
            let y = work.pop().unwrap();
            assert(w0 == work@.push(y));
            assert forall|z: ActorRef| w0.contains(z) && z != y implies work@.contains(z) by {
                let k = choose|k: int| 0 <= k < w0.len() && w0[k] == z;
                assert(k < work@.len());
                assert(work@[k] == z);
            }
            if let Target::Cell(k) = y.target {
                if k != a && k != b {
                    let taken = self.take_cell(k);
                    assert forall|j: u64| #[trigger] live(self@, j) implies live(before, j) && cell_of(
                        self@,
                        j,
                    ) == cell_of(before, j) by {
                        if live(before, k) {
                            assert(j != k);
                        }
                    }
                    match taken {
                        Some(cell) => {
                            proof {
                                lemma_count_drop(before.cells, k as int);
                            }
                            let ghost mid_work = work@;
                            let kids = cell.children();
                            let mut i: usize = 0;
                            while i < kids.len()
                                invariant
                                    i <= kids@.len(),
                                    kids@ == cell_of(old(self)@, k).children,
                                    forall|z: ActorRef| mid_work.contains(z) ==> work@.contains(z),
                                    forall|j: int| 0 <= j < i ==> work@.contains(kids@[j]),
                                decreases kids@.len() - i,
                            {
                                let ghost wb = work@;
                                work.push(kids[i].clone());
                                assert(work@[wb.len() as int] == kids@[i as int]);
                                assert forall|z: ActorRef| wb.contains(z) implies work@.contains(z) by {
                                    let q = choose|q: int| 0 <= q < wb.len() && wb[q] == z;
                                    assert(work@[q] == z);
                                }
                                i = i + 1;
                            }
                            assert forall|z: ActorRef|
                                cell_of(old(self)@, k).children.contains(z) implies work@.contains(z) by {
                                let q = choose|q: int| 0 <= q < kids@.len() && kids@[q] == z;
                            }
                            removed.push(y);
                            assert(removed@[r0.len() as int] == y);
                            assert(listed(removed@, k));
                            assert forall|j: u64| #[trigger] listed(r0, j) implies listed(removed@, j) by {
                                let q = choose|q: int| 0 <= q < r0.len() && r0[q].target == Target::Cell(j);
                                assert(removed@[q] == r0[q]);
                            }
                            assert forall|j: u64| live(old(self)@, j) && !live(self@, j) implies #[trigger] listed(removed@, j) by {
                                if j != k {
                                    assert(!live(before, j));
                                    assert(listed(r0, j));
                                }
                            }
                            assert forall|j: u64| #[trigger] listed(removed@, j) implies listed(r0, j) || j == k by {
                                let q = choose|q: int| 0 <= q < removed@.len() && removed@[q].target == Target::Cell(j);
                                if q < r0.len() {
                                    assert(r0[q] == removed@[q]);
                                }
                            }
                        },
                        None => {},
                    }
                }
            }
        }
        assert(forall|z: ActorRef| !work@.contains(z));
        removed
    }

    /// Takes the next ready reference and handles it (see `handle`).
    pub fn step(&mut self) -> (d: Dispatch<M>)
        requires
            old(self).wf(),
        ensures
            final(self).wf(),
            old(self)@.ready.len() == 0 ==> d is Empty && final(self)@ == old(self)@,
            old(self)@.ready.len() > 0 ==> handle_spec(
                SystemModel { ready: old(self)@.ready.drop_first(), ..old(self)@ },
                final(self)@,
                old(self)@.ready[0],
                d,
            ),
    {
        let r = match self.ready.pop() {
            Some(r) => r,
            None => {
                return Dispatch::Empty;
            },
        };
        self.handle(r)
    }

    /// Performs at most one unit of work in the cell that `r` refers to: a system
    /// message before anything else; an ordinary envelope only while the cell runs (a
    /// cell that does not run, or that another worker is inside, is scheduled again).
    /// Built-in behaviors run here; for the application's behaviors the result says
    /// what to run.
    pub fn handle(&mut self, r: ActorRef) -> (d: Dispatch<M>)
        requires
            old(self).wf(),
        ensures
            final(self).wf(),
            handle_spec(old(self)@, final(self)@, r, d),
    {
        let ghost pre = self@;
        let id = match r.target {
            Target::Cell(id) => id,
            _ => {
                return Dispatch::Handled;
            },
        };
        let mut c = match self.take_cell(id) {
            Some(c) => c,
            None => {
                return Dispatch::Handled;
            },
        };
        let ghost c0 = c@;
        assert(c0 == cell_of(pre, id));
        assert(c0.wf());
        let w = c.begin_step();
        proof {
            lemma_put_over_none(pre, id, c@);
        }
        let d = match w {
            Work::Busy | Work::Requeue => {
                self.put_cell(id, c);
                assert(pre.cells.update(id as int, Some(c0)) =~= pre.cells);
                self.ready.enqueue(r);
                assert(self@ == requeued(pre, r));
                Dispatch::Handled
            },
            Work::Idle => {
                self.put_cell(id, c);
                assert(pre.cells.update(id as int, Some(c0)) =~= pre.cells);
                assert(self@ == pre);
                Dispatch::Handled
            },
            Work::System(msg) => self.handle_system(id, c, r, msg, Ghost(pre)),
            Work::Deliver(InnerMessage::Control(ctl)) => {
                let d = self.handle_control(id, c, r, ctl, Ghost(pre));
                assert(envelope_step(pre, self@, r, id, c0, d));
                d
            },
            Work::Deliver(InnerMessage::Message(payload)) => {
                match c.role() {
                    Role::User => {
                        let sender = c.sender().unwrap();
                        self.put_cell(id, c);
                        let d = Dispatch::Receive { cell: r, payload, sender };
                        assert(envelope_step(pre, self@, r, id, c0, d));
                        d
                    },
                    Role::NameResolver => {
                        self.handle_resolver(id, c, payload, Ghost(pre));
                        assert(envelope_step(pre, self@, r, id, c0, Dispatch::Handled));
                        Dispatch::Handled
                    },
                    Role::Future => {
                        assert(self@.futures.len() == self.futures@.len());
                        let d = self.handle_future(id, c, payload, Ghost(pre));
                        assert(envelope_step(pre, self@, r, id, c0, d));
                        d
                    },
                    Role::Root => {
                        c.end_step(Outcome::Done);
                        proof {
                            lemma_put_over_none(pre, id, c@);
                        }
                        self.put_cell(id, c);
                        assert(envelope_step(pre, self@, r, id, c0, Dispatch::Handled));
                        Dispatch::Handled
                    },
                }
            },
        };
        d
    }

    /// A system message taken by the cell `c` of slot `id`.
    fn handle_system(
        &mut self,
        id: u64,
        c: ActorCell<M, Option<F>>,
        r: ActorRef,
        msg: SystemMessage,
        pre: Ghost<SystemModel<M, F>>,
    ) -> (d: Dispatch<M>)
        requires
            old(self).wf(),
            !old(self)@.halted,
            live(pre@, id),
            old(self)@ == (SystemModel { cells: pre@.cells.update(id as int, None), ..pre@ }),
            cell_of(pre@, id).wf(),
            !cell_of(pre@, id).busy,
            cell_of(pre@, id).system.len() > 0,
            msg == cell_of(pre@, id).system[0],
            c@ == (CellModel {
                system: cell_of(pre@, id).system.drop_first(),
                busy: true,
                ..cell_of(pre@, id)
            }),
            c@.wf(),
            c@.path@ is Local,
        ensures
            final(self).wf(),
            system_step(pre@, final(self)@, r, id, cell_of(pre@, id), d),
    {
        let ghost c0 = cell_of(pre@, id);
        let mut c = c;
        proof {
            lemma_put_over_none(pre@, id, c@);
        }
        match msg {
            SystemMessage::Start | SystemMessage::Restart => {
                let user = c.role() == Role::User;
                if user {
                    self.put_cell(id, c);
                    return match msg {
                        SystemMessage::Start => Dispatch::Start { cell: r },
                        _ => Dispatch::Restart { cell: r },
                    };
                }
                c.end_step(Outcome::Started);
                proof {
                    lemma_put_over_none(pre@, id, c@);
                }
                self.put_cell(id, c);
                Dispatch::Handled
            },
            SystemMessage::Failure(child) => {
                let watched = c.monitored_child(&child.path);
                c.end_step(Outcome::Done);
                proof {
                    lemma_put_over_none(pre@, id, c@);
                }
                assert(c@ == past_system(c0));
                self.put_cell(id, c);
                if let Some(w) = watched {
                    let ghost mid = self@;
                    let r2 = self.route_system(&w, SystemMessage::Restart);
                    assert(system_delivered(mid, self@, w, SystemMessage::Restart, r2));
                }
                Dispatch::Handled
            },
        }
    }

    /// A control message taken by the cell `c` of slot `id`.
    fn handle_control(
        &mut self,
        id: u64,
        c: ActorCell<M, Option<F>>,
        r: ActorRef,
        ctl: ControlMessage,
        pre: Ghost<SystemModel<M, F>>,
    ) -> (d: Dispatch<M>)
        requires
            old(self).wf(),
            !old(self)@.halted,
            live(pre@, id),
            old(self)@ == (SystemModel { cells: pre@.cells.update(id as int, None), ..pre@ }),
            cell_of(pre@, id).wf(),
            cell_of(pre@, id).mailbox.len() > 0,
            cell_of(pre@, id).mailbox[0].message == InnerMessage::<M>::Control(ctl),
            c@ == delivering(cell_of(pre@, id)),
            c@.wf(),
            c@.path@ is Local,
        ensures
            final(self).wf(),
            ({
                let c0 = cell_of(pre@, id);
                let mid = put(pre@, id, past_envelope(c0));
                match ctl {
                    ControlMessage::PoisonPill => d is Handled && exists|r2: Delivered|
                        #[trigger] delivered(mid, final(self)@, c0.father, kill_me_env(me_of(c0, id)), r2),
                    ControlMessage::Terminated(who) => if c0.role == Role::User {
                        d == Dispatch::<M>::Terminated { cell: r, who } && final(self)@ == put(
                            pre@,
                            id,
                            delivering(c0),
                        )
                    } else {
                        d is Handled && final(self)@ == mid
                    },
                    ControlMessage::KillMe(ch) => killed(mid, final(self)@, id, me_of(c0, id), ch, d),
                }
            }),
    {
        let ghost c0 = cell_of(pre@, id);
        let ghost mid = put(pre@, id, past_envelope(c0));
        let mut c = c;
        let me = Self::self_ref(&c, id);
        match ctl {
            ControlMessage::PoisonPill => {
                let father = c.father().clone();
                c.end_step(Outcome::Done);
                proof {
                    lemma_put_over_none(pre@, id, c@);
                }
                self.put_cell(id, c);
                assert(self@ == mid);
                let ghost env = kill_me_env::<M>(me);
                let r2 = self.route(
                    &father,
                    Envelope {
                        message: InnerMessage::Control(ControlMessage::KillMe(me.clone())),
                        sender: me,
                    },
                );
                assert(delivered(mid, self@, father, env, r2));
                Dispatch::Handled
            },
            ControlMessage::KillMe(child) => {
                c.end_step(Outcome::Done);
                let ghost c2 = c@;
                assert(c2 == past_envelope(c0));
                let gone = c.remove_child(&child.path);
                proof {
                    lemma_put_over_none(pre@, id, c@);
                }
                self.put_cell(id, c);
                match gone {
                    Some(g) => {
                        let ghost kids = c@.children;
                        assert(c@ == (CellModel { children: kids, ..c2 }));
                        assert(self@ == put(mid, id, (CellModel { children: kids, ..c2 }))) by {
                            assert(mid.cells.update(id as int, Some(c@)) =~= pre@.cells.update(id as int, Some(c@)));
                        }
                        let keep = match self.resolver.target {
                            Target::Cell(k) => k,
                            _ => u64::MAX,
                        };
                        let removed = self.destroy(g.clone(), id, keep);
                        let ghost mid2 = self@;
                        let resolver = self.resolver.clone();
                        let ghost env = Envelope {
                            message: InnerMessage::Message(Payload::Resolve(ResolveRequest::Remove(g.path))),
                            sender: me,
                        };
                        let r2 = self.route(
                            &resolver,
                            Envelope {
                                message: InnerMessage::Message(
                                    Payload::Resolve(ResolveRequest::Remove(g.path)),
                                ),
                                sender: me,
                            },
                        );
                        assert(delivered(mid2, self@, mid.resolver, env, r2));
                        assert(removal(c2.children, kids, child.path@, Some(g)));
                        Dispatch::Removed { cells: removed }
                    },
                    None => {
                        assert(self@ == mid);
                        Dispatch::Handled
                    },
                }
            },
            ControlMessage::Terminated(who) => {
                if c.role() == Role::User {
                    proof {
                        lemma_put_over_none(pre@, id, c@);
                    }
                    self.put_cell(id, c);
                    return Dispatch::Terminated { cell: r, who };
                }
                c.end_step(Outcome::Done);
                proof {
                    lemma_put_over_none(pre@, id, c@);
                }
                self.put_cell(id, c);
                Dispatch::Handled
            },
        }
    }

    /// A payload taken by the name resolver, the cell `c` of slot `id`: `Add` and
    /// `Remove` change its table; `Get` is answered to the sender.
    fn handle_resolver(
        &mut self,
        id: u64,
        c: ActorCell<M, Option<F>>,
        payload: Payload<M>,
        pre: Ghost<SystemModel<M, F>>,
    )
        requires
            old(self).wf(),
            !old(self)@.halted,
            live(pre@, id),
            old(self)@ == (SystemModel { cells: pre@.cells.update(id as int, None), ..pre@ }),
            cell_of(pre@, id).wf(),
            cell_of(pre@, id).mailbox.len() > 0,
            cell_of(pre@, id).mailbox[0].message == InnerMessage::Message(payload),
            c@ == delivering(cell_of(pre@, id)),
            c@.wf(),
            c@.path@ is Local,
        ensures
            final(self).wf(),
            resolver_step(
                put(pre@, id, past_envelope(cell_of(pre@, id))),
                final(self)@,
                me_of(cell_of(pre@, id), id),
                cell_of(pre@, id).mailbox[0].sender,
                payload,
            ),
    {
        let ghost c0 = cell_of(pre@, id);
        let mut c = c;
        let me = Self::self_ref(&c, id);
        let sender = c.sender().unwrap();
        c.end_step(Outcome::Done);
        proof {
            lemma_put_over_none(pre@, id, c@);
        }
        self.put_cell(id, c);
        let ghost mid = self@;
        match payload {
            Payload::Resolve(ResolveRequest::Add(a)) => {
                self.registry.insert(a);
            },
            Payload::Resolve(ResolveRequest::Remove(x)) => {
                self.registry.remove(&x);
            },
            Payload::Resolve(ResolveRequest::Get(logical)) => {
                let ghost l = logical@;
                let found = self.registry.get(&ActorPath::new_local(logical));
                let ghost env = Envelope {
                    message: InnerMessage::Message(Payload::Identity(found)),
                    sender: me,
                };
                assert(found == identified(mid.registry, l));
                let r2 = self.route(
                    &sender,
                    Envelope { message: InnerMessage::Message(Payload::Identity(found)), sender: me },
                );
                assert(delivered(mid, self@, sender, env, r2));
            },
            _ => {},
        }
    }

    /// Performs the effect `e` of the future `fc` of slot `id`, whose cell is `c`.
    fn settle_future(
        &mut self,
        id: u64,
        c: ActorCell<M, Option<F>>,
        fc: FutureCell<Payload<M>, u64>,
        e: Option<Effect<Payload<M>, u64>>,
        dropped: bool,
        b: Ghost<SystemModel<M, F>>,
    ) -> (d: Dispatch<M>)
        requires
            old(self).wf(),
            !old(self)@.halted,
            id < b@.cells.len(),
            id < b@.futures.len(),
            old(self)@ == (SystemModel {
                cells: b@.cells.update(id as int, None),
                futures: b@.futures.update(id as int, None),
                ..b@
            }),
            c@.wf(),
            c@.path@ is Local,
        ensures
            final(self).wf(),
            future_effect(put_future(b@, id, fc@), final(self)@, id, c@, at_rest(c@), e, dropped, d),
    {
        let ghost cb = c@;
        let ghost fv = fc@;
        let ghost base = put_future(b@, id, fc@);
        let mut c = c;
        let me = Self::self_ref(&c, id);
        let father = c.father().clone();
        match e {
            Some(Effect::Apply(k, v)) => {
                let ghost s0 = self@;
                self.put_cell(id, c);
                assert(self@.cells == s0.cells.update(id as int, Some(cb)));
                assert(s0.cells == b@.cells.update(id as int, None));
                let ghost s1 = self@;
                self.put_future_cell(id, fc);
                assert(self@.cells == s1.cells);
                assert(self@.cells =~= base.cells.update(id as int, Some(cb)));
                assert(self@.futures =~= base.futures);
                Dispatch::Compute { cell: me, token: k, value: v }
            },
            _ => {
                c.end_step(Outcome::Done);
                assert(c@ == at_rest(cb));
                self.put_cell(id, c);
                self.put_future_cell(id, fc);
                assert(self@.cells =~= base.cells.update(id as int, Some(at_rest(cb))));
                assert(self@.futures =~= base.futures);
                let ghost done = self@;
                match e {
                    Some(Effect::Tell(to, v)) | Some(Effect::Complete(to, v)) => {
                        let ghost env = Envelope { message: InnerMessage::Message(v), sender: me };
                        let r1 = self.route(&to, Envelope { message: InnerMessage::Message(v), sender: me.clone() });
                        let ghost mid = self@;
                        let r2 = self.route(
                            &father,
                            Envelope {
                                message: InnerMessage::Control(ControlMessage::KillMe(me.clone())),
                                sender: me,
                            },
                        );
                        assert(delivered(done, mid, to, env, r1));
                        assert(delivered(mid, self@, father, kill_me_env(me), r2));
                    },
                    _ => {
                        if dropped {
                            return Dispatch::Dropped { cell: me };
                        }
                    },
                }
                Dispatch::Handled
            },
        }
    }

    /// A payload taken by a future cell: a computation to run or wait for, or its value.
    fn handle_future(
        &mut self,
        id: u64,
        c: ActorCell<M, Option<F>>,
        payload: Payload<M>,
        pre: Ghost<SystemModel<M, F>>,
    ) -> (d: Dispatch<M>)
        requires
            old(self).wf(),
            !old(self)@.halted,
            live(pre@, id),
            old(self)@ == (SystemModel { cells: pre@.cells.update(id as int, None), ..pre@ }),
            cell_of(pre@, id).wf(),
            cell_of(pre@, id).mailbox.len() > 0,
            c@ == delivering(cell_of(pre@, id)),
            c@.wf(),
            c@.path@ is Local,
            id < old(self).futures@.len(),
            id < pre@.futures.len(),
        ensures
            final(self).wf(),
            ({
                let c0 = cell_of(pre@, id);
                match pre@.futures[id as int] {
                    None => d is Handled && final(self)@ == put(pre@, id, past_envelope(c0)),
                    Some(f) => future_effect(
                        put_future(pre@, id, future_on(f, payload).0),
                        final(self)@,
                        id,
                        delivering(c0),
                        past_envelope(c0),
                        future_on(f, payload).1,
                        !(payload is Compute) && !(f.state is Uncompleted),
                        d,
                    ),
                }
            }),
    {
        let ghost c0 = cell_of(pre@, id);
        let ghost taken = self@;
        let slot = self.take_future(id);
        let mut fc = match slot {
            Some(fc) => fc,
            None => {
                let mut c = c;
                c.end_step(Outcome::Done);
                proof {
                    lemma_put_over_none(pre@, id, c@);
                }
                self.put_cell(id, c);
                return Dispatch::Handled;
            },
        };
        let ghost f0 = fc@;
        let ghost p0 = payload;
        let mut dropped = false;
        let e = match payload {
            Payload::Compute(comp) => {
                if fc.is_extracted() {
                    None
                } else {
                    fc.compute(comp)
                }
            },
            value => {
                if fc.complete(value) == Completion::Accepted {
                    fc.run_scheduled()
                } else {
                    dropped = true;
                    None
                }
            },
        };
        assert(dropped == (!(p0 is Compute) && !(f0.state is Uncompleted)));
        assert((fc@, e) == future_on(f0, p0));
        assert(at_rest(c@) == past_envelope(c0));
        self.settle_future(id, c, fc, e, dropped, pre)
    }

    /// Hands back what the application's computation made of a future's lent value: it
    /// becomes the value, and the first waiting computation runs.
    pub fn computed(&mut self, cell: &ActorRef, value: Payload<M>) -> (d: Dispatch<M>)
        requires
            old(self).wf(),
        ensures
            final(self).wf(),
            computed_spec(old(self)@, final(self)@, *cell, value, d),
    {
        let ghost pre = self@;
        let id = match cell.target {
            Target::Cell(id) => id,
            _ => {
                return Dispatch::Handled;
            },
        };
        let c = match self.take_cell(id) {
            Some(c) => c,
            None => {
                return Dispatch::Handled;
            },
        };
        let ghost c0 = c@;
        let ghost taken = self@;
        assert(self@.futures.len() == self.futures@.len());
        let slot = self.take_future(id);
        match slot {
            Some(mut fc) => {
                if fc.is_applying() {
                    fc.computed(value);
                    let e = fc.run_scheduled();
                    self.settle_future(id, c, fc, e, false, Ghost(pre))
                } else {
                    self.put_future_cell(id, fc);
                    self.put_cell(id, c);
                    assert(self@.futures =~= pre.futures);
                    assert(self@.cells =~= pre.cells);
                    Dispatch::Handled
                }
            },
            None => {
                self.put_cell(id, c);
                assert(self@.cells =~= pre.cells);
                Dispatch::Handled
            },
        }
    }

    /// Ends the step of the cell that `cell` refers to, with the outcome of its behavior.
    /// A panic marks the cell failed and tells its father with `Failure`; the result is
    /// then what became of that notice.
    pub fn finish(&mut self, cell: &ActorRef, o: Outcome) -> (r: Option<Delivered>)
        requires
            old(self).wf(),
            o == Outcome::Panicked ==> match cell.target {
                Target::Cell(id) => live(old(self)@, id) ==> !(cell_of(old(self)@, id).father.target is Cthulhu)
                    && !(cell_of(old(self)@, id).father.target is ReplySink),
                _ => true,
            },
        ensures
            final(self).wf(),
            match cell.target {
                Target::Cell(id) => if live(old(self)@, id) {
                    let c = cell_of(old(self)@, id);
                    let ended = CellModel {
                        lifecycle: match o {
                            Outcome::Done => c.lifecycle,
                            Outcome::Started => Lifecycle::Running,
                            Outcome::Panicked => Lifecycle::Failed,
                        },
                        ..at_rest(c)
                    };
                    if o == Outcome::Panicked {
                        r matches Some(x) && system_delivered(
                            put(old(self)@, id, ended),
                            final(self)@,
                            c.father,
                            SystemMessage::Failure(me_of(c, id)),
                            x,
                        )
                    } else {
                        r is None && final(self)@ == put(old(self)@, id, ended)
                    }
                } else {
                    r is None && final(self)@ == old(self)@
                },
                _ => r is None && final(self)@ == old(self)@,
            },
    {
        let ghost pre = self@;
        let id = match cell.target {
            Target::Cell(id) => id,
            _ => {
                return None;
            },
        };
        let mut c = match self.take_cell(id) {
            Some(c) => c,
            None => {
                return None;
            },
        };
        c.end_step(o);
        proof {
            lemma_put_over_none(pre, id, c@);
        }
        let me = Self::self_ref(&c, id);
        let father = c.father().clone();
        self.put_cell(id, c);
        if o == Outcome::Panicked {
            Some(self.route_system(&father, SystemMessage::Failure(me)))
        } else {
            None
        }
    }

    /// The sender of the envelope that the cell `cell` refers to is handling.
    pub fn sender(&self, cell: &ActorRef) -> (r: Option<ActorRef>)
        requires
            self.wf(),
        ensures
            match cell.target {
                Target::Cell(id) => if live(self@, id) {
                    r == cell_of(self@, id).sender
                } else {
                    r is None
                },
                _ => r is None,
            },
    {
        match cell.target {
            Target::Cell(id) => {
                if id < self.cells.len() as u64 {
                    match &self.cells[id as usize] {
                        Some(c) => c.sender(),
                        None => None,
                    }
                } else {
                    None
                }
            },
            _ => None,
        }
    }

    /// A live cell means a running system; each live cell is well formed, at a local path.
    pub proof fn lemma_live_cell(&self, id: u64)
        requires
            self.wf(),
            live(self@, id),
        ensures
            !self@.halted,
            cell_of(self@, id).wf(),
            cell_of(self@, id).path@ is Local,
    {
        assert(self.cells@[id as int] is Some);
    }

    fn copy_refs(v: &Vec<ActorRef>) -> (r: Vec<ActorRef>)
        ensures
            r@ == v@,
    {
        let mut out: Vec<ActorRef> = Vec::new();
        let mut i: usize = 0;
        while i < v.len()
            invariant
                i <= v@.len(),
                out@ == v@.subrange(0, i as int),
            decreases v@.len() - i,
        {
            out.push(v[i].clone());
            i = i + 1;
            assert(out@ =~= v@.subrange(0, i as int));
        }
        assert(out@ =~= v@);
        out
    }

    /// The children that the cell `cell` refers to owns, while it exists.
    pub fn children(&self, cell: &ActorRef) -> (r: Option<Vec<ActorRef>>)
        requires
            self.wf(),
        ensures
            match cell.target {
                Target::Cell(id) => if live(self@, id) {
                    r matches Some(v) && v@ == cell_of(self@, id).children
                } else {
                    r is None
                },
                _ => r is None,
            },
    {
        match cell.target {
            Target::Cell(id) => {
                if id < self.cells.len() as u64 {
                    match &self.cells[id as usize] {
                        Some(c) => Some(Self::copy_refs(c.children())),
                        None => None,
                    }
                } else {
                    None
                }
            },
            _ => None,
        }
    }

    /// The references that the cell `cell` refers to monitors, while it exists.
    pub fn monitored(&self, cell: &ActorRef) -> (r: Option<Vec<ActorRef>>)
        requires
            self.wf(),
        ensures
            match cell.target {
                Target::Cell(id) => if live(self@, id) {
                    r matches Some(v) && v@ == cell_of(self@, id).monitoring
                } else {
                    r is None
                },
                _ => r is None,
            },
    {
        match cell.target {
            Target::Cell(id) => {
                if id < self.cells.len() as u64 {
                    match &self.cells[id as usize] {
                        Some(c) => Some(Self::copy_refs(c.monitored())),
                        None => None,
                    }
                } else {
                    None
                }
            },
            _ => None,
        }
    }

    /// The father of the cell that `cell` refers to.
    pub fn father(&self, cell: &ActorRef) -> (r: Option<ActorRef>)
        requires
            self.wf(),
        ensures
            match cell.target {
                Target::Cell(id) => if live(self@, id) {
                    r == Some(cell_of(self@, id).father)
                } else {
                    r is None
                },
                _ => r is None,
            },
    {
        match cell.target {
            Target::Cell(id) => {
                if id < self.cells.len() as u64 {
                    match &self.cells[id as usize] {
                        Some(c) => Some(c.father().clone()),
                        None => None,
                    }
                } else {
                    None
                }
            },
            _ => None,
        }
    }

    /// Whether the cell that `cell` refers to owns a child with path `p`.
    pub fn has_child(&self, cell: &ActorRef, p: &ActorPath) -> (r: bool)
        requires
            self.wf(),
        ensures
            r == match cell.target {
                Target::Cell(id) => live(self@, id) && entry_of(cell_of(self@, id).children, p@) is Some,
                _ => false,
            },
    {
        match cell.target {
            Target::Cell(id) => {
                if id < self.cells.len() as u64 {
                    match &self.cells[id as usize] {
                        Some(c) => c.child(p).is_some(),
                        None => false,
                    }
                } else {
                    false
                }
            },
            _ => false,
        }
    }

    /// The lifecycle of the cell that `cell` refers to, while it exists.
    pub fn lifecycle(&self, cell: &ActorRef) -> (r: Option<Lifecycle>)
        requires
            self.wf(),
        ensures
            match cell.target {
                Target::Cell(id) => if live(self@, id) {
                    r == Some(cell_of(self@, id).lifecycle)
                } else {
                    r is None
                },
                _ => r is None,
            },
    {
        match cell.target {
            Target::Cell(id) => {
                if id < self.cells.len() as u64 {
                    match &self.cells[id as usize] {
                        Some(c) => Some(c.lifecycle()),
                        None => None,
                    }
                } else {
                    None
                }
            },
            _ => None,
        }
    }

    /// The factory of the cell that `cell` refers to, for a cell of the application.
    pub fn factory(&self, cell: &ActorRef) -> (r: Option<&F>)
        requires
            self.wf(),
        ensures
            match cell.target {
                Target::Cell(id) => if live(self@, id) && cell_of(self@, id).factory is Some {
                    r == Some(&cell_of(self@, id).factory->Some_0)
                } else {
                    r is None
                },
                _ => r is None,
            },
    {
        match cell.target {
            Target::Cell(id) => {
                if id < self.cells.len() as u64 {
                    match &self.cells[id as usize] {
                        Some(c) => match c.factory() {
                            Some(f) => Some(f),
                            None => None,
                        },
                        None => None,
                    }
                } else {
                    None
                }
            },
            _ => None,
        }
    }

    /// The reference of the root sentinel `/`.
    pub fn cthulhu(&self) -> (r: &ActorRef)
        ensures
            *r == self@.cthulhu,
    {
        &self.cthulhu
    }

    /// The reference of `/user`.
    pub fn user_root(&self) -> (r: &ActorRef)
        ensures
            *r == self@.user,
    {
        &self.user
    }

    /// The reference of `/system`.
    pub fn system_root(&self) -> (r: &ActorRef)
        ensures
            *r == self@.system,
    {
        &self.system
    }

    /// The reference of the name resolver.
    pub fn name_resolver(&self) -> (r: &ActorRef)
        ensures
            *r == self@.resolver,
    {
        &self.resolver
    }

    /// The name the system was given.
    pub fn name(&self) -> (r: &String)
        ensures
            r@ == self@.name,
    {
        &self.name
    }

    /// Whether the runtime was shut down.
    pub fn is_halted(&self) -> (r: bool)
        ensures
            r == self@.halted,
    {
        self.halted
    }

    /// The number of references waiting in the ready queue.
    pub fn ready_len(&self) -> (r: usize)
        ensures
            r == self@.ready.len(),
    {
        self.ready.len()
    }

    /// The number of reply sinks made so far.
    pub fn reply_sinks(&self) -> (r: usize)
        ensures
            r == self@.sinks.len(),
    {
        self.sinks.len()
    }

    /// The number of live workers.
    pub fn workers(&self) -> (r: u32)
        ensures
            r == self@.pool.live,
    {
        self.pool.live()
    }

    /// Asks for `n` more workers; returns how many to launch.
    pub fn spawn_threads(&mut self, n: u32) -> (r: u32)
        requires
            old(self).wf(),
            old(self)@.pool.live + n <= u32::MAX,
        ensures
            final(self).wf(),
            old(self)@.halted ==> r == 0 && final(self)@ == old(self)@,
            !old(self)@.halted ==> r == n && final(self)@ == (SystemModel {
                pool: PoolModel { live: old(self)@.pool.live + n as nat, ..old(self)@.pool },
                ..old(self)@
            }),
    {
        self.pool.spawn_threads(n)
    }

    /// Asks `n` workers to stop; returns how many termination signals to send.
    pub fn terminate_threads(&mut self, n: u32) -> (r: u32)
        requires
            old(self).wf(),
        ensures
            final(self).wf(),
            r == if n <= old(self)@.pool.live { n as nat } else { old(self)@.pool.live },
            final(self)@ == (SystemModel {
                pool: PoolModel { live: (old(self)@.pool.live - r) as nat, ..old(self)@.pool },
                ..old(self)@
            }),
    {
        self.pool.terminate_threads(n)
    }

    /// A worker was unwound by a panic; returns whether to launch a replacement.
    pub fn worker_panicked(&mut self) -> (r: bool)
        requires
            old(self).wf(),
        ensures
            final(self).wf(),
            final(self)@ == old(self)@,
            r == !old(self)@.halted,
    {
        self.pool.worker_panicked()
    }

    /// Has the actor that `cell` refers to ask its father to terminate it.
    pub fn kill_me(&mut self, cell: &ActorRef) -> (r: Delivered)
        requires
            old(self).wf(),
            match cell.target {
                Target::Cell(id) => live(old(self)@, id) ==> !(cell_of(old(self)@, id).father.target is Cthulhu)
                    && !(cell_of(old(self)@, id).father.target is ReplySink),
                _ => true,
            },
        ensures
            final(self).wf(),
            match cell.target {
                Target::Cell(id) => if live(old(self)@, id) {
                    delivered(
                        old(self)@,
                        final(self)@,
                        cell_of(old(self)@, id).father,
                        Envelope {
                            message: InnerMessage::Control(ControlMessage::KillMe(*cell)),
                            sender: *cell,
                        },
                        r,
                    )
                } else {
                    r == Delivered::DeadCell && final(self)@ == old(self)@
                },
                _ => r == Delivered::Refused && final(self)@ == old(self)@,
            },
    {
        match self.father(cell) {
            Some(f) => self.route(
                &f,
                Envelope {
                    message: InnerMessage::Control(ControlMessage::KillMe(cell.clone())),
                    sender: cell.clone(),
                },
            ),
            None => {
                if let Target::Cell(_) = cell.target {
                    Delivered::DeadCell
                } else {
                    Delivered::Refused
                }
            },
        }
    }

    /// Asks the actor that `target` refers to to stop: it gets a `PoisonPill` behind the
    /// messages already queued, then asks its father to remove it.
    pub fn stop(&mut self, from: &ActorRef, target: &ActorRef) -> (r: Delivered)
        requires
            old(self).wf(),
            deliverable(old(self)@, *target, InnerMessage::Control(ControlMessage::PoisonPill)),
        ensures
            final(self).wf(),
            delivered(
                old(self)@,
                final(self)@,
                *target,
                Envelope { message: InnerMessage::Control(ControlMessage::PoisonPill), sender: *from },
                r,
            ),
    {
        self.route(
            target,
            Envelope { message: InnerMessage::Control(ControlMessage::PoisonPill), sender: from.clone() },
        )
    }

    /// Completes the future that `future` refers to with `value`.
    pub fn complete(&mut self, from: &ActorRef, future: &ActorRef, value: M) -> (r: Delivered)
        requires
            old(self).wf(),
            !(future.target is Cthulhu),
        ensures
            final(self).wf(),
            delivered(
                old(self)@,
                final(self)@,
                *future,
                Envelope { message: InnerMessage::Message(Payload::User(value)), sender: *from },
                r,
            ),
    {
        self.tell(from, future, value)
    }

    /// Asks a future to run a computation on its value.
    pub fn schedule(&mut self, from: &ActorRef, future: &ActorRef, c: Computation<u64>) -> (r:
        Delivered)
        requires
            old(self).wf(),
            !(future.target is Cthulhu),
        ensures
            final(self).wf(),
            delivered(
                old(self)@,
                final(self)@,
                *future,
                Envelope { message: InnerMessage::Message(Payload::Compute(c)), sender: *from },
                r,
            ),
    {
        self.route(
            future,
            Envelope { message: InnerMessage::Message(Payload::Compute(c)), sender: from.clone() },
        )
    }

    /// Tells a future to send its value to `to`; the future then goes away.
    pub fn forward_result(&mut self, from: &ActorRef, future: &ActorRef, to: ActorRef) -> (r:
        Delivered)
        requires
            old(self).wf(),
            !(future.target is Cthulhu),
        ensures
            final(self).wf(),
            delivered(
                old(self)@,
                final(self)@,
                *future,
                Envelope {
                    message: InnerMessage::Message(Payload::Compute(Computation::Forward(to))),
                    sender: *from,
                },
                r,
            ),
    {
        self.schedule(from, future, Computation::Forward(to))
    }

    /// Tells a future to complete the future `to` with its value; it then goes away.
    pub fn forward_result_to_future(&mut self, from: &ActorRef, future: &ActorRef, to: ActorRef)
        -> (r: Delivered)
        requires
            old(self).wf(),
            !(future.target is Cthulhu),
        ensures
            final(self).wf(),
            delivered(
                old(self)@,
                final(self)@,
                *future,
                Envelope {
                    message: InnerMessage::Message(
                        Payload::Compute(Computation::ForwardToFuture(to)),
                    ),
                    sender: *from,
                },
                r,
            ),
    {
        self.schedule(from, future, Computation::ForwardToFuture(to))
    }

    /// Asks a future to replace its value with what computation `token` of the
    /// application makes of it.
    pub fn do_computation(&mut self, from: &ActorRef, future: &ActorRef, token: u64) -> (r:
        Delivered)
        requires
            old(self).wf(),
            !(future.target is Cthulhu),
        ensures
            final(self).wf(),
            delivered(
                old(self)@,
                final(self)@,
                *future,
                Envelope {
                    message: InnerMessage::Message(Payload::Compute(Computation::Apply(token))),
                    sender: *from,
                },
                r,
            ),
    {
        self.schedule(from, future, Computation::Apply(token))
    }

    /// Creates a future child of `from` named `name`, then sends `payload` to `to` with
    /// the future as its sender. The future is completed by the first reply.
    fn ask_payload(&mut self, from: &ActorRef, to: &ActorRef, payload: Payload<M>, name: String)
        -> (r: Result<ActorRef, SpawnError>)
        requires
            old(self).wf(),
        ensures
            final(self).wf(),
            match from.target {
                Target::Cell(id) => !old(self)@.halted && live(old(self)@, id) && !contains_slash(
                    name@,
                ) && old(self)@.cells.len() + 2 < u64::MAX ==> r is Ok,
                _ => r == Err::<ActorRef, SpawnError>(SpawnError::NoSuchParent),
            },
            r matches Ok(f) ==> f.target == Target::Cell(old(self)@.cells.len() as u64),
            r is Err ==> final(self)@ == old(self)@,
            r matches Ok(f) ==> asked(old(self)@, final(self)@, *from, *to, payload, name@, f),
    {
        let parent = match from.target {
            Target::Cell(id) => id,
            _ => {
                return Err(SpawnError::NoSuchParent);
            },
        };
        let ghost pre = self@;
        let ghost label = name@;
        let made = self.spawn_child(parent, None, name, Role::Future);
        let future = match made {
            Ok(f) => f,
            Err(e) => {
                return Err(e);
            },
        };
        let ghost mid = self@;
        let ghost env = Envelope { message: InnerMessage::Message(payload), sender: future };
        let d = self.route(
            to,
            Envelope { message: InnerMessage::Message(payload), sender: future.clone() },
        );
        assert(spawned(pre, mid, parent, None, label, Role::Future, Ok::<ActorRef, SpawnError>(future)));
        assert(delivered(mid, self@, *to, env, d));
        Ok(future)
    }

    /// Sends `payload` to `to` on behalf of `from`; the answer completes the future that
    /// is returned, a child of `from` named `name`.
    pub fn ask(&mut self, from: &ActorRef, to: &ActorRef, payload: M, name: String) -> (r: Result<
        ActorRef,
        SpawnError,
    >)
        requires
            old(self).wf(),
            !(to.target is Cthulhu),
        ensures
            final(self).wf(),
            match from.target {
                Target::Cell(id) => !old(self)@.halted && live(old(self)@, id) && !contains_slash(
                    name@,
                ) && old(self)@.cells.len() + 2 < u64::MAX ==> r is Ok,
                _ => r == Err::<ActorRef, SpawnError>(SpawnError::NoSuchParent),
            },
            r matches Ok(f) ==> f.target == Target::Cell(old(self)@.cells.len() as u64),
            r is Err ==> final(self)@ == old(self)@,
            r matches Ok(f) ==> asked(old(self)@, final(self)@, *from, *to, Payload::User(payload), name@, f),
    {
        self.ask_payload(from, to, Payload::User(payload), name)
    }

    /// Asks the name resolver for the reference registered under `logical`; the answer
    /// (`Identity`) completes the future that is returned, a child of `from`.
    pub fn identify(&mut self, from: &ActorRef, logical: String, name: String) -> (r: Result<
        ActorRef,
        SpawnError,
    >)
        requires
            old(self).wf(),
        ensures
            final(self).wf(),
            match from.target {
                Target::Cell(id) => !old(self)@.halted && live(old(self)@, id) && !contains_slash(
                    name@,
                ) && old(self)@.cells.len() + 2 < u64::MAX ==> r is Ok,
                _ => r == Err::<ActorRef, SpawnError>(SpawnError::NoSuchParent),
            },
            r is Err ==> final(self)@ == old(self)@,
            r matches Ok(f) ==> asked(
                old(self)@,
                final(self)@,
                *from,
                old(self)@.resolver,
                Payload::Resolve(ResolveRequest::Get(logical)),
                name@,
                f,
            ),
    {
        let resolver = self.resolver.clone();
        self.ask_payload(from, &resolver, Payload::Resolve(ResolveRequest::Get(logical)), name)
    }

    /// Sends `payload` to `to` from outside any actor; the first answer completes the
    /// returned future, later ones are dropped.
    pub fn ask_external(&mut self, to: &ActorRef, payload: M) -> (r: (
        ActorRef,
        eventual::Future<Payload<M>, ()>,
    ))
        requires
            old(self).wf(),
            !(to.target is Cthulhu),
            old(self)@.sinks.len() + 1 < u64::MAX,
        ensures
            final(self).wf(),
            r.0.target == Target::ReplySink(old(self)@.sinks.len() as u64),
            final(self)@.sinks.len() == old(self)@.sinks.len() + 1,
            exists|d: Delivered|
                #[trigger] delivered(
                    with_new_sink(old(self)@),
                    final(self)@,
                    *to,
                    Envelope { message: InnerMessage::Message(Payload::User(payload)), sender: r.0 },
                    d,
                ),
    {
        let (sink, future) = ReplySink::new();
        let id = self.sinks.len() as u64;
        let ghost pre_sinks = self.sinks@;
        let ghost kept = sink;
        self.sinks.push(sink);
        assert(self.sinks@ == pre_sinks.push(kept));
        assert(self@.sinks =~= old(self)@.sinks.push(true));
        let label = "/temp/reply";
        let me = ActorRef::with_complete(id, ActorPath::new_local(label.to_owned()));
        let ghost mid = self@;
        let ghost env = Envelope { message: InnerMessage::Message(Payload::User(payload)), sender: me };
        let d = self.route(
            to,
            Envelope { message: InnerMessage::Message(Payload::User(payload)), sender: me.clone() },
        );
        assert(mid == with_new_sink(old(self)@));
        assert(delivered(mid, self@, *to, env, d));
        (me, future)
    }

    /// Schedules the receiver that `r` refers to.
    pub fn enqueue_actor(&mut self, r: ActorRef)
        requires
            old(self).wf(),
        ensures
            final(self).wf(),
            final(self)@ == (SystemModel { ready: old(self)@.ready.push(r), ..old(self)@ }),
    {
        self.ready.enqueue(r);
    }

    /// Asks for one more worker; returns whether to launch it.
    pub fn spawn_thread(&mut self) -> (r: bool)
        requires
            old(self).wf(),
            old(self)@.pool.live < u32::MAX,
        ensures
            final(self).wf(),
            r == !old(self)@.halted,
            !r ==> final(self)@ == old(self)@,
            r ==> final(self)@ == (SystemModel {
                pool: PoolModel { live: old(self)@.pool.live + 1, ..old(self)@.pool },
                ..old(self)@
            }),
    {
        self.spawn_threads(1) == 1
    }

    /// Asks one worker to stop; returns whether to send it a termination signal.
    pub fn terminate_thread(&mut self) -> (r: bool)
        requires
            old(self).wf(),
        ensures
            final(self).wf(),
            r == (old(self)@.pool.live > 0),
            !r ==> final(self)@ == old(self)@,
            r ==> final(self)@ == (SystemModel {
                pool: PoolModel { live: (old(self)@.pool.live - 1) as nat, ..old(self)@.pool },
                ..old(self)@
            }),
    {
        self.terminate_threads(1) == 1
    }
}

impl ActorRef {
    /// Puts a message from `sender` in the mailbox of what this reference refers to.
    pub fn receive<M: Message, F>(
        &self,
        system: &mut ActorSystem<M, F>,
        message: InnerMessage<M>,
        sender: ActorRef,
    ) -> (r: Delivered)
        requires
            old(system).wf(),
            deliverable(old(system)@, *self, message),
        ensures
            final(system).wf(),
            delivered(old(system)@, final(system)@, *self, Envelope { message, sender }, r),
    {
        system.deliver(self, Envelope { message, sender })
    }

    /// Puts a system message in the system mailbox of what this reference refers to.
    pub fn receive_system_message<M: Message, F>(
        &self,
        system: &mut ActorSystem<M, F>,
        msg: SystemMessage,
    ) -> (r: Delivered)
        requires
            old(system).wf(),
            !(self.target is Cthulhu),
            !(self.target is ReplySink),
        ensures
            final(system).wf(),
            system_delivered(old(system)@, final(system)@, *self, msg, r),
    {
        system.deliver_system(self, msg)
    }

    /// Has the cell that this reference refers to handle one unit of work.
    pub fn handle<M: Message, F>(&self, system: &mut ActorSystem<M, F>) -> (d: Dispatch<M>)
        requires
            old(system).wf(),
        ensures
            final(system).wf(),
            handle_spec(old(system)@, final(system)@, *self, d),
    {
        system.handle(self.clone())
    }

    /// Sends `message` to `to`, with this reference as its sender.
    pub fn tell_to<M: Message, F>(&self, system: &mut ActorSystem<M, F>, to: &ActorRef, message: M)
        -> (r: Delivered)
        requires
            old(system).wf(),
            !(to.target is Cthulhu),
        ensures
            final(system).wf(),
            delivered(
                old(system)@,
                final(system)@,
                *to,
                Envelope { message: InnerMessage::Message(Payload::User(message)), sender: *self },
                r,
            ),
    {
        system.tell(self, to, message)
    }

    /// Sends `message` to what this reference refers to; the first answer completes the
    /// returned future.
    pub fn ask<M: Message, F>(&self, system: &mut ActorSystem<M, F>, message: M) -> (r: (
        ActorRef,
        eventual::Future<Payload<M>, ()>,
    ))
        requires
            old(system).wf(),
            !(self.target is Cthulhu),
            old(system)@.sinks.len() + 1 < u64::MAX,
        ensures
            final(system).wf(),
            r.0.target == Target::ReplySink(old(system)@.sinks.len() as u64),
            exists|d: Delivered|
                #[trigger] delivered(
                    with_new_sink(old(system)@),
                    final(system)@,
                    *self,
                    Envelope { message: InnerMessage::Message(Payload::User(message)), sender: r.0 },
                    d,
                ),
    {
        system.ask_external(self, message)
    }
}

} // verus!
