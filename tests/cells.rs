use robots::cell::{ActorCell, Lifecycle, Outcome, Role, Work};
use robots::future::{Completion, Computation, Effect, FutureCell};
use robots::path::ActorPath;
use robots::reference::{ActorRef, InnerMessage, Payload, SystemMessage};
use robots::table::RefTable;

fn path(s: &str) -> ActorPath {
    ActorPath::new_local(s.to_owned())
}

fn cell() -> ActorCell<u32, ()> {
    ActorCell::new(path("/user/c"), (), ActorRef::with_cthulhu(), Role::User)
}

fn send(c: &mut ActorCell<u32, ()>, v: u32) {
    c.receive_message(InnerMessage::Message(Payload::User(v)), ActorRef::with_cell(7, path("/user/s")));
}

fn delivered_value(w: Work<u32>) -> Option<u32> {
    match w {
        Work::Deliver(InnerMessage::Message(Payload::User(v))) => Some(v),
        _ => None,
    }
}

#[test]
fn unstarted_cell_delivers_nothing() {
    let mut c = cell();
    send(&mut c, 1);
    assert!(matches!(c.begin_step(), Work::Requeue));
    assert_eq!(c.pending(), 1);
    assert_eq!(c.lifecycle(), Lifecycle::Unstarted);
}

#[test]
fn system_messages_come_first() {
    let mut c = cell();
    send(&mut c, 1);
    c.receive_system_message(SystemMessage::Start);
    assert!(matches!(c.begin_step(), Work::System(SystemMessage::Start)));
    assert_eq!(c.pending(), 1);
    c.end_step(Outcome::Started);
    assert_eq!(c.lifecycle(), Lifecycle::Running);
    assert_eq!(delivered_value(c.begin_step()), Some(1));
    assert_eq!(c.pending(), 0);
}

#[test]
fn busy_cell_is_left_alone() {
    let mut c = cell();
    c.receive_system_message(SystemMessage::Start);
    send(&mut c, 1);
    assert!(matches!(c.begin_step(), Work::System(_)));
    assert!(matches!(c.begin_step(), Work::Busy));
    assert_eq!(c.pending(), 1);
}

#[test]
fn sender_is_visible_only_during_delivery() {
    let mut c = cell();
    c.receive_system_message(SystemMessage::Start);
    c.begin_step();
    c.end_step(Outcome::Started);
    send(&mut c, 3);
    assert!(c.sender().is_none());
    c.begin_step();
    assert_eq!(c.sender().unwrap().path().logical_path(), "/user/s");
    c.end_step(Outcome::Done);
    assert!(c.sender().is_none());
}

#[test]
fn panic_then_restart_keeps_waiting_mail() {
    let mut c = cell();
    c.receive_system_message(SystemMessage::Start);
    c.begin_step();
    c.end_step(Outcome::Started);
    send(&mut c, 1);
    send(&mut c, 2);
    send(&mut c, 3);
    assert_eq!(delivered_value(c.begin_step()), Some(1));
    c.end_step(Outcome::Panicked);
    assert_eq!(c.lifecycle(), Lifecycle::Failed);
    assert!(matches!(c.begin_step(), Work::Requeue));
    c.receive_system_message(SystemMessage::Restart);
    assert!(matches!(c.begin_step(), Work::System(SystemMessage::Restart)));
    c.end_step(Outcome::Started);
    assert_eq!(c.lifecycle(), Lifecycle::Running);
    assert_eq!(c.pending(), 2);
    assert_eq!(delivered_value(c.begin_step()), Some(2));
    c.end_step(Outcome::Done);
    assert_eq!(delivered_value(c.begin_step()), Some(3));
}

#[test]
fn children_are_added_and_removed_once() {
    let mut c = cell();
    let kid = ActorRef::with_cell(3, path("/user/c/k"));
    c.add_child(kid.clone());
    assert!(c.child(&path("/user/c/k")).is_some());
    assert!(c.monitored_child(&path("/user/c/k")).is_some());
    assert!(c.remove_child(&path("/user/c/k")).is_some());
    assert!(c.remove_child(&path("/user/c/k")).is_none());
    assert!(c.child(&path("/user/c/k")).is_none());
    assert_eq!(c.children().len(), 0);
}

#[test]
fn table_replaces_entries_of_the_same_path() {
    let mut t = RefTable::new();
    t.insert(ActorRef::with_cell(1, path("/user/a")));
    t.insert(ActorRef::with_cell(2, path("/user/b")));
    t.insert(ActorRef::with_cell(5, path("/user/a")));
    assert_eq!(t.entries().len(), 2);
    assert_eq!(t.get(&path("/user/a")).unwrap().target, robots::reference::Target::Cell(5));
    assert!(t.contains(&path("/user/b")));
    assert!(t.remove(&path("/user/a")).is_some());
    assert!(t.get(&path("/user/a")).is_none());
    assert!(t.remove(&path("/user/a")).is_none());
}

#[test]
fn future_runs_waiting_computations_after_completion() {
    let mut f: FutureCell<u32, u64> = FutureCell::new();
    let to = ActorRef::with_cell(2, path("/user/t"));
    assert!(f.compute(Computation::Forward(to)).is_none());
    assert!(f.next_scheduled().is_none());
    assert_eq!(f.complete(42), Completion::Accepted);
    assert!(f.is_completed());
    let c = f.next_scheduled().unwrap();
    match f.compute(c) {
        Some(Effect::Tell(r, v)) => {
            assert_eq!(v, 42);
            assert_eq!(r.path().logical_path(), "/user/t");
        }
        _ => panic!("expected the value to be forwarded"),
    }
    assert!(f.is_extracted());
}

#[test]
fn future_accepts_one_value() {
    let mut f: FutureCell<u32, u64> = FutureCell::new();
    assert_eq!(f.complete(1), Completion::Accepted);
    assert_eq!(f.complete(2), Completion::Rejected);
    match f.compute(Computation::Apply(9)) {
        Some(Effect::Apply(k, v)) => {
            assert_eq!(k, 9);
            assert_eq!(v, 1);
        }
        _ => panic!("expected the value to be lent"),
    }
    assert_eq!(f.computed(10), Completion::Accepted);
    assert_eq!(f.computed(11), Completion::Rejected);
    let to = ActorRef::with_cell(2, path("/user/t"));
    match f.compute(Computation::ForwardToFuture(to)) {
        Some(Effect::Complete(_, v)) => assert_eq!(v, 10),
        _ => panic!("expected a completion"),
    }
}
