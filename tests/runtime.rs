use std::collections::HashMap;

use eventual::Async;
use robots::cell::{Lifecycle, Outcome};
use robots::path::ActorPath;
use robots::reference::{ActorRef, Payload, Target};
use robots::runtime::{Delivered, Dispatch, ActorSystem, SpawnError};

#[derive(Clone, Copy, Debug, PartialEq)]
enum Kind {
    Factorial,
    Counter,
    TwiceReplier,
    Ordered,
    Resolver,
    Signal,
    Matcher(i32),
}

#[derive(Clone, Debug, PartialEq)]
enum Msg {
    Fact(u64, u64),
    Put(u32),
    Get,
    Panic,
    Value(u64),
    Unit,
    Int(i32),
    Path(String),
}

#[derive(Clone, Copy, Debug, PartialEq)]
enum Res {
    Success,
    Failure,
}

struct World {
    rt: ActorSystem<Msg, Kind>,
    state: HashMap<u64, u64>,
    emitted: Vec<u64>,
    errors: u32,
    removed: usize,
    results: Vec<Res>,
    dropped: usize,
}

fn id_of(r: &ActorRef) -> u64 {
    match r.target {
        Target::Cell(i) => i,
        _ => panic!("not a cell"),
    }
}

impl World {
    fn new() -> World {
        World {
            rt: ActorSystem::new("test".to_owned()),
            state: HashMap::new(),
            emitted: Vec::new(),
            errors: 0,
            removed: 0,
            results: Vec::new(),
            dropped: 0,
        }
    }

    fn behave(&mut self, kind: Kind, me: &ActorRef, payload: Payload<Msg>, sender: ActorRef) -> Outcome {
        let id = id_of(me);
        let msg = match payload {
            Payload::User(m) => m,
            _ => return Outcome::Done,
        };
        match (kind, msg) {
            (Kind::Factorial, Msg::Fact(i, j)) => {
                if i == 0 {
                    self.emitted.push(j);
                } else {
                    self.rt.tell(me, me, Msg::Fact(i - 1, j * i));
                }
            }
            (_, Msg::Panic) => return Outcome::Panicked,
            (Kind::Counter, Msg::Put(n)) => {
                self.state.insert(id, n as u64);
            }
            (Kind::Counter, Msg::Get) => {
                let v = *self.state.get(&id).unwrap_or(&0);
                self.rt.complete(me, &sender, Msg::Value(v));
            }
            (Kind::TwiceReplier, Msg::Get) => {
                let first = self.rt.complete(me, &sender, Msg::Value(1));
                let second = self.rt.complete(me, &sender, Msg::Value(2));
                if let Target::ReplySink(_) = sender.target {
                    assert_eq!(first, Delivered::Completed);
                    assert_eq!(second, Delivered::AlreadyCompleted);
                }
            }
            (Kind::Ordered, Msg::Put(n)) => {
                let last = *self.state.get(&id).unwrap_or(&0);
                if n as u64 <= last {
                    self.errors += 1;
                    self.results.push(Res::Failure);
                } else {
                    self.state.insert(id, n as u64);
                }
                if n == 1000 {
                    self.emitted.push(n as u64);
                    self.results.push(Res::Success);
                }
            }
            (Kind::Resolver, Msg::Path(p)) => {
                let future = self.rt.identify(me, p, "resolver_request".to_owned()).unwrap();
                self.rt.forward_result_to_future(me, &future, sender);
            }
            (Kind::Signal, _) => self.results.push(Res::Success),
            (Kind::Matcher(v), Msg::Int(n)) => {
                if n == v {
                    self.results.push(Res::Success);
                } else {
                    self.results.push(Res::Failure);
                }
            }
            _ => {}
        }
        Outcome::Done
    }

    fn run(&mut self) {
        loop {
            match self.rt.step() {
                Dispatch::Empty => break,
                Dispatch::Handled => {}
                Dispatch::Removed { cells } => self.removed += cells.len(),
                Dispatch::Start { cell } | Dispatch::Restart { cell } => {
                    self.state.insert(id_of(&cell), 0);
                    self.rt.finish(&cell, Outcome::Started);
                }
                Dispatch::Receive { cell, payload, sender } => {
                    let kind = *self.rt.factory(&cell).unwrap();
                    let o = self.behave(kind, &cell, payload, sender);
                    self.rt.finish(&cell, o);
                }
                Dispatch::Terminated { cell, .. } => {
                    self.rt.finish(&cell, Outcome::Done);
                }
                Dispatch::Compute { cell, value, .. } => {
                    let mut next = self.rt.computed(&cell, value);
                    while let Dispatch::Compute { cell, value, .. } = next {
                        next = self.rt.computed(&cell, value);
                    }
                    if let Dispatch::Removed { cells } = next {
                        self.removed += cells.len();
                    }
                }
                Dispatch::Dropped { .. } => self.dropped += 1,
            }
        }
    }
}

fn answer(f: eventual::Future<Payload<Msg>, ()>) -> Msg {
    match f.expect() {
        Ok(Payload::User(m)) => m,
        _ => panic!("the future was not completed with a message"),
    }
}

#[test]
fn bootstrap_creates_the_roots_and_the_resolver() {
    let mut w = World::new();
    assert_eq!(w.rt.user_root().path().logical_path(), "/user");
    assert_eq!(w.rt.system_root().path().logical_path(), "/system");
    assert_eq!(w.rt.name_resolver().path().logical_path(), "/system/name_resolver");
    assert_eq!(w.rt.cthulhu().path().logical_path(), "/");
    assert_eq!(w.rt.workers(), 0);
    w.run();
    let user = w.rt.user_root().clone();
    let resolver = w.rt.name_resolver().clone();
    assert_eq!(w.rt.lifecycle(&user), Some(Lifecycle::Running));
    assert_eq!(w.rt.lifecycle(&resolver), Some(Lifecycle::Running));
}

#[test]
fn factorial_by_self_tell() {
    let mut w = World::new();
    let f = w.rt.actor_of(Kind::Factorial, "factorial".to_owned()).unwrap();
    assert_eq!(f.path().logical_path(), "/user/factorial");
    let user = w.rt.user_root().clone();
    assert_eq!(w.rt.tell(&user, &f, Msg::Fact(5, 1)), Delivered::Queued);
    w.run();
    assert_eq!(w.emitted, vec![120]);
}

#[test]
fn recover_from_panic() {
    let mut w = World::new();
    let requester = w.rt.actor_of(Kind::Counter, "sender".to_owned()).unwrap();
    let answerer = w.rt.actor_of(Kind::Counter, "receiver".to_owned()).unwrap();
    w.run();
    w.rt.tell(&requester, &answerer, Msg::Put(10));
    let (_, f1) = w.rt.ask_external(&answerer, Msg::Get);
    w.run();
    assert_eq!(answer(f1), Msg::Value(10));
    w.rt.tell(&requester, &answerer, Msg::Panic);
    let (_, f2) = w.rt.ask_external(&answerer, Msg::Get);
    w.run();
    assert_eq!(answer(f2), Msg::Value(0));
    assert_eq!(w.rt.lifecycle(&answerer), Some(Lifecycle::Running));
}

#[test]
fn read_messages_in_order() {
    let mut w = World::new();
    w.rt.spawn_threads(9);
    let producer = w.rt.actor_of(Kind::Ordered, "sender".to_owned()).unwrap();
    let consumer = w.rt.actor_of(Kind::Ordered, "receiver".to_owned()).unwrap();
    w.run();
    for i in 1..1001u32 {
        producer.tell_to(&mut w.rt, &consumer, Msg::Put(i));
    }
    w.run();
    assert_eq!(w.errors, 0);
    assert_eq!(w.results.first(), Some(&Res::Success));
    w.rt.shutdown();
}

fn ask_resolver(w: &mut World, answerer: &ActorRef, logical: &str) -> Option<ActorRef> {
    let (_, f) = w.rt.ask_external(answerer, Msg::Path(logical.to_owned()));
    w.run();
    match f.expect() {
        Ok(Payload::Identity(found)) => found,
        _ => panic!("the future was not completed with an identity"),
    }
}

#[test]
fn resolve_name_real_path() {
    let mut w = World::new();
    let answerer = w.rt.actor_of(Kind::Resolver, "answerer".to_owned()).unwrap();
    let requester = w.rt.actor_of(Kind::Resolver, "sender".to_owned()).unwrap();
    w.run();
    let res = ask_resolver(&mut w, &answerer, "/user/sender");
    assert!(requester.path().equals(&res.unwrap().path()));
    w.rt.shutdown();
}

#[test]
fn resolve_name_fake_path() {
    let mut w = World::new();
    let answerer = w.rt.actor_of(Kind::Resolver, "answerer".to_owned()).unwrap();
    w.run();
    match ask_resolver(&mut w, &answerer, "/foo/bar") {
        None => {}
        Some(_) => panic!("The name resolver gave an ActorRef when he should not."),
    }
    w.rt.shutdown();
}

#[test]
fn receive_message() {
    let _ = env_logger::try_init();
    let mut w = World::new();
    let actor_ref = w.rt.actor_of(Kind::Signal, "actor".to_owned()).unwrap();
    let user = w.rt.user_root().clone();
    w.rt.tell(&user, &actor_ref, Msg::Unit);
    w.run();
    assert_eq!(w.results.first(), Some(&Res::Success));
    w.rt.shutdown();
}

#[test]
fn receive_correct_message() {
    let mut w = World::new();
    let value = 42;
    let actor_ref = w.rt.actor_of(Kind::Matcher(value), "actor".to_owned()).unwrap();
    let user = w.rt.user_root().clone();
    w.rt.tell(&user, &actor_ref, Msg::Int(value));
    w.run();
    assert_eq!(w.results.first(), Some(&Res::Success));
    w.rt.shutdown();
}

#[test]
fn ask_completes_once() {
    let mut w = World::new();
    let r = w.rt.actor_of(Kind::TwiceReplier, "answerer".to_owned()).unwrap();
    w.run();
    let (sink, f) = w.rt.ask_external(&r, Msg::Get);
    w.run();
    assert_eq!(answer(f), Msg::Value(1));
    let user = w.rt.user_root().clone();
    assert_eq!(w.rt.tell(&user, &sink, Msg::Get), Delivered::AlreadyCompleted);
}

fn resolve(w: &mut World, logical: &str) -> Option<ActorRef> {
    let user = w.rt.user_root().clone();
    let future = w.rt.identify(&user, logical.to_owned(), "request".to_owned()).unwrap();
    w.run();
    let nowhere = ActorRef::new_distant(ActorPath::new_distant("/user/x".to_owned(), "h:1".to_owned()));
    let (sink, f) = w.rt.ask_external(&nowhere, Msg::Get);
    w.rt.forward_result(&user, &future, sink);
    w.run();
    match f.expect() {
        Ok(Payload::Identity(found)) => found,
        _ => panic!("the name resolver did not answer"),
    }
}

#[test]
fn name_resolution_finds_spawned_actors() {
    let mut w = World::new();
    let a = w.rt.actor_of(Kind::Counter, "a".to_owned()).unwrap();
    w.run();
    let found = resolve(&mut w, "/user/a").unwrap();
    assert!(found.equals(&a));
    assert!(resolve(&mut w, "/user/nope").is_none());
    assert!(resolve(&mut w, "/foo/bar").is_none());
}

#[test]
fn poison_pill_removes_the_child() {
    let mut w = World::new();
    let c = w.rt.actor_of(Kind::Counter, "child".to_owned()).unwrap();
    w.run();
    let user = w.rt.user_root().clone();
    assert!(w.rt.has_child(&user, &c.path()));
    assert_eq!(w.rt.stop(&user, &c), Delivered::Queued);
    w.run();
    assert!(!w.rt.has_child(&user, &c.path()));
    assert_eq!(w.rt.lifecycle(&c), None);
    assert!(resolve(&mut w, "/user/child").is_none());
    assert_eq!(w.rt.tell(&user, &c, Msg::Get), Delivered::DeadCell);
}

#[test]
fn stop_twice_terminates_once() {
    let mut w = World::new();
    let c = w.rt.actor_of(Kind::Counter, "child".to_owned()).unwrap();
    w.run();
    let user = w.rt.user_root().clone();
    w.rt.stop(&user, &c);
    w.rt.stop(&user, &c);
    w.run();
    assert_eq!(w.removed, 1);
}

#[test]
fn stopping_a_father_destroys_its_children() {
    let mut w = World::new();
    let f = w.rt.actor_of(Kind::Counter, "father".to_owned()).unwrap();
    let k = w.rt.spawn(&f, Kind::Counter, "kid".to_owned()).unwrap();
    assert_eq!(k.path().logical_path(), "/user/father/kid");
    w.run();
    let user = w.rt.user_root().clone();
    w.rt.stop(&user, &f);
    w.run();
    assert_eq!(w.removed, 2);
    assert_eq!(w.rt.lifecycle(&k), None);
}

#[test]
fn spawn_errors() {
    let mut w = World::new();
    assert_eq!(w.rt.actor_of(Kind::Counter, "a/b".to_owned()).err(), Some(SpawnError::InvalidName));
    let far = ActorRef::new_distant(ActorPath::new_distant("/user/x".to_owned(), "h:1".to_owned()));
    assert_eq!(w.rt.spawn(&far, Kind::Counter, "k".to_owned()).err(), Some(SpawnError::NoSuchParent));
    w.rt.shutdown();
    assert_eq!(w.rt.actor_of(Kind::Counter, "late".to_owned()).err(), Some(SpawnError::Halted));
}

#[test]
fn distant_and_halted_messages_are_dropped() {
    let mut w = World::new();
    let user = w.rt.user_root().clone();
    let far = ActorRef::new_distant(ActorPath::new_distant("/user/x".to_owned(), "h:1".to_owned()));
    assert_eq!(w.rt.tell(&user, &far, Msg::Get), Delivered::Distant);
    w.rt.shutdown();
    assert_eq!(w.rt.tell(&user, &user, Msg::Get), Delivered::Halted);
}

#[test]
fn the_roots_hang_under_the_sentinel() {
    let mut w = World::new();
    let user = w.rt.user_root().clone();
    let system = w.rt.system_root().clone();
    let root = w.rt.cthulhu().clone();
    assert!(w.rt.father(&user).unwrap().equals(&root));
    assert!(w.rt.father(&system).unwrap().equals(&root));
    let resolver = w.rt.name_resolver().clone();
    assert!(w.rt.father(&resolver).unwrap().equals(&system));
    assert_eq!(w.rt.ready_len(), 3);
}

#[test]
fn shutdown_twice_is_a_no_op() {
    let mut w = World::new();
    assert_eq!(w.rt.spawn_threads(3), 3);
    assert_eq!(w.rt.shutdown(), 3);
    assert!(w.rt.is_halted());
    assert_eq!(w.rt.ready_len(), 0);
    assert_eq!(w.rt.shutdown(), 0);
    assert!(w.rt.is_halted());
}

#[test]
fn worker_panics_are_replaced() {
    let mut w = World::new();
    w.rt.spawn_threads(2);
    assert!(w.rt.worker_panicked());
    assert!(w.rt.worker_panicked());
    assert_eq!(w.rt.workers(), 2);
    assert_eq!(w.rt.terminate_threads(1), 1);
    assert_eq!(w.rt.workers(), 1);
}

#[test]
fn future_forwards_its_value_after_a_computation() {
    let mut w = World::new();
    let user = w.rt.user_root().clone();
    let counter = w.rt.actor_of(Kind::Counter, "counter".to_owned()).unwrap();
    w.run();
    w.rt.tell(&user, &counter, Msg::Put(7));
    let future = w.rt.ask(&user, &counter, Msg::Get, "f".to_owned()).unwrap();
    assert_eq!(future.path().logical_path(), "/user/f");
    w.rt.do_computation(&user, &future, 3);
    let nowhere = ActorRef::new_distant(ActorPath::new_distant("/user/x".to_owned(), "h:1".to_owned()));
    let (sink, f) = w.rt.ask_external(&nowhere, Msg::Get);
    w.rt.forward_result_to_future(&user, &future, sink);
    w.run();
    assert_eq!(answer(f), Msg::Value(7));
    assert_eq!(w.rt.lifecycle(&future), None);
}

#[test]
fn reference_methods_reach_the_system() {
    let mut w = World::new();
    assert_eq!(w.rt.name(), "test");
    let c = w.rt.actor_of(Kind::Counter, "counter".to_owned()).unwrap();
    w.run();
    let user = w.rt.user_root().clone();
    assert_eq!(user.tell_to(&mut w.rt, &c, Msg::Put(5)), Delivered::Queued);
    let (_, f) = c.ask(&mut w.rt, Msg::Get);
    w.run();
    assert_eq!(answer(f), Msg::Value(5));
    let before = w.rt.ready_len();
    w.rt.enqueue_actor(c.clone());
    assert_eq!(w.rt.ready_len(), before + 1);
    assert!(matches!(c.handle(&mut w.rt), Dispatch::Handled));
    let far = ActorRef::new_distant(ActorPath::new_distant("/user/x".to_owned(), "h:1".to_owned()));
    assert_eq!(
        far.receive(&mut w.rt, robots::reference::InnerMessage::Message(Payload::User(Msg::Get)), user.clone()),
        Delivered::Distant
    );
    assert_eq!(
        c.receive_system_message(&mut w.rt, robots::reference::SystemMessage::Start),
        Delivered::Queued
    );
}

#[test]
fn single_threads_are_counted() {
    let mut w = World::new();
    assert!(w.rt.spawn_thread());
    assert!(w.rt.spawn_thread());
    assert_eq!(w.rt.workers(), 2);
    assert!(w.rt.terminate_thread());
    assert_eq!(w.rt.workers(), 1);
    w.rt.shutdown();
    assert!(!w.rt.spawn_thread());
    assert!(!w.rt.terminate_thread());
}

#[test]
fn a_panicking_actor_is_restarted_by_its_father() {
    let mut w = World::new();
    let c = w.rt.actor_of(Kind::Counter, "p".to_owned()).unwrap();
    w.run();
    let user = w.rt.user_root().clone();
    w.rt.tell(&user, &c, Msg::Put(3));
    w.rt.tell(&user, &c, Msg::Panic);
    w.rt.tell(&user, &c, Msg::Put(4));
    w.run();
    assert_eq!(w.rt.lifecycle(&c), Some(Lifecycle::Running));
    assert_eq!(*w.state.get(&id_of(&c)).unwrap(), 4);
}

#[test]
fn handling_a_reply_sink_changes_nothing() {
    let mut w = World::new();
    let nowhere = ActorRef::new_distant(ActorPath::new_distant("/user/x".to_owned(), "h:1".to_owned()));
    let (sink, _f) = w.rt.ask_external(&nowhere, Msg::Get);
    let before = w.rt.ready_len();
    assert!(matches!(sink.handle(&mut w.rt), Dispatch::Handled));
    assert!(matches!(nowhere.handle(&mut w.rt), Dispatch::Handled));
    assert_eq!(w.rt.ready_len(), before);
    assert_eq!(w.rt.reply_sinks(), 1);
}

#[test]
fn children_and_monitored_are_listed() {
    let mut w = World::new();
    let f = w.rt.actor_of(Kind::Counter, "father".to_owned()).unwrap();
    let k = w.rt.spawn(&f, Kind::Counter, "kid".to_owned()).unwrap();
    let kids = w.rt.children(&f).unwrap();
    assert_eq!(kids.len(), 1);
    assert!(kids[0].equals(&k));
    assert_eq!(w.rt.monitored(&f).unwrap().len(), 1);
    w.run();
    let user = w.rt.user_root().clone();
    w.rt.stop(&user, &f);
    w.run();
    assert!(w.rt.children(&f).is_none());
    assert_eq!(w.rt.children(&user).unwrap().len(), 0);
}

#[test]
fn termination_notices_reach_the_behavior() {
    let mut w = World::new();
    let c = w.rt.actor_of(Kind::Counter, "watcher".to_owned()).unwrap();
    w.run();
    let user = w.rt.user_root().clone();
    let notice = robots::reference::InnerMessage::Control(robots::reference::ControlMessage::Terminated(user.clone()));
    assert_eq!(c.receive(&mut w.rt, notice, user.clone()), Delivered::Queued);
    let mut seen = false;
    loop {
        match w.rt.step() {
            Dispatch::Empty => break,
            Dispatch::Terminated { cell, who } => {
                assert!(cell.equals(&c));
                assert!(who.equals(&user));
                seen = true;
                w.rt.finish(&cell, Outcome::Done);
            }
            _ => {}
        }
    }
    assert!(seen);
}

#[test]
fn a_second_value_to_a_future_is_reported() {
    let mut w = World::new();
    let user = w.rt.user_root().clone();
    let r = w.rt.actor_of(Kind::TwiceReplier, "twice".to_owned()).unwrap();
    w.run();
    let future = w.rt.ask(&user, &r, Msg::Get, "f".to_owned()).unwrap();
    w.run();
    assert_eq!(w.dropped, 1);
    let nowhere = ActorRef::new_distant(ActorPath::new_distant("/user/x".to_owned(), "h:1".to_owned()));
    let (sink, f) = w.rt.ask_external(&nowhere, Msg::Get);
    w.rt.forward_result_to_future(&user, &future, sink);
    w.run();
    assert_eq!(answer(f), Msg::Value(1));
}

#[test]
fn chained_computations_run_in_order() {
    let mut w = World::new();
    let user = w.rt.user_root().clone();
    let counter = w.rt.actor_of(Kind::Counter, "counter".to_owned()).unwrap();
    w.run();
    w.rt.tell(&user, &counter, Msg::Put(2));
    let future = w.rt.ask(&user, &counter, Msg::Get, "f".to_owned()).unwrap();
    w.rt.do_computation(&user, &future, 1);
    w.rt.do_computation(&user, &future, 2);
    let nowhere = ActorRef::new_distant(ActorPath::new_distant("/user/x".to_owned(), "h:1".to_owned()));
    let (sink, f) = w.rt.ask_external(&nowhere, Msg::Get);
    w.rt.forward_result(&user, &future, sink);
    w.run();
    assert_eq!(answer(f), Msg::Value(2));
    assert_eq!(w.rt.lifecycle(&future), None);
}
