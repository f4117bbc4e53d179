use robots::path::{ActorPath, PathError};
use robots::reference::{ActorRef, Target};

#[test]
fn local_path_keeps_its_logical_path() {
    let p = ActorPath::new_local("/user/a".to_owned());
    assert_eq!(p.logical_path(), "/user/a");
    assert!(p.is_local());
}

#[test]
fn distant_path_keeps_both_parts() {
    let p = ActorPath::new_distant("/user/distant/actor".to_owned(), "127.0.0.1:12345".to_owned());
    assert_eq!(p.logical_path(), "/user/distant/actor");
    assert!(!p.is_local());
    match &p {
        ActorPath::Distant(c) => {
            assert_eq!(c.distant_logical_path(), "/user/distant/actor");
            assert_eq!(c.addr_port(), "127.0.0.1:12345");
        }
        ActorPath::Local(_) => panic!("expected a distant path"),
    }
}

#[test]
fn child_appends_a_slash_and_the_name() {
    let p = ActorPath::new_local("/user".to_owned());
    let c = p.child("sender".to_owned()).unwrap();
    assert_eq!(c.logical_path(), "/user/sender");
    let g = c.child("x".to_owned()).unwrap();
    assert_eq!(g.logical_path(), "/user/sender/x");
}

#[test]
fn child_refuses_a_slash_in_the_name() {
    let p = ActorPath::new_local("/user".to_owned());
    assert_eq!(p.child("a/b".to_owned()).err(), Some(PathError::SlashInName));
}

#[test]
fn distant_path_has_no_child() {
    let p = ActorPath::new_distant("/user/d".to_owned(), "10.0.0.1:80".to_owned());
    assert_eq!(p.child("x".to_owned()).err(), Some(PathError::DistantParent));
}

#[test]
fn paths_compare_by_structure() {
    let a = ActorPath::new_local("/user/a".to_owned());
    let b = ActorPath::new_local("/user/a".to_owned());
    let c = ActorPath::new_local("/user/b".to_owned());
    let d = ActorPath::new_distant("/user/a".to_owned(), "h:1".to_owned());
    assert!(a.equals(&b));
    assert!(!a.equals(&c));
    assert!(!a.equals(&d));
    assert!(d.equals(&d.clone()));
}

#[test]
fn references_are_equal_when_paths_are() {
    let a = ActorRef::with_cell(4, ActorPath::new_local("/user/a".to_owned()));
    let b = ActorRef::with_complete(9, ActorPath::new_local("/user/a".to_owned()));
    let c = ActorRef::new_distant(ActorPath::new_distant("/user/a".to_owned(), "h:1".to_owned()));
    assert!(a.equals(&b));
    assert!(!a.equals(&c));
    assert_eq!(a.target, Target::Cell(4));
    let root = ActorRef::with_cthulhu();
    assert_eq!(root.path().logical_path(), "/");
    assert_eq!(root.target, Target::Cthulhu);
}
