use std::cell::RefCell;
use std::rc::Rc;
use switch_router::{
    location_path, notify_callbacks, retain_live, route_from_location, AsListener, Callback,
    Listener, SimpleRouteService, SwitchRoute, SwitchRouteService,
};

#[derive(Clone, Debug, PartialEq)]
struct Path(String);

impl SwitchRoute for Path {
    fn is_invalid(&self) -> bool {
        !self.0.starts_with('/')
    }

    fn path(&self) -> String {
        self.0.clone()
    }

    fn switch(route: &str) -> Self {
        Path(route.to_string())
    }
}

impl From<&str> for Path {
    fn from(s: &str) -> Self {
        Path(s.to_string())
    }
}

fn p(s: &str) -> Path {
    Path(s.to_string())
}

fn recorder(log: &Rc<RefCell<Vec<(u32, Path)>>>, id: u32) -> Callback<Path> {
    let log = log.clone();
    Callback::new(move |r: Path| log.borrow_mut().push((id, r)))
}

#[test]
fn get_route_is_the_initial_route() {
    let s = SimpleRouteService::new(p("/"));
    assert_eq!(s.get_route(), p("/"));
}

#[test]
fn set_route_to_new_route_notifies() {
    let log = Rc::new(RefCell::new(Vec::new()));
    let cb = recorder(&log, 1);
    let mut s = SimpleRouteService::new(p("/"));
    s.register_callback(&cb);
    s.set_route("/a");
    assert_eq!(s.get_route(), p("/a"));
    assert_eq!(*log.borrow(), vec![(1, p("/a"))]);
}

#[test]
fn set_route_to_current_route_does_not_notify() {
    let log = Rc::new(RefCell::new(Vec::new()));
    let cb = recorder(&log, 1);
    let mut s = SimpleRouteService::new(p("/a"));
    s.register_callback(&cb);
    s.set_route(p("/a"));
    assert_eq!(s.get_route(), p("/a"));
    assert!(log.borrow().is_empty());
    assert_eq!(s.back(), None);
}

#[test]
fn replace_route_returns_previous_and_notifies() {
    let log = Rc::new(RefCell::new(Vec::new()));
    let cb = recorder(&log, 1);
    let mut s = SimpleRouteService::new(p("/a"));
    s.set_route(p("/b"));
    s.register_callback(&cb);
    let old = s.replace_route(p("/c"));
    assert_eq!(old, p("/b"));
    assert_eq!(s.get_route(), p("/c"));
    assert_eq!(*log.borrow(), vec![(1, p("/c"))]);
    assert_eq!(s.back(), Some(p("/a")));
    assert_eq!(s.back(), None);
}

#[test]
fn back_notifies_with_previous_route() {
    let log = Rc::new(RefCell::new(Vec::new()));
    let cb = recorder(&log, 1);
    let mut s = SimpleRouteService::new(p("/a"));
    s.set_route(p("/b"));
    s.register_callback(&cb);
    assert_eq!(s.back(), Some(p("/a")));
    assert_eq!(s.get_route(), p("/a"));
    assert_eq!(*log.borrow(), vec![(1, p("/a"))]);
}

#[test]
fn back_at_oldest_entry_does_not_notify() {
    let log = Rc::new(RefCell::new(Vec::new()));
    let cb = recorder(&log, 1);
    let mut s = SimpleRouteService::new(p("/a"));
    s.register_callback(&cb);
    assert_eq!(s.back(), None);
    assert_eq!(s.get_route(), p("/a"));
    assert!(log.borrow().is_empty());
}

#[test]
fn service_push_after_back_discards_forward_branch() {
    let mut s = SimpleRouteService::new(p("/a"));
    s.set_route(p("/b"));
    s.set_route(p("/c"));
    assert_eq!(s.back(), Some(p("/b")));
    s.set_route(p("/d"));
    assert_eq!(s.get_route(), p("/d"));
    assert_eq!(s.back(), Some(p("/b")));
    assert_eq!(s.back(), Some(p("/a")));
    assert_eq!(s.back(), None);
}

#[test]
fn observers_are_notified_in_registration_order_with_same_route() {
    let log = Rc::new(RefCell::new(Vec::new()));
    let c1 = recorder(&log, 1);
    let c2 = recorder(&log, 2);
    let c3 = recorder(&log, 3);
    let mut s = SimpleRouteService::new(p("/"));
    s.register_callback(&c1);
    s.register_callback(&c2);
    s.register_callback(&c3);
    s.set_route(p("/x"));
    assert_eq!(*log.borrow(), vec![(1, p("/x")), (2, p("/x")), (3, p("/x"))]);
}

#[test]
fn released_observer_is_not_notified() {
    let log = Rc::new(RefCell::new(Vec::new()));
    let c1 = recorder(&log, 1);
    let c2 = recorder(&log, 2);
    let mut s = SimpleRouteService::new(p("/"));
    s.register_callback(&c1);
    s.register_callback(&c2);
    drop(c1);
    s.set_route(p("/x"));
    s.set_route(p("/y"));
    assert_eq!(*log.borrow(), vec![(2, p("/x")), (2, p("/y"))]);
}

#[test]
fn sweep_removes_exactly_the_dead_handles() {
    let log = Rc::new(RefCell::new(Vec::new()));
    let c1 = recorder(&log, 1);
    let c2 = recorder(&log, 2);
    let c3 = recorder(&log, 3);
    let c4 = recorder(&log, 4);
    let mut listeners: Vec<Listener<Path>> =
        vec![(&c1).as_listener(), (&c2).as_listener(), (&c3).as_listener(), (&c4).as_listener()];
    drop(c2);
    drop(c4);
    notify_callbacks(&mut listeners, &p("/r"));
    assert_eq!(listeners.len(), 2);
    assert_eq!(*log.borrow(), vec![(1, p("/r")), (3, p("/r"))]);
    notify_callbacks(&mut listeners, &p("/s"));
    assert_eq!(listeners.len(), 2);
    assert_eq!(log.borrow().len(), 4);
    drop(c1);
    drop(c3);
    notify_callbacks(&mut listeners, &p("/t"));
    assert!(listeners.is_empty());
    assert_eq!(log.borrow().len(), 4);
}

#[test]
fn notify_on_empty_registry_does_nothing() {
    let mut listeners: Vec<Listener<Path>> = Vec::new();
    notify_callbacks(&mut listeners, &p("/"));
    assert!(listeners.is_empty());
}

#[test]
fn listener_upgrades_while_owner_lives() {
    let log = Rc::new(RefCell::new(Vec::new()));
    let c1 = recorder(&log, 7);
    let l = (&c1).as_listener();
    let again = l.callback().expect("owner is alive");
    again.emit(p("/e"));
    assert_eq!(*log.borrow(), vec![(7, p("/e"))]);
    drop(again);
    drop(c1);
    assert!(l.callback().is_none());
}

#[test]
fn cloned_callback_keeps_observer_alive() {
    let log = Rc::new(RefCell::new(Vec::new()));
    let c1 = recorder(&log, 1);
    let keep = c1.clone();
    let l = l_of(&c1);
    drop(c1);
    assert!(l.callback().is_some());
    drop(keep);
    assert!(l.callback().is_none());
}

fn l_of(c: &Callback<Path>) -> Listener<Path> {
    c.as_listener()
}

#[test]
fn location_path_joins_the_parts() {
    assert_eq!(location_path("/a/b", "?q=1", "#top"), "/a/b?q=1#top");
    assert_eq!(location_path("/", "", ""), "/");
    assert_eq!(location_path("", "", ""), "");
}

#[test]
fn route_from_location_parses_the_joined_string() {
    let r: Path = route_from_location("/list", "?page=2", "#end");
    assert_eq!(r, p("/list?page=2#end"));
    assert!(!r.is_invalid());
}

#[test]
fn retain_live_keeps_flagged_handles_in_order() {
    let log = Rc::new(RefCell::new(Vec::new()));
    let cs: Vec<Callback<Path>> = (1..=5).map(|i| recorder(&log, i)).collect();
    let mut listeners: Vec<Listener<Path>> = cs.iter().map(|c| c.as_listener()).collect();
    retain_live(&mut listeners, &vec![true, false, false, true, false]);
    assert_eq!(listeners.len(), 2);
    for l in &listeners {
        l.callback().expect("owner is alive").emit(p("/k"));
    }
    assert_eq!(*log.borrow(), vec![(1, p("/k")), (4, p("/k"))]);
}

#[test]
fn retain_live_with_all_flags_set_keeps_everything() {
    let log = Rc::new(RefCell::new(Vec::new()));
    let cs: Vec<Callback<Path>> = (1..=3).map(|i| recorder(&log, i)).collect();
    let mut listeners: Vec<Listener<Path>> = cs.iter().map(|c| c.as_listener()).collect();
    retain_live(&mut listeners, &vec![true, true, true]);
    assert_eq!(listeners.len(), 3);
    retain_live(&mut listeners, &vec![false, false, false]);
    assert!(listeners.is_empty());
}
