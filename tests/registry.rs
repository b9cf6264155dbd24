use spjorts::control::Controller;
use spjorts::serve::{SpjortState, HEARTBEAT_LIMIT};

#[test]
fn broadcast_targets_follow_attach_order() {
    let mut c = Controller::new(7);
    c.new_listener(3);
    c.new_listener(1);
    c.new_listener(3);
    assert_eq!(c.id(), 7);
    assert_eq!(c.broadcast_targets(), vec![3, 1, 3]);
}

#[test]
fn failed_listeners_are_pruned_and_others_kept() {
    let mut c = Controller::new(7);
    for l in [10, 11, 12, 11, 13] {
        c.new_listener(l);
    }
    c.drop_failed(&vec![11, 99]);
    assert_eq!(c.broadcast_targets(), vec![10, 12, 13]);
    c.drop_failed(&vec![]);
    assert_eq!(c.broadcast_targets(), vec![10, 12, 13]);
}

#[test]
fn attach_reports_whether_controller_is_live() {
    let mut s = SpjortState::new();
    assert!(!s.attach_listener(5, 1));
    s.connect(Controller::new(5));
    assert!(s.attach_listener(5, 1));
    assert!(s.attach_listener(5, 2));
    assert_eq!(s.broadcast_targets(5), vec![1, 2]);
    assert_eq!(s.broadcast_targets(6), Vec::<u64>::new());
}

#[test]
fn reregistration_drops_earlier_listeners() {
    let mut s = SpjortState::new();
    s.connect(Controller::new(9));
    s.attach_listener(9, 100);
    s.attach_listener(9, 101);
    s.connect(Controller::new(9));
    assert_eq!(s.broadcast_targets(9), Vec::<u64>::new());
    s.attach_listener(9, 102);
    assert_eq!(s.broadcast_targets(9), vec![102]);
}

#[test]
fn registry_drop_failed_prunes_one_controller() {
    let mut s = SpjortState::new();
    s.connect(Controller::new(1));
    s.connect(Controller::new(2));
    s.attach_listener(1, 10);
    s.attach_listener(1, 11);
    s.attach_listener(2, 10);
    s.drop_failed(1, &vec![10]);
    assert_eq!(s.broadcast_targets(1), vec![11]);
    assert_eq!(s.broadcast_targets(2), vec![10]);
}

#[test]
fn silent_controller_is_evicted_at_the_limit() {
    let mut s = SpjortState::new();
    s.connect(Controller::new(4));
    for n in 1..HEARTBEAT_LIMIT {
        s.heartbeat();
        assert_eq!(s.heartbeat_age(4), Some(n));
        assert!(s.is_connected(4));
    }
    s.heartbeat();
    assert_eq!(s.heartbeat_age(4), None);
    assert!(!s.is_connected(4));
    s.heartbeat();
    assert!(!s.is_connected(4));
}

#[test]
fn registration_resets_age() {
    let mut s = SpjortState::new();
    s.connect(Controller::new(4));
    s.connect(Controller::new(8));
    for _ in 0..HEARTBEAT_LIMIT - 1 {
        s.heartbeat();
    }
    s.connect(Controller::new(4));
    assert_eq!(s.heartbeat_age(4), Some(0));
    s.heartbeat();
    assert!(s.is_connected(4));
    assert_eq!(s.heartbeat_age(4), Some(1));
    assert!(!s.is_connected(8));
    assert_eq!(s.heartbeat_age(8), None);
}

#[test]
fn pairing_is_claimed_once() {
    let mut s = SpjortState::new();
    s.set_pairing_id(42);
    s.set_pairing_id(42);
    s.set_pairing_id(7);
    let mut ids = s.get_pairing_devices();
    ids.sort();
    assert_eq!(ids, vec![7, 42]);
    assert!(s.connect_controller(42));
    assert!(!s.connect_controller(42));
    assert_eq!(s.get_pairing_devices(), vec![7]);
    assert!(!s.connect_controller(1));
}

#[test]
fn heartbeat_leaves_pairing_set_alone() {
    let mut s = SpjortState::new();
    s.connect(Controller::new(3));
    s.set_pairing_id(3);
    for _ in 0..HEARTBEAT_LIMIT {
        s.heartbeat();
    }
    assert!(!s.is_connected(3));
    assert_eq!(s.get_pairing_devices(), vec![3]);
}
