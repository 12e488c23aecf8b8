use tank_netsync::ping::{Ping, PingList, PingState, PING_DEFAULT_VALUE};

#[test]
fn ping_defaults_until_measured() {
    let p = Ping::new();
    assert_eq!(p.get_time(), PING_DEFAULT_VALUE);
    assert!(!p.is_connected());
    let list = PingList::new(1);
    assert_eq!(list.get_time(9), 50_000);
}

#[test]
fn ping_update_is_moving_average() {
    let mut p = Ping::default();
    p.update_time(100_000);
    assert_eq!(p.get_time(), 60_000);
    assert!(p.is_connected());
    p.update_time(60_000);
    assert_eq!(p.get_time(), 60_000);
}

#[test]
fn ping_average_converges_within_one_percent() {
    for (sample, end) in [(40_000u64, 40_114u64), (200_000, 198_268)] {
        let mut p = Ping::new();
        for _ in 0..20 {
            p.update_time(sample);
        }
        assert_eq!(p.get_time(), end);
        assert!(p.get_time().abs_diff(sample) * 100 <= sample);
    }
}

#[test]
fn ping_cycle_sends_and_measures() {
    let mut list = PingList::new(7);
    list.insert(3, Ping::new());
    assert!(!list.is_connected());
    assert_eq!(list.update(100_000_000), None);
    list.start_with(0);
    assert_eq!(list.state(), PingState::Waiting(5_000_000));
    assert!(list.is_connected());
    assert_eq!(list.update(14_999_999), None);
    assert_eq!(list.update(15_000_000), Some((7, 0)));
    assert_eq!(list.state(), PingState::Sent(15_000_000));
    assert_eq!(list.counter(), 1);
    list.receive_pong(8, 3, 15_200_000);
    assert_eq!(list.get_time(3), 50_000);
    list.receive_pong(7, 3, 15_200_000);
    assert_eq!(list.get_time(3), 60_000);
    assert_eq!(list.get_time(4), 50_000);
}

#[test]
fn ping_unanswered_goes_back_to_waiting() {
    let mut list = PingList::new(7);
    list.start_with(1_234);
    assert_eq!(list.state(), PingState::Waiting(5_001_234));
    assert_eq!(list.update(15_001_234), Some((7, 0)));
    assert_eq!(list.update(18_001_233), None);
    assert_eq!(list.state(), PingState::Sent(15_001_234));
    assert_eq!(list.update(18_001_234), None);
    assert_eq!(list.state(), PingState::Waiting(18_001_234));
    list.receive_pong(7, 3, 18_100_000);
    assert_eq!(list.get_time(3), 50_000);
}

#[test]
fn ping_start_is_jittered_and_once() {
    let mut list = PingList::default();
    list.start();
    match list.state() {
        PingState::Waiting(w) => assert!((5_000_000..10_000_000).contains(&w)),
        other => panic!("unexpected state {:?}", other),
    }
    let before = list.state();
    list.start_with(99);
    assert_eq!(list.state(), before);
}

#[test]
fn ping_insert_replaces_entry() {
    let mut list = PingList::new(1);
    list.insert(2, Ping { time: Some(10_000) });
    list.insert(5, Ping { time: Some(20_000) });
    list.insert(2, Ping { time: Some(30_000) });
    assert_eq!(list.get_time(2), 30_000);
    assert_eq!(list.get_time(5), 20_000);
}

#[test]
fn ping_id_collision_is_resolved() {
    let mut list = PingList::new(7);
    list.resolve_collision(5, 11);
    assert_eq!(list.id(), 7);
    list.resolve_collision(7, 11);
    assert_eq!(list.id(), 11);
    list.check_collision_id(3);
    assert_eq!(list.id(), 11);
    list.check_collision_id(11);
    assert_ne!(list.id(), 11);
    assert_eq!(list.on_ping(5, 9), (5, 9));
}
