use tank_netsync::body::Data as BodyData;
use tank_netsync::game::{ExplosionData, GameMessage, MesState, NetMessage, NewTank, NewTankData, ShotData};
use tank_netsync::geom::{Vec2, Vec3};
use tank_netsync::network::{on_net_message, on_new_connection, NetHandles};
use tank_netsync::ping::{PingList, PingState};
use tank_netsync::router::{process_in_mes_map, process_in_mes_tank_body, Router};

fn v3(x: i64, y: i64, z: i64) -> Vec3 {
    Vec3 { x, y, z }
}

fn body_at(x: i64) -> BodyData {
    let mut d = BodyData::default();
    d.pos = Vec2 { x, y: 0 };
    d
}

#[test]
fn explosion_is_drained_once_unchanged() {
    let e = ExplosionData { pos: v3(1000, 2000, 3000), force: 20_000, radius: 2_700 };
    let mut r = Router::new();
    r.receive(4, GameMessage::Explosion(e));
    let mut spawn = Vec::new();
    let mut out = Vec::new();
    r.dispatch(None, &vec![], &mut spawn, &mut out);
    assert_eq!(r.take_explosions(), vec![(4, e)]);
    assert_eq!(r.take_explosions(), vec![]);
}

#[test]
fn router_leaves_nothing_after_tick() {
    let mut r = Router::new();
    r.receive(1, GameMessage::BodyMove(body_at(1)));
    r.receive(1, GameMessage::TurretRotate(Default::default()));
    r.receive(1, GameMessage::CannonRotate(Default::default()));
    r.receive(2, GameMessage::Shot(ShotData { is_shot: true, pos: v3(0, 0, 0), vel: v3(1, 2, 3) }));
    r.receive(2, GameMessage::Empty);
    let mut spawn = Vec::new();
    let mut out = Vec::new();
    r.dispatch(None, &vec![1, 2], &mut spawn, &mut out);
    assert_eq!(r.take_body().len(), 1);
    assert_eq!(r.take_turret().len(), 1);
    assert_eq!(r.take_cannon().len(), 1);
    assert_eq!(r.take_shots().len(), 1);
    assert!(r.take_explosions().is_empty());
    r.dispatch(None, &vec![1, 2], &mut spawn, &mut out);
    assert!(r.take_body().is_empty());
    assert!(r.take_shots().is_empty());
    assert!(spawn.is_empty());
    assert!(out.is_empty());
}

#[test]
fn router_state_is_last_write_wins() {
    let mut r = Router::new();
    r.receive(1, GameMessage::BodyMove(body_at(10)));
    r.receive(2, GameMessage::BodyMove(body_at(20)));
    r.receive(1, GameMessage::BodyMove(body_at(30)));
    let mut spawn = Vec::new();
    let mut out = Vec::new();
    r.dispatch(None, &vec![], &mut spawn, &mut out);
    assert_eq!(r.take_body(), vec![(1, body_at(30)), (2, body_at(20))]);
}

#[test]
fn router_keeps_every_shot_in_order() {
    let a = ShotData { is_shot: true, pos: v3(1, 1, 1), vel: v3(0, 0, 9) };
    let b = ShotData { is_shot: false, pos: v3(2, 2, 2), vel: v3(0, 9, 0) };
    let mut r = Router::new();
    r.receive(3, GameMessage::Shot(a));
    r.receive(3, GameMessage::Shot(b));
    r.receive(1, GameMessage::Shot(a));
    r.dispatch(None, &vec![], &mut Vec::new(), &mut Vec::new());
    assert_eq!(r.take_shots(), vec![(3, a), (3, b), (1, a)]);
}

#[test]
fn router_answers_data_request_with_local_tank() {
    let local = NewTankData { pos: v3(5, 6, 7), angle: 8 };
    let mut r = Router::new();
    r.receive(1, GameMessage::DataRequest);
    let mut out = Vec::new();
    r.dispatch(Some(local), &vec![], &mut Vec::new(), &mut out);
    assert_eq!(out, vec![GameMessage::InitData(local)]);
    r.receive(1, GameMessage::DataRequest);
    let mut out = Vec::new();
    r.dispatch(None, &vec![], &mut Vec::new(), &mut out);
    assert!(out.is_empty());
}

#[test]
fn router_spawns_only_unknown_players() {
    let tank = NewTankData { pos: v3(100, 7, 300), angle: 42 };
    let mut r = Router::new();
    r.receive(1, GameMessage::InitData(tank));
    r.receive(2, GameMessage::InitData(tank));
    let mut spawn = Vec::new();
    r.dispatch(None, &vec![1], &mut spawn, &mut Vec::new());
    assert_eq!(spawn, vec![NewTank { handle: 2, pos: Vec2 { x: 100, y: 300 }, angle: 42 }]);
}

#[test]
fn proxies_take_latest_state() {
    let slots = vec![(2, body_at(20))];
    let mut proxies = vec![(1, MesState { data: body_at(1), time: 0 }), (2, MesState { data: body_at(2), time: 0 })];
    process_in_mes_map(&slots, &mut proxies, 777);
    assert_eq!(proxies[0], (1, MesState { data: body_at(1), time: 0 }));
    assert_eq!(proxies[1], (2, MesState { data: body_at(20), time: 777 }));
}

#[test]
fn body_of_unknown_player_asks_for_spawn() {
    let mut d = body_at(50);
    d.angle = 9;
    let slots = vec![(2, body_at(20)), (3, d)];
    let mut proxies = vec![(2, MesState { data: body_at(2), time: 0 })];
    let mut spawn = Vec::new();
    process_in_mes_tank_body(&slots, &mut proxies, 5, &mut spawn);
    assert_eq!(spawn, vec![NewTank { handle: 3, pos: Vec2 { x: 50, y: 0 }, angle: 9 }]);
    assert_eq!(proxies[0].1.time, 5);
}

#[test]
fn network_answers_ping_and_queues_game_data() {
    let mut ping = PingList::new(7);
    let mut r = Router::new();
    assert_eq!(on_net_message(&mut ping, &mut r, 1, NetMessage::Ping(5, 9), 0), Some(NetMessage::Pong(5, 9)));
    assert_eq!(on_net_message(&mut ping, &mut r, 1, NetMessage::Pong(5, 9), 0), None);
    let msg = GameMessage::BodyMove(body_at(3));
    assert_eq!(on_net_message(&mut ping, &mut r, 1, NetMessage::GameData(msg), 0), None);
    r.dispatch(None, &vec![1], &mut Vec::new(), &mut Vec::new());
    assert_eq!(r.take_body(), vec![(1, body_at(3))]);
}

#[test]
fn new_connection_requests_data_and_starts_ping() {
    let mut ping = PingList::new(7);
    let mut handles = NetHandles::new();
    let peer = String::from("peer-a");
    assert_eq!(on_new_connection(&mut ping, &mut handles, &peer), Some(NetMessage::GameData(GameMessage::DataRequest)));
    assert!(matches!(ping.state(), PingState::Waiting(_)));
    assert_eq!(handles.handle(&peer), Some(1));
    let before = ping.state();
    assert_eq!(on_new_connection(&mut ping, &mut handles, &peer), None);
    assert_eq!(ping.state(), before);
    assert_eq!(handles.last_handle(), 1);
}

#[test]
fn handles_are_given_in_order_once() {
    let mut handles = NetHandles::new();
    assert_eq!(handles.insert(&String::from("x")), Some(1));
    assert_eq!(handles.insert(&String::from("y")), Some(2));
    assert_eq!(handles.insert(&String::from("x")), None);
    assert_eq!(handles.handle(&String::from("y")), Some(2));
    assert_eq!(handles.handle(&String::from("z")), None);
    assert_eq!(handles.last_handle(), 2);
}

#[test]
fn one_spawn_request_per_call() {
    let slots = vec![(5, body_at(50)), (2, body_at(20)), (6, body_at(60))];
    let mut proxies = vec![(2, MesState { data: body_at(2), time: 0 })];
    let mut spawn = Vec::new();
    process_in_mes_tank_body(&slots, &mut proxies, 9, &mut spawn);
    assert_eq!(spawn, vec![NewTank { handle: 5, pos: Vec2 { x: 50, y: 0 }, angle: 0 }]);
    assert_eq!(proxies[0], (2, MesState { data: body_at(20), time: 9 }));
}

#[test]
fn pong_from_new_peer_updates_its_estimate() {
    let mut ping = PingList::new(7);
    let mut handles = NetHandles::new();
    let mut r = Router::new();
    on_new_connection(&mut ping, &mut handles, &String::from("peer-b"));
    let h = handles.handle(&String::from("peer-b")).unwrap();
    assert_eq!(ping.get_time(h), 50_000);
    let sent = ping.update(20_000_000);
    assert_eq!(sent, Some((7, 0)));
    on_net_message(&mut ping, &mut r, h, NetMessage::Pong(7, 0), 20_200_000);
    assert_eq!(ping.get_time(h), 60_000);
}
