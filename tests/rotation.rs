use tank_netsync::cannon::{update_cannon_rotation_from_net, update_player_cannon_rotation};
use tank_netsync::game::{MesState, OutMessageState};
use tank_netsync::rotation::{calc_rotation_speed, Data};
use tank_netsync::turret::{update_player_turret_rotation, update_turret_rotation_from_net};

fn fresh() -> OutMessageState<Data> {
    OutMessageState { delta_time: 0, old_data: Data::default() }
}

#[test]
fn turret_start_is_sent_at_once() {
    let mut state = fresh();
    let (angle, sent) = update_player_turret_rotation(&mut state, 1000, 0, 100_000);
    assert_eq!(angle, 157_079);
    assert_eq!(sent, Some(Data { speed: 1_570_796, angle: 157_079 }));
    let (angle, sent) = update_player_turret_rotation(&mut state, 1000, angle, 100_000);
    assert_eq!(angle, 314_158);
    assert_eq!(sent, None);
    assert_eq!(state.delta_time, 100_000);
}

#[test]
fn turret_tiny_input_does_not_turn() {
    let mut state = fresh();
    let (angle, sent) = update_player_turret_rotation(&mut state, 10, 5, 100_000);
    assert_eq!(angle, 5);
    assert_eq!(sent, None);
}

#[test]
fn turret_stop_is_sent_at_once() {
    let mut state = fresh();
    update_player_turret_rotation(&mut state, -1000, 0, 100_000);
    let (_, sent) = update_player_turret_rotation(&mut state, 0, -157_079, 100_000);
    assert_eq!(sent, Some(Data { speed: 0, angle: -157_079 }));
}

#[test]
fn cannon_is_held_within_limits() {
    let mut state = fresh();
    let (angle, sent) = update_player_cannon_rotation(&mut state, 1000, 650_000, 100_000);
    assert_eq!(angle, 700_000);
    assert_eq!(sent, Some(Data { speed: 942_478, angle: 700_000 }));
    let (angle, _) = update_player_cannon_rotation(&mut state, -1000, -650_000, 100_000);
    assert_eq!(angle, -700_000);
}

#[test]
fn remote_cannon_is_reckoned_and_clamped() {
    let moving = MesState { data: Data { speed: 100_000, angle: 400_000 }, time: 0 };
    assert_eq!(update_cannon_rotation_from_net(&moving, 2_000_000, 100_000), 605_000);
    assert_eq!(update_cannon_rotation_from_net(&moving, 4_000_000, 0), 700_000);
    let still = MesState { data: Data { speed: 0, angle: -800_000 }, time: 0 };
    assert_eq!(update_cannon_rotation_from_net(&still, 9_000_000, 0), -700_000);
}

#[test]
fn remote_turret_turns_towards_reckoned_angle() {
    let state = MesState { data: Data { speed: 1_000_000, angle: 0 }, time: 0 };
    assert_eq!(update_turret_rotation_from_net(&state, 500_000, 0, 0, 100_000), 150_000);
    let still = MesState { data: Data { speed: 0, angle: 1_000 }, time: 0 };
    assert_eq!(update_turret_rotation_from_net(&still, 500_000, 0, 0, 100_000), 100);
}

#[test]
fn rotation_speed_ramps_up_and_down() {
    assert_eq!(calc_rotation_speed(100_000, 1000, 1_000_000, 0, 500_000, 300_000), 200_000);
    assert_eq!(calc_rotation_speed(100_000, -1000, 1_000_000, 0, 500_000, 300_000), -200_000);
    assert_eq!(calc_rotation_speed(100_000, 1000, 1_000_000, 900_000, 500_000, 300_000), 1_000_000);
    assert_eq!(calc_rotation_speed(100_000, 0, 1_000_000, 500_000, 500_000, 300_000), 166_667);
    assert_eq!(calc_rotation_speed(100_000, 0, 1_000_000, -500_000, 500_000, 300_000), -166_667);
    assert_eq!(calc_rotation_speed(100_000, 0, 1_000_000, -200_000, 500_000, 300_000), 0);
}
