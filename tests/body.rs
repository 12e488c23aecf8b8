use tank_netsync::body::{
    ramp_speed, update_body_position_from_net, update_player_body_control, BodySample,
    ControlMove, Data,
};
use tank_netsync::game::{MesState, OutMessageState};
use tank_netsync::geom::Vec2;
use tank_netsync::tank::TankShift;

fn v(x: i64, y: i64) -> Vec2 {
    Vec2 { x, y }
}

fn data(movement: Vec2, pos: Vec2, angle: i64, linvel: Vec2) -> Data {
    Data {
        movement,
        delta_time_linear: 0,
        delta_time_angular: 0,
        pos,
        angle,
        linvel,
        angvel: 0,
    }
}

#[test]
fn ramp_reaches_full_speed_at_window() {
    assert_eq!(ramp_speed(1000, 500_000), 10_000);
    assert_eq!(ramp_speed(1000, 600_000), 10_000);
    assert_eq!(ramp_speed(-1000, 10_000_000), -10_000);
    assert_eq!(ramp_speed(500, 250_000), 2_500);
    assert_eq!(ramp_speed(-1000, 100_000), -2_000);
    assert_eq!(ramp_speed(0, 900_000), 0);
}

#[test]
fn reckoning_saturates_ramp_window() {
    let state = MesState { data: data(v(0, 1000), v(0, 0), 0, v(0, 0)), time: 0 };
    let r = update_body_position_from_net(&state, 400_000, 100_000, v(0, 0), 0);
    assert_eq!(r.movement, Some(v(0, 10_000)));
    assert_eq!(r.shift, None);
}

#[test]
fn reckoning_ramps_with_key_hold_time() {
    let mut d = data(v(0, 1000), v(0, 0), 0, v(0, 0));
    d.delta_time_linear = 100;
    let state = MesState { data: d, time: 1_000_000 };
    let r = update_body_position_from_net(&state, 1_050_000, 50_000, v(0, 0), 0);
    assert_eq!(r.movement, Some(v(0, 4_000)));
    let r = update_body_position_from_net(&state, 1_000_000, 0, v(0, 0), 0);
    assert_eq!(r.movement, Some(v(0, 2_000)));
}

#[test]
fn reckoning_leaves_weak_input_idle() {
    let state = MesState { data: data(v(0, 100), v(0, 0), 0, v(0, 0)), time: 0 };
    let r = update_body_position_from_net(&state, 0, 0, v(0, 0), 0);
    assert_eq!(r.movement, None);
}

#[test]
fn stationary_body_is_only_corrected() {
    let state = MesState { data: data(v(0, 0), v(1000, 2000), 0, v(500, 0)), time: 0 };
    let expected = Some(TankShift { delta: v(1050, 2000), rotation: 0, time: 1_000_000 });
    let early = update_body_position_from_net(&state, 0, 100_000, v(0, 0), 0);
    let late = update_body_position_from_net(&state, 10_000_000, 100_000, v(0, 0), 0);
    assert_eq!(early.movement, None);
    assert_eq!(early.shift, expected);
    assert_eq!(late, early);
}

#[test]
fn correction_within_tolerance_drops_shift() {
    let state = MesState { data: data(v(0, 0), v(1000, 2000), 0, v(500, 0)), time: 0 };
    let r = update_body_position_from_net(&state, 0, 100_000, v(1040, 1990), 0);
    assert_eq!(r.shift, None);
}

#[test]
fn correction_of_heading_takes_shortest_turn() {
    let state = MesState { data: data(v(0, 0), v(0, 0), 3_000_000, v(0, 0)), time: 0 };
    let r = update_body_position_from_net(&state, 0, 0, v(0, 0), -3_000_000);
    assert_eq!(r.shift, Some(TankShift { delta: v(0, 0), rotation: -283_186, time: 1_000_000 }));
}

#[test]
fn correction_caps_latency_at_a_minute() {
    let state = MesState { data: data(v(0, 0), v(0, 0), 0, v(1000, 0)), time: 0 };
    let r = update_body_position_from_net(&state, 0, u64::MAX, v(0, 0), 0);
    assert_eq!(r.shift, Some(TankShift { delta: v(60_000, 0), rotation: 0, time: 1_000_000 }));
}

#[test]
fn data_key_hold_times_round_to_milliseconds() {
    let mut d = Data::default();
    d.set_delta_time_linear(1_234_567);
    d.set_delta_time_angular(20_000_000);
    assert_eq!(d.delta_time_linear, 1_234);
    assert_eq!(d.delta_time_angular, 10_000);
    assert_eq!(d.get_delta_time_linear(), 1_234_000);
    assert_eq!(d.get_delta_time_angular(), 10_000_000);
    assert!(!d.is_moved());
    d.linvel = v(0, 11);
    assert!(d.is_moved());
}

fn control(movement: Vec2) -> ControlMove {
    ControlMove { movement, time_linear: 0, time_angular: 0 }
}

fn sample(pos: Vec2, linvel: Vec2) -> BodySample {
    BodySample { pos, angle: 0, linvel, angvel: 0 }
}

#[test]
fn throttle_quiet_without_change() {
    let mut state = OutMessageState { delta_time: 0, old_data: Data::default() };
    for i in 1..=20u64 {
        let r = update_player_body_control(&mut state, &control(v(0, 0)), &sample(v(0, 0), v(0, 0)), i * 100_000, 100_000);
        assert_eq!(r.message, None);
        assert_eq!(r.wheels, None);
    }
    assert_eq!(state.delta_time, 2_000_000);
}

#[test]
fn throttle_sends_at_once_on_key_edge() {
    let mut state = OutMessageState { delta_time: 0, old_data: Data::default() };
    let c = ControlMove { movement: v(0, 1000), time_linear: 1_000_000, time_angular: 1_000_000 };
    let r = update_player_body_control(&mut state, &c, &sample(v(0, 0), v(0, 0)), 1_250_000, 10_000);
    let sent = r.message.unwrap();
    assert_eq!(sent.movement, v(0, 1000));
    assert_eq!(sent.delta_time_linear, 250);
    assert_eq!(r.wheels, Some(v(0, 5_000)));
    assert_eq!(state.delta_time, 0);
    assert_eq!(state.old_data, sent);
    let r = update_player_body_control(&mut state, &c, &sample(v(0, 0), v(0, 0)), 1_260_000, 10_000);
    assert_eq!(r.message, None);
}

#[test]
fn throttle_heartbeat_for_moving_body() {
    let mut old = Data::default();
    old.linvel = v(0, 1000);
    let mut state = OutMessageState { delta_time: 0, old_data: old };
    let s = sample(v(0, 0), v(0, 1000));
    for i in 1..10u64 {
        let r = update_player_body_control(&mut state, &control(v(0, 0)), &s, i * 100_000, 100_000);
        assert_eq!(r.message, None);
    }
    let r = update_player_body_control(&mut state, &control(v(0, 0)), &s, 1_000_000, 100_000);
    assert!(r.message.is_some());
    assert_eq!(state.delta_time, 0);
}

#[test]
fn throttle_rate_limits_changes() {
    let mut state = OutMessageState { delta_time: 0, old_data: Data::default() };
    let s = sample(v(100, 0), v(0, 0));
    let r = update_player_body_control(&mut state, &control(v(0, 0)), &s, 100_000, 100_000);
    assert_eq!(r.message, None);
    let r = update_player_body_control(&mut state, &control(v(0, 0)), &s, 200_000, 100_000);
    assert_eq!(r.message, None);
    let r = update_player_body_control(&mut state, &control(v(0, 0)), &s, 300_000, 100_000);
    assert_eq!(r.message.unwrap().pos, v(100, 0));
}

#[test]
fn received_state_validity_is_checked() {
    let mut d = Data::default();
    assert!(d.is_valid());
    d.movement = v(1001, 0);
    assert!(!d.is_valid());
    d.movement = v(0, 0);
    d.angle = -3_141_593;
    assert!(!d.is_valid());
    d.angle = 3_141_593;
    d.delta_time_linear = 10_001;
    assert!(!d.is_valid());
    assert!(control(v(-1000, 1000)).is_valid());
    assert!(!sample(v(i64::MAX, 0), v(0, 0)).is_bounded());
}

#[test]
fn throttle_waits_on_input_change_without_edge() {
    let mut old = Data::default();
    old.movement = v(0, 1000);
    let mut state = OutMessageState { delta_time: 0, old_data: old };
    let c = ControlMove { movement: v(1000, 1000), time_linear: 0, time_angular: 0 };
    let r = update_player_body_control(&mut state, &c, &sample(v(0, 0), v(0, 0)), 100_000, 100_000);
    assert_eq!(r.message, None);
    assert_eq!(state.delta_time, 100_000);
    let stop = ControlMove { movement: v(0, 0), time_linear: 0, time_angular: 0 };
    let r = update_player_body_control(&mut state, &stop, &sample(v(0, 0), v(0, 0)), 110_000, 10_000);
    assert_eq!(r.message.unwrap().movement, v(0, 0));
}
