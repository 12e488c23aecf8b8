//! The turret: turned by the local player, reckoned for remote tanks.
use vstd::prelude::*;
use crate::angle::{calc_angle, normalize_wide, normalized, turn_limited, MAX_TICK};
use crate::game::{accumulated, elapsed, MesState, OutMessageState, MICROS};
use crate::geom::scale_i64;
use crate::body::capped_latency;
use crate::rotation::{
    reckon_angle, reckoned_angle, rotation_emits, rotation_speed, rotation_speed_of,
    throttle_rotation, turned,
};

pub use crate::rotation::Data;

verus! {

/// Turret speed at full input: a quarter turn per second, in microradians per second.
pub const TURRET_SPEED_MAX: i64 = 1_570_796;

/// The local turret after a tick: its new angle and the state to send, if any.
pub fn update_player_turret_rotation(
    state: &mut OutMessageState<Data>,
    input: i64,
    angle: i64,
    dt: u64,
) -> (r: (i64, Option<Data>))
    requires
        old(state).old_data.wf(),
        -1000 <= input <= 1000,
        dt <= MAX_TICK,
    ensures
        ({
            let speed = rotation_speed(input as int, TURRET_SPEED_MAX as int);
            let new_angle = normalized(angle + turned(speed, dt as int));
            &&& r.0 == new_angle
            &&& r.1 == if rotation_emits(*old(state), speed, dt) {
                Some(Data { speed: speed as i64, angle: new_angle as i64 })
            } else {
                None
            }
            &&& *final(state) == if rotation_emits(*old(state), speed, dt) {
                OutMessageState {
                    delta_time: 0,
                    old_data: Data { speed: speed as i64, angle: new_angle as i64 },
                }
            } else {
                OutMessageState { delta_time: accumulated(old(state).delta_time, dt) as u64, ..*old(state) }
            }
        }),
        final(state).old_data.wf(),
{
    let speed = rotation_speed_of(input, TURRET_SPEED_MAX);
    assert(crate::geom::abs(speed as int) * dt as int / MICROS as int <= TURRET_SPEED_MAX * MAX_TICK) by (nonlinear_arith)
        requires crate::geom::abs(speed as int) <= TURRET_SPEED_MAX, dt <= MAX_TICK;
    let step = scale_i64(speed, dt, MICROS);
    let new_angle = normalize_wide(angle as i128 + step as i128);
    let out = throttle_rotation(state, speed, new_angle, dt);
    (new_angle, out)
}

/// A remote turret after a tick: it turns from `angle` towards its reckoned angle at no
/// more than its sent speed, plus a catch-up in proportion to the tick.
pub fn update_turret_rotation_from_net(
    state: &MesState<Data>,
    now: u64,
    latency: u64,
    angle: i64,
    dt: u64,
) -> (r: i64)
    requires
        state.data.wf(),
        dt <= MAX_TICK,
    ensures
        r as int == normalized(
            angle + turn_limited(
                reckoned_angle(state.data, elapsed(now, state.time), capped_latency(latency)),
                angle as int,
                state.data.speed as int,
                dt as int,
            ),
        ),
{
    let target = reckon_angle(&state.data, now, state.time, latency);
    calc_angle(target, angle, state.data.speed, dt)
}

} // verus!
