//! The cannon: raised and lowered by the local player within its elevation limits,
//! reckoned for remote tanks.
use vstd::prelude::*;
use crate::angle::{normalize_wide, normalized, MAX_TICK};
use crate::game::{accumulated, elapsed, MesState, OutMessageState, MICROS};
use crate::geom::scale_i64;
use crate::body::capped_latency;
use crate::rotation::{
    reckon_angle, reckoned_angle, rotation_emits, rotation_speed, rotation_speed_of,
    throttle_rotation, turned,
};

pub use crate::rotation::Data;

verus! {

/// Cannon speed at full input: three tenths of a half turn per second.
pub const CANNON_SPEED_MAX: i64 = 942_478;

/// The elevation limit either way, in microradians.
pub const CANNON_LIMIT: i64 = 700_000;

/// An elevation held within the limits.
pub open spec fn clamp_elevation(a: int) -> int {
    if a < -CANNON_LIMIT {
        -CANNON_LIMIT as int
    } else if a > CANNON_LIMIT {
        CANNON_LIMIT as int
    } else {
        a
    }
}

fn clamp(a: i64) -> (r: i64)
    ensures
        r as int == clamp_elevation(a as int),
{
    if a < -CANNON_LIMIT {
        -CANNON_LIMIT
    } else if a > CANNON_LIMIT {
        CANNON_LIMIT
    } else {
        a
    }
}

/// The local cannon after a tick: its new elevation, held within the limits, and the
/// state to send, if any.
pub fn update_player_cannon_rotation(
    state: &mut OutMessageState<Data>,
    input: i64,
    angle: i64,
    dt: u64,
) -> (r: (i64, Option<Data>))
    requires
        old(state).old_data.wf(),
        -1000 <= input <= 1000,
        dt <= MAX_TICK,
    ensures
        ({
            let speed = rotation_speed(input as int, CANNON_SPEED_MAX as int);
            let new_angle = clamp_elevation(normalized(angle + turned(speed, dt as int)));
            &&& r.0 == new_angle
            &&& r.1 == if rotation_emits(*old(state), speed, dt) {
                Some(Data { speed: speed as i64, angle: new_angle as i64 })
            } else {
                None
            }
            &&& *final(state) == if rotation_emits(*old(state), speed, dt) {
                OutMessageState {
                    delta_time: 0,
                    old_data: Data { speed: speed as i64, angle: new_angle as i64 },
                }
            } else {
                OutMessageState { delta_time: accumulated(old(state).delta_time, dt) as u64, ..*old(state) }
            }
        }),
        -CANNON_LIMIT <= r.0 <= CANNON_LIMIT,
        final(state).old_data.wf(),
{
    let speed = rotation_speed_of(input, CANNON_SPEED_MAX);
    assert(crate::geom::abs(speed as int) * dt as int / MICROS as int <= CANNON_SPEED_MAX * MAX_TICK) by (nonlinear_arith)
        requires crate::geom::abs(speed as int) <= CANNON_SPEED_MAX, dt <= MAX_TICK;
    let step = scale_i64(speed, dt, MICROS);
    let new_angle = clamp(normalize_wide(angle as i128 + step as i128));
    let out = throttle_rotation(state, speed, new_angle, dt);
    (new_angle, out)
}

/// A remote cannon: set to its reckoned elevation, held within the limits.
pub fn update_cannon_rotation_from_net(state: &MesState<Data>, now: u64, latency: u64) -> (r: i64)
    requires
        state.data.wf(),
    ensures
        r as int == clamp_elevation(
            reckoned_angle(state.data, elapsed(now, state.time), capped_latency(latency)),
        ),
        -CANNON_LIMIT <= r <= CANNON_LIMIT,
{
    clamp(reckon_angle(&state.data, now, state.time, latency))
}

} // verus!
