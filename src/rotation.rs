//! The state of a part that turns about one axis (turret, cannon), and the throttle
//! that decides when it is sent.
use vstd::prelude::*;
use crate::angle::is_normalized;
use crate::game::{
    accumulated, elapsed, OutMessageState, ANGLE_SPEED_EPSILON, MAX_OUT_DELTA_TIME, MICROS,
    MIN_OUT_DELTA_TIME, OUT_ANGLE_EPSILON,
};
use crate::geom::{abs, in_range, scale, scale_i64, MAX_COORD};
use crate::body::{capped_latency, MAX_LATENCY};

verus! {

/// What a turning part sends: its rotation speed and its angle at sending.
#[derive(Clone, Copy, Debug, PartialEq, Eq, Structural)]
pub struct Data {
    /// Rotation speed, in microradians per second.
    pub speed: i64,
    /// Angle, in microradians.
    pub angle: i64,
}

impl Data {
    pub open spec fn wf(&self) -> bool {
        in_range(self.speed as int) && is_normalized(self.angle as int)
    }

    /// Whether the state is well formed, as a received state must be checked to be.
    pub fn is_valid(&self) -> (r: bool)
        ensures
            r == self.wf(),
    {
        -MAX_COORD <= self.speed && self.speed <= MAX_COORD && -crate::angle::HALF_TURN < self.angle
            && self.angle <= crate::angle::HALF_TURN
    }
}

impl Default for Data {
    fn default() -> (r: Data)
        ensures
            r.speed == 0,
            r.angle == 0,
    {
        Data { speed: 0, angle: 0 }
    }
}

/// The rotation speed for an input in thousandths, with `max_speed` at full input;
/// a speed below the tolerance counts as none.
pub open spec fn rotation_speed(input: int, max_speed: int) -> int {
    let s = scale(input * max_speed, 1, 1000);
    if abs(s) > ANGLE_SPEED_EPSILON {
        s
    } else {
        0
    }
}

/// The rotation speed for an input in thousandths.
pub fn rotation_speed_of(input: i64, max_speed: i64) -> (r: i64)
    requires
        -1000 <= input <= 1000,
        0 <= max_speed <= 10_000_000,
    ensures
        r as int == rotation_speed(input as int, max_speed as int),
        abs(r as int) <= max_speed,
{
    assert(abs(input * max_speed) <= 1000 * max_speed) by (nonlinear_arith)
        requires -1000 <= input <= 1000, max_speed >= 0;
    let s = scale_i64(input * max_speed, 1, 1000);
    proof {
        crate::tank::lemma_scale_within(input * max_speed, 1, 1000);
        assert(abs(s as int) <= abs(input * max_speed) / 1000);
        assert(abs(input * max_speed) / 1000 <= max_speed) by (nonlinear_arith)
            requires abs(input * max_speed) <= 1000 * max_speed;
    }
    if s > ANGLE_SPEED_EPSILON || s < -ANGLE_SPEED_EPSILON {
        s
    } else {
        0
    }
}

/// The turn made at `speed` over a tick of `dt`.
pub open spec fn turned(speed: int, dt: int) -> int {
    scale(speed, dt, MICROS as int)
}

/// Whether the throttle of a turning part sends this tick: a speed change once the rate
/// limit has passed, a heartbeat while turning, or at once on starting or stopping.
pub open spec fn rotation_emits(state: OutMessageState<Data>, speed: int, dt: u64) -> bool {
    let acc = accumulated(state.delta_time, dt);
    let is_changed = abs(speed - state.old_data.speed) > OUT_ANGLE_EPSILON;
    let is_moved = abs(speed) > ANGLE_SPEED_EPSILON;
    let edge = is_changed && (abs(speed) < ANGLE_SPEED_EPSILON || abs(state.old_data.speed as int)
        < ANGLE_SPEED_EPSILON);
    (is_changed && acc >= MIN_OUT_DELTA_TIME) || (is_moved && acc >= MAX_OUT_DELTA_TIME) || edge
}

/// Runs the throttle of a turning part for one tick of `dt`, after it turned at `speed`
/// to `angle`: returns the state to send, if any.
pub fn throttle_rotation(state: &mut OutMessageState<Data>, speed: i64, angle: i64, dt: u64) -> (r:
    Option<Data>)
    requires
        old(state).old_data.wf(),
        in_range(speed as int),
        is_normalized(angle as int),
    ensures
        final(state).old_data.wf(),
        rotation_emits(*old(state), speed as int, dt) ==> ({
            &&& r == Some(Data { speed, angle })
            &&& *final(state) == (OutMessageState { delta_time: 0, old_data: Data { speed, angle } })
        }),
        !rotation_emits(*old(state), speed as int, dt) ==> ({
            &&& r is None
            &&& *final(state) == (OutMessageState {
                delta_time: accumulated(old(state).delta_time, dt) as u64,
                ..*old(state)
            })
        }),
{
    let acc: u64 = if state.delta_time <= u64::MAX - dt {
        state.delta_time + dt
    } else {
        u64::MAX
    };
    let old_speed = state.old_data.speed;
    let diff = speed - old_speed;
    let is_changed = diff > OUT_ANGLE_EPSILON || diff < -OUT_ANGLE_EPSILON;
    let is_moved = speed > ANGLE_SPEED_EPSILON || speed < -ANGLE_SPEED_EPSILON;
    let still = -ANGLE_SPEED_EPSILON < speed && speed < ANGLE_SPEED_EPSILON;
    let was_still = -ANGLE_SPEED_EPSILON < old_speed && old_speed < ANGLE_SPEED_EPSILON;
    let edge = is_changed && (still || was_still);
    if (is_changed && acc >= MIN_OUT_DELTA_TIME) || (is_moved && acc >= MAX_OUT_DELTA_TIME) || edge {
        let data = Data { speed, angle };
        state.old_data = data;
        state.delta_time = 0;
        Some(data)
    } else {
        state.delta_time = acc;
        None
    }
}

/// The angle that a remote part is reckoned to have reached: the sent angle carried
/// forward at the sent speed over the time since arrival plus half the one-way delay.
pub open spec fn reckoned_angle(data: Data, since: int, latency: int) -> int {
    if data.speed != 0 {
        crate::angle::normalized(data.angle + scale(data.speed as int, since + latency / 2, MICROS as int))
    } else {
        data.angle as int
    }
}

/// The reckoned angle of a remote part.
pub fn reckon_angle(data: &Data, now: u64, time: u64, latency: u64) -> (r: i64)
    requires
        data.wf(),
    ensures
        r as int == reckoned_angle(*data, elapsed(now, time), capped_latency(latency)),
{
    if data.speed != 0 {
        let since: u64 = if now >= time {
            now - time
        } else {
            0
        };
        let lat: u64 = if latency < MAX_LATENCY {
            latency
        } else {
            MAX_LATENCY
        };
        let span: u128 = since as u128 + (lat / 2) as u128;
        let a: u128 = if data.speed >= 0 {
            data.speed as u128
        } else {
            (-(data.speed as i128)) as u128
        };
        assert(a * span <= MAX_COORD * (u64::MAX as int + MAX_LATENCY)) by (nonlinear_arith)
            requires a <= MAX_COORD, span <= u64::MAX as int + MAX_LATENCY;
        let q: u128 = a * span / (MICROS as u128);
        let turn: i128 = if data.speed >= 0 {
            q as i128
        } else {
            -(q as i128)
        };
        crate::angle::normalize_wide(data.angle as i128 + turn)
    } else {
        data.angle
    }
}

/// The rotation speed after a tick of `dt` from `old_speed`: while the input `rotation`
/// (thousandths) is held, the speed grows so as to reach `max_speed` from rest in
/// `run_time`; once released, it falls to zero in `stop_time`. It never exceeds
/// `max_speed` either way.
pub open spec fn rotation_speed_after(
    dt: int,
    rotation: int,
    max_speed: int,
    old_speed: int,
    run_time: int,
    stop_time: int,
) -> int {
    let s = if rotation != 0 {
        old_speed + scale(rotation * max_speed, dt, run_time * 1000)
    } else {
        let d = max_speed * dt / stop_time;
        if abs(old_speed) > d {
            if old_speed >= 0 {
                old_speed - d
            } else {
                old_speed + d
            }
        } else {
            0
        }
    };
    if s > max_speed {
        max_speed
    } else if s < -max_speed {
        -max_speed
    } else {
        s
    }
}

/// The rotation speed after a tick, ramped up while the input is held and down once it
/// is released.
pub fn calc_rotation_speed(
    delta_time: u64,
    rotation: i64,
    max_speed: i64,
    old_speed: i64,
    run_time: u64,
    stop_time: u64,
) -> (r: i64)
    requires
        delta_time <= crate::angle::MAX_TICK,
        -1000 <= rotation <= 1000,
        0 <= max_speed <= MAX_COORD,
        in_range(old_speed as int),
        run_time > 0,
        stop_time > 0,
    ensures
        r as int == rotation_speed_after(
            delta_time as int,
            rotation as int,
            max_speed as int,
            old_speed as int,
            run_time as int,
            stop_time as int,
        ),
        -max_speed <= r <= max_speed,
{
    let s: i128 = if rotation != 0 {
        let a: u128 = if rotation >= 0 {
            rotation as u128
        } else {
            (-(rotation as i128)) as u128
        };
        assert(a * max_speed as int <= 1000 * MAX_COORD) by (nonlinear_arith)
            requires a <= 1000, 0 <= max_speed <= MAX_COORD;
        let m: u128 = a * max_speed as u128;
        assert(m * delta_time as int <= 1000 * MAX_COORD * crate::angle::MAX_TICK) by (nonlinear_arith)
            requires m <= 1000 * MAX_COORD, delta_time <= crate::angle::MAX_TICK;
        let q: u128 = m * delta_time as u128 / (run_time as u128 * 1000);
        assert(q <= m * delta_time as int) by (nonlinear_arith)
            requires q == m * delta_time as int / (run_time as int * 1000), run_time > 0, m * delta_time as int >= 0;
        proof {
            if rotation >= 0 {
                assert(rotation as int * max_speed as int == m as int) by (nonlinear_arith)
                    requires m == a * max_speed, a == rotation, rotation >= 0;
            } else {
                assert(-(rotation as int * max_speed as int) == m as int) by (nonlinear_arith)
                    requires m == a * max_speed, a == -rotation, rotation < 0;
            }
        }
        if rotation >= 0 {
            old_speed as i128 + q as i128
        } else {
            old_speed as i128 - q as i128
        }
    } else {
        assert(max_speed * delta_time as int <= MAX_COORD * crate::angle::MAX_TICK) by (nonlinear_arith)
            requires 0 <= max_speed <= MAX_COORD, delta_time <= crate::angle::MAX_TICK;
        let d: u128 = max_speed as u128 * delta_time as u128 / stop_time as u128;
        assert(d <= max_speed * delta_time as int) by (nonlinear_arith)
            requires d == max_speed * delta_time as int / stop_time as int, stop_time > 0, max_speed * delta_time as int >= 0;
        let mag: i128 = if old_speed >= 0 {
            old_speed as i128
        } else {
            -(old_speed as i128)
        };
        if mag > d as i128 {
            if old_speed >= 0 {
                old_speed as i128 - d as i128
            } else {
                old_speed as i128 + d as i128
            }
        } else {
            0
        }
    };
    if s > max_speed as i128 {
        max_speed
    } else if s < -(max_speed as i128) {
        -max_speed
    } else {
        s as i64
    }
}

} // verus!
