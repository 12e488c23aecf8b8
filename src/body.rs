//! The tank body: its wire state, the throttle that decides when the local body is
//! sent, and the dead reckoning that drives a remote body's proxy.
use vstd::prelude::*;
use crate::angle::{delta_angle, is_normalized, normalize_angle, normalized, HALF_TURN};
use crate::game::{
    accumulated, elapsed, MesState, OutMessageState, ANGLE_EPSILON, ANGLE_SPEED_EPSILON,
    MAX_OUT_DELTA_TIME, MICROS, MIN_OUT_DELTA_TIME, OUT_ANGLE_EPSILON, POS_EPSILON, VEL_EPSILON,
};
use crate::geom::{abs, in_range, in_shift_range, len_sq, scale, scale_i64, Vec2, MAX_COORD};
use crate::tank::TankShift;

verus! {

/// A full input axis, in thousandths.
pub const AXIS_ONE: i64 = 1000;

/// The ramp window: input reaches full wheel speed this long after a key is pressed,
/// in microseconds.
pub const START_DELAY: u64 = 500_000;

/// Wheel speed at full input, per unit of input.
pub const WHEEL_SPEED_MAX: i64 = 10;

/// The largest key-hold time that the wire carries, in milliseconds.
pub const DELAY_CAP_MS: u64 = 10_000;

/// The largest one-way delay that extrapolation uses, in microseconds.
pub const MAX_LATENCY: u64 = 60_000_000;

/// How long a correction is spread over, in microseconds.
pub const SHIFT_TIME: u64 = 1_000_000;

/// Squared wheel speed below which the wheels are left idle, in thousandths squared.
pub const WHEELS_EPSILON_QRT: i64 = 100_000;

/// What a body sends: input, key-hold times, and the physical state at sending.
#[derive(Clone, Copy, Debug, PartialEq, Eq, Structural)]
pub struct Data {
    /// Input axes in thousandths: `x` turns, `y` drives forward.
    pub movement: Vec2,
    /// How long the drive key had been held, in milliseconds.
    pub delta_time_linear: u16,
    /// How long the turn key had been held, in milliseconds.
    pub delta_time_angular: u16,
    /// Position on the ground plane, in millimetres.
    pub pos: Vec2,
    /// Heading, in microradians.
    pub angle: i64,
    /// Velocity on the ground plane, in millimetres per second.
    pub linvel: Vec2,
    /// Turn rate, in microradians per second.
    pub angvel: i64,
}

/// An input axis within a full deflection either way.
pub open spec fn axis_ok(a: i64) -> bool {
    -AXIS_ONE <= a <= AXIS_ONE
}

/// A key-hold time in microseconds as the wire carries it: whole milliseconds, capped.
pub open spec fn to_wire_ms(delta: int) -> int {
    if delta < DELAY_CAP_MS * 1000 {
        delta / 1000
    } else {
        DELAY_CAP_MS as int
    }
}

impl Data {
    /// Axes within a full deflection, key-hold times within the cap, heading
    /// normalised, and every component within range.
    pub open spec fn wf(&self) -> bool {
        &&& axis_ok(self.movement.x)
        &&& axis_ok(self.movement.y)
        &&& self.delta_time_linear <= DELAY_CAP_MS
        &&& self.delta_time_angular <= DELAY_CAP_MS
        &&& self.pos.bounded()
        &&& is_normalized(self.angle as int)
        &&& self.linvel.bounded()
        &&& in_range(self.angvel as int)
    }

    /// Whether the state is well formed, as a received state must be checked to be.
    pub fn is_valid(&self) -> (r: bool)
        ensures
            r == self.wf(),
    {
        -AXIS_ONE <= self.movement.x && self.movement.x <= AXIS_ONE && -AXIS_ONE <= self.movement.y
            && self.movement.y <= AXIS_ONE && self.delta_time_linear as u64 <= DELAY_CAP_MS
            && self.delta_time_angular as u64 <= DELAY_CAP_MS && self.pos.is_bounded()
            && -HALF_TURN < self.angle && self.angle <= HALF_TURN && self.linvel.is_bounded()
            && -MAX_COORD <= self.angvel && self.angvel <= MAX_COORD
    }

    /// Whether the body is driven or in motion.
    pub open spec fn moving(&self) -> bool {
        len_sq(self.movement.x as int, self.movement.y as int) > VEL_EPSILON * VEL_EPSILON
            || len_sq(self.linvel.x as int, self.linvel.y as int) > VEL_EPSILON * VEL_EPSILON
            || abs(self.angvel as int) > ANGLE_SPEED_EPSILON
    }

    /// Whether the body is driven or in motion.
    pub fn is_moved(&self) -> (r: bool)
        requires
            self.wf(),
        ensures
            r == self.moving(),
    {
        self.movement.length_squared() > (VEL_EPSILON * VEL_EPSILON) as i128
            || self.linvel.length_squared() > (VEL_EPSILON * VEL_EPSILON) as i128
            || self.angvel > ANGLE_SPEED_EPSILON || self.angvel < -ANGLE_SPEED_EPSILON
    }

    /// Records how long the drive key has been held, given in microseconds.
    pub fn set_delta_time_linear(&mut self, delta: u64)
        ensures
            *final(self) == (Data { delta_time_linear: to_wire_ms(delta as int) as u16, ..*old(self) }),
    {
        self.delta_time_linear = wire_ms(delta);
    }

    /// Records how long the turn key has been held, given in microseconds.
    pub fn set_delta_time_angular(&mut self, delta: u64)
        ensures
            *final(self) == (Data { delta_time_angular: to_wire_ms(delta as int) as u16, ..*old(self) }),
    {
        self.delta_time_angular = wire_ms(delta);
    }

    /// How long the drive key had been held, in microseconds.
    pub fn get_delta_time_linear(&self) -> (r: u64)
        ensures
            r == self.delta_time_linear as u64 * 1000,
    {
        self.delta_time_linear as u64 * 1000
    }

    /// How long the turn key had been held, in microseconds.
    pub fn get_delta_time_angular(&self) -> (r: u64)
        ensures
            r == self.delta_time_angular as u64 * 1000,
    {
        self.delta_time_angular as u64 * 1000
    }
}

impl Default for Data {
    fn default() -> (r: Data)
        ensures
            r.wf(),
            r.movement == Vec2::zero_spec(),
            r.delta_time_linear == 0,
            r.delta_time_angular == 0,
            r.pos == Vec2::zero_spec(),
            r.angle == 0,
            r.linvel == Vec2::zero_spec(),
            r.angvel == 0,
    {
        Data {
            movement: Vec2::zero(),
            delta_time_linear: 0,
            delta_time_angular: 0,
            pos: Vec2::zero(),
            angle: 0,
            linvel: Vec2::zero(),
            angvel: 0,
        }
    }
}

fn wire_ms(delta: u64) -> (r: u16)
    ensures
        r as int == to_wire_ms(delta as int),
{
    if delta < DELAY_CAP_MS * 1000 {
        (delta / 1000) as u16
    } else {
        DELAY_CAP_MS as u16
    }
}

/// Wheel speed, in thousandths, for input `axis` held for `horizon` microseconds: input
/// ramps linearly to full speed over the ramp window and stays there.
pub open spec fn ramp(axis: int, horizon: int) -> int {
    let held = if horizon < START_DELAY {
        horizon
    } else {
        START_DELAY as int
    };
    scale(axis * WHEEL_SPEED_MAX, held, START_DELAY as int)
}

/// Wheel speed for `axis` held for `horizon` microseconds.
pub fn ramp_speed(axis: i64, horizon: u128) -> (r: i64)
    requires
        axis_ok(axis),
    ensures
        r as int == ramp(axis as int, horizon as int),
        abs(r as int) <= abs(axis as int) * WHEEL_SPEED_MAX,
{
    let held: u64 = if horizon < START_DELAY as u128 {
        horizon as u64
    } else {
        START_DELAY
    };
    let r = scale_i64(axis * WHEEL_SPEED_MAX, held, START_DELAY);
    proof {
        crate::tank::lemma_scale_within(
            axis as int * WHEEL_SPEED_MAX,
            held as int,
            START_DELAY as int,
        );
    }
    r
}

/// The one-way delay used for extrapolation.
pub open spec fn capped_latency(latency: u64) -> int {
    if latency < MAX_LATENCY {
        latency as int
    } else {
        MAX_LATENCY as int
    }
}

/// Input too small to drive.
pub open spec fn stationary(movement: Vec2) -> bool {
    len_sq(movement.x as int, movement.y as int) < VEL_EPSILON * VEL_EPSILON
}

/// The reckoned position: the sent position carried forward by the sent velocity over
/// the one-way delay.
pub open spec fn net_pos(data: Data, latency: int) -> (int, int) {
    (
        data.pos.x + scale(data.linvel.x as int, latency, MICROS as int),
        data.pos.y + scale(data.linvel.y as int, latency, MICROS as int),
    )
}

/// The reckoned heading, likewise.
pub open spec fn net_angle(data: Data, latency: int) -> int {
    data.angle + scale(data.angvel as int, latency, MICROS as int)
}

/// The correction towards the reckoned position and heading for a proxy at `pos`
/// heading `angle`: a shift by the difference when it exceeds the tolerance, or `None`,
/// which drops any shift in progress.
pub open spec fn correction(data: Data, latency: int, pos: Vec2, angle: i64) -> Option<TankShift> {
    let target = net_pos(data, latency);
    let dx = target.0 - pos.x;
    let dy = target.1 - pos.y;
    let dr = normalized(net_angle(data, latency) - angle);
    if len_sq(dx, dy) > POS_EPSILON * POS_EPSILON || abs(dr) > ANGLE_EPSILON {
        Some(TankShift { delta: Vec2 { x: dx as i64, y: dy as i64 }, rotation: dr as i64, time: SHIFT_TIME })
    } else {
        None
    }
}

/// The wheel speeds that drive a proxy as if its remote input were live: each axis
/// ramped over how long its key had been held when sent, plus the time since arrival,
/// plus the one-way delay. `None` for a stationary body, or for speeds too small to
/// turn the wheels.
pub open spec fn drive(data: Data, since: int, latency: int) -> Option<Vec2> {
    if stationary(data.movement) {
        None
    } else {
        let mx = ramp(data.movement.x as int, data.delta_time_angular * 1000 + since + latency);
        let my = ramp(data.movement.y as int, data.delta_time_linear * 1000 + since + latency);
        if len_sq(mx, my) > WHEELS_EPSILON_QRT {
            Some(Vec2 { x: mx as i64, y: my as i64 })
        } else {
            None
        }
    }
}

/// What the reconciler asks of a remote body's proxy this tick.
#[derive(Clone, Copy, Debug, PartialEq, Eq)]
pub struct BodyCorrection {
    /// Wheel speeds to drive with, or `None` to let the wheels idle.
    pub movement: Option<Vec2>,
    /// A shift to start, or `None` to drop any shift in progress.
    pub shift: Option<TankShift>,
}

/// Reconciles a remote body: from its latest state, the time now, and the one-way delay
/// towards its owner, the wheel speeds that reproduce its input and the shift that pulls
/// the proxy, at `pos` heading `angle`, towards where the body is reckoned to be.
pub fn update_body_position_from_net(
    state: &MesState<Data>,
    now: u64,
    latency: u64,
    pos: Vec2,
    angle: i64,
) -> (r: BodyCorrection)
    requires
        state.data.wf(),
        pos.bounded(),
    ensures
        r.movement == drive(state.data, elapsed(now, state.time), capped_latency(latency)),
        r.shift == correction(state.data, capped_latency(latency), pos, angle),
{
    let data = state.data;
    let lat: u64 = if latency < MAX_LATENCY {
        latency
    } else {
        MAX_LATENCY
    };
    let since: u64 = if now >= state.time {
        now - state.time
    } else {
        0
    };
    let movement = if data.movement.length_squared() < (VEL_EPSILON * VEL_EPSILON) as i128 {
        None
    } else {
        let h_lin: u128 = data.get_delta_time_linear() as u128 + since as u128 + lat as u128;
        let h_ang: u128 = data.get_delta_time_angular() as u128 + since as u128 + lat as u128;
        let mx = ramp_speed(data.movement.x, h_ang);
        let my = ramp_speed(data.movement.y, h_lin);
        let m = Vec2 { x: mx, y: my };
        if m.length_squared() > WHEELS_EPSILON_QRT as i128 {
            Some(m)
        } else {
            None
        }
    };
    let shift = body_correction(&data, lat, pos, angle);
    BodyCorrection { movement, shift }
}

fn body_correction(data: &Data, lat: u64, pos: Vec2, angle: i64) -> (r: Option<TankShift>)
    requires
        data.wf(),
        pos.bounded(),
        lat <= MAX_LATENCY,
    ensures
        r == correction(*data, lat as int, pos, angle),
{
    proof {
        lemma_extrapolation_bound(data.linvel.x as int, lat as int);
        lemma_extrapolation_bound(data.linvel.y as int, lat as int);
        lemma_extrapolation_bound(data.angvel as int, lat as int);
    }
    let ex = scale_i64(data.linvel.x, lat, MICROS);
    let ey = scale_i64(data.linvel.y, lat, MICROS);
    let er = scale_i64(data.angvel, lat, MICROS);
    let dx = data.pos.x + ex - pos.x;
    let dy = data.pos.y + ey - pos.y;
    let dr = delta_angle(data.angle + er, angle);
    let d = Vec2 { x: dx, y: dy };
    proof {
        assert(in_shift_range(dx as int));
        assert(in_shift_range(dy as int));
    }
    let bx = dx as i128;
    let by = dy as i128;
    assert(0 <= bx * bx <= 16384 * (MAX_COORD as int) * (MAX_COORD as int)) by (nonlinear_arith)
        requires in_shift_range(bx as int);
    assert(0 <= by * by <= 16384 * (MAX_COORD as int) * (MAX_COORD as int)) by (nonlinear_arith)
        requires in_shift_range(by as int);
    let far = dx as i128 * dx as i128 + dy as i128 * dy as i128 > (POS_EPSILON * POS_EPSILON) as i128;
    if far || dr > ANGLE_EPSILON || dr < -ANGLE_EPSILON {
        Some(TankShift { delta: d, rotation: dr, time: SHIFT_TIME })
    } else {
        None
    }
}

proof fn lemma_extrapolation_bound(v: int, lat: int)
    requires
        in_range(v),
        0 <= lat <= MAX_LATENCY,
    ensures
        abs(v) * lat / (MICROS as int) <= 60 * MAX_COORD,
        abs(scale(v, lat, MICROS as int)) <= 60 * MAX_COORD,
{
    let a = abs(v);
    assert(a * lat / (MICROS as int) <= 60 * MAX_COORD) by (nonlinear_arith)
        requires 0 <= a <= MAX_COORD, 0 <= lat <= MAX_LATENCY;
}

/// Once the horizon reaches the ramp window, the wheel speed is the full input scaled by
/// the top speed, exactly; before that it never exceeds it.
pub proof fn lemma_ramp_clamp(axis: int, horizon: int)
    requires
        -AXIS_ONE <= axis <= AXIS_ONE,
        horizon >= 0,
    ensures
        horizon >= START_DELAY ==> ramp(axis, horizon) == axis * WHEEL_SPEED_MAX,
        abs(ramp(axis, horizon)) <= abs(axis) * WHEEL_SPEED_MAX,
{
    let v = axis * WHEEL_SPEED_MAX;
    let w = START_DELAY as int;
    let held = if horizon < w {
        horizon
    } else {
        w
    };
    crate::tank::lemma_scale_within(v, held, w);
    assert(abs(v) == abs(axis) * WHEEL_SPEED_MAX);
    if horizon >= w {
        assert(abs(v) * w / w == abs(v)) by {
            vstd::arithmetic::div_mod::lemma_div_multiples_vanish(abs(v), w);
        }
    }
}

/// A body whose input is stationary is not driven, however long ago its state arrived;
/// only the correction towards the reckoned position acts, and `correction` takes no
/// elapsed time at all.
pub proof fn lemma_stationary_ignores_elapsed(
    data: Data,
    since_a: int,
    since_b: int,
    latency: int,
)
    requires
        stationary(data.movement),
    ensures
        drive(data, since_a, latency) is None,
        drive(data, since_b, latency) is None,
{
}

/// The driver's input: axes in thousandths, and when each key went down.
#[derive(Clone, Copy, Debug, PartialEq, Eq, Structural)]
pub struct ControlMove {
    pub movement: Vec2,
    /// When the drive key went down, in microseconds.
    pub time_linear: u64,
    /// When the turn key went down, in microseconds.
    pub time_angular: u64,
}

impl ControlMove {
    pub open spec fn wf(&self) -> bool {
        axis_ok(self.movement.x) && axis_ok(self.movement.y)
    }

    /// Whether both axes are within a full deflection.
    pub fn is_valid(&self) -> (r: bool)
        ensures
            r == self.wf(),
    {
        -AXIS_ONE <= self.movement.x && self.movement.x <= AXIS_ONE && -AXIS_ONE <= self.movement.y
            && self.movement.y <= AXIS_ONE
    }
}

/// The local body as the physics reports it this tick.
#[derive(Clone, Copy, Debug, PartialEq, Eq, Structural)]
pub struct BodySample {
    pub pos: Vec2,
    pub angle: i64,
    pub linvel: Vec2,
    pub angvel: i64,
}

impl BodySample {
    pub open spec fn bounded(&self) -> bool {
        self.pos.bounded() && self.linvel.bounded() && in_range(self.angvel as int)
    }

    /// Whether every component is within range.
    pub fn is_bounded(&self) -> (r: bool)
        ensures
            r == self.bounded(),
    {
        self.pos.is_bounded() && self.linvel.is_bounded() && -MAX_COORD <= self.angvel
            && self.angvel <= MAX_COORD
    }
}

/// What the body throttle decides this tick.
#[derive(Clone, Copy, Debug, PartialEq, Eq)]
pub struct BodyControl {
    /// The state to send, if any.
    pub message: Option<Data>,
    /// Wheel speeds for the local drive, or `None` to let the wheels idle.
    pub wheels: Option<Vec2>,
}

/// Wheel speeds of the local drive: each axis ramped over how long its key is held.
pub open spec fn local_wheels(control: ControlMove, now: u64) -> (int, int) {
    (
        ramp(control.movement.x as int, elapsed(now, control.time_angular)),
        ramp(control.movement.y as int, elapsed(now, control.time_linear)),
    )
}

pub open spec fn wheels_on(w: (int, int)) -> bool {
    abs(w.0) > VEL_EPSILON || abs(w.1) > VEL_EPSILON
}

/// Whether the local body is driven or in motion.
pub open spec fn in_motion(control: ControlMove, sample: BodySample, now: u64) -> bool {
    wheels_on(local_wheels(control, now)) || len_sq(sample.linvel.x as int, sample.linvel.y as int)
        >= VEL_EPSILON * VEL_EPSILON || abs(sample.angvel as int) >= ANGLE_SPEED_EPSILON
}

/// Whether the body has moved, turned or changed speed noticeably since `old` was sent.
pub open spec fn changed(old: Data, sample: BodySample) -> bool {
    abs(normalized(sample.angle - old.angle)) > OUT_ANGLE_EPSILON
        || len_sq(sample.pos.x - old.pos.x, sample.pos.y - old.pos.y) > POS_EPSILON * POS_EPSILON
        || len_sq(sample.linvel.x - old.linvel.x, sample.linvel.y - old.linvel.y) > VEL_EPSILON
        * VEL_EPSILON || abs(sample.angvel - old.angvel) > ANGLE_SPEED_EPSILON
}

/// Whether the input went from none to some, or back, since `old` was sent.
pub open spec fn started_or_stopped(old: Data, control: ControlMove) -> bool {
    is_zero(old.movement) != is_zero(control.movement)
}

/// No input on either axis.
pub open spec fn is_zero(v: Vec2) -> bool {
    v.x == 0 && v.y == 0
}

/// Whether the throttle sends this tick: a noticeable change once the rate limit has
/// passed, a heartbeat for a moving body, or at once when the input starts or stops.
pub open spec fn emits(
    state: OutMessageState<Data>,
    control: ControlMove,
    sample: BodySample,
    now: u64,
    dt: u64,
) -> bool {
    let acc = accumulated(state.delta_time, dt);
    (changed(state.old_data, sample) && acc >= MIN_OUT_DELTA_TIME) || (in_motion(
        control,
        sample,
        now,
    ) && acc >= MAX_OUT_DELTA_TIME) || started_or_stopped(state.old_data, control)
}

/// The state that is sent.
pub open spec fn snapshot(control: ControlMove, sample: BodySample, now: u64) -> Data {
    Data {
        movement: control.movement,
        delta_time_linear: to_wire_ms(elapsed(now, control.time_linear)) as u16,
        delta_time_angular: to_wire_ms(elapsed(now, control.time_angular)) as u16,
        pos: sample.pos,
        angle: normalized(sample.angle as int) as i64,
        linvel: sample.linvel,
        angvel: sample.angvel,
    }
}

/// The throttle after a tick.
pub open spec fn throttled(
    state: OutMessageState<Data>,
    control: ControlMove,
    sample: BodySample,
    now: u64,
    dt: u64,
) -> OutMessageState<Data> {
    if emits(state, control, sample, now, dt) {
        OutMessageState { delta_time: 0, old_data: snapshot(control, sample, now) }
    } else {
        OutMessageState { delta_time: accumulated(state.delta_time, dt) as u64, ..state }
    }
}

/// Runs the throttle of the local body for one tick of `dt` ending at `now`: returns the
/// state to send, if any, and the wheel speeds of the local drive.
pub fn update_player_body_control(
    state: &mut OutMessageState<Data>,
    control: &ControlMove,
    sample: &BodySample,
    now: u64,
    dt: u64,
) -> (r: BodyControl)
    requires
        old(state).old_data.wf(),
        control.wf(),
        sample.bounded(),
    ensures
        *final(state) == throttled(*old(state), *control, *sample, now, dt),
        final(state).old_data.wf(),
        r.message == if emits(*old(state), *control, *sample, now, dt) {
            Some(snapshot(*control, *sample, now))
        } else {
            None
        },
        r.wheels == if wheels_on(local_wheels(*control, now)) {
            Some(
                Vec2 {
                    x: local_wheels(*control, now).0 as i64,
                    y: local_wheels(*control, now).1 as i64,
                },
            )
        } else {
            None
        },
{
    let acc: u64 = if state.delta_time <= u64::MAX - dt {
        state.delta_time + dt
    } else {
        u64::MAX
    };
    let held_linear: u64 = if now >= control.time_linear {
        now - control.time_linear
    } else {
        0
    };
    let held_angular: u64 = if now >= control.time_angular {
        now - control.time_angular
    } else {
        0
    };
    let move_y = ramp_speed(control.movement.y, held_linear as u128);
    let move_x = ramp_speed(control.movement.x, held_angular as u128);
    let wheels_active = move_y > VEL_EPSILON || move_y < -VEL_EPSILON || move_x > VEL_EPSILON
        || move_x < -VEL_EPSILON;
    let wheels = if wheels_active {
        Some(Vec2 { x: move_x, y: move_y })
    } else {
        None
    };
    let moving = wheels_active || sample.linvel.length_squared() >= (VEL_EPSILON
        * VEL_EPSILON) as i128 || sample.angvel >= ANGLE_SPEED_EPSILON || sample.angvel
        <= -ANGLE_SPEED_EPSILON;
    let old = state.old_data;
    let turned = delta_angle(sample.angle, old.angle);
    let dpos = Vec2 { x: sample.pos.x - old.pos.x, y: sample.pos.y - old.pos.y };
    let dvel = Vec2 { x: sample.linvel.x - old.linvel.x, y: sample.linvel.y - old.linvel.y };
    let dang = sample.angvel - old.angvel;
    let is_changed = turned > OUT_ANGLE_EPSILON || turned < -OUT_ANGLE_EPSILON
        || square_len(dpos) > (POS_EPSILON * POS_EPSILON) as i128 || square_len(dvel) > (
    VEL_EPSILON * VEL_EPSILON) as i128 || dang > ANGLE_SPEED_EPSILON || dang
        < -ANGLE_SPEED_EPSILON;
    let was_still = old.movement.x == 0 && old.movement.y == 0;
    let is_still = control.movement.x == 0 && control.movement.y == 0;
    let is_started_or_stopped = was_still != is_still;
    if (is_changed && acc >= MIN_OUT_DELTA_TIME) || (moving && acc >= MAX_OUT_DELTA_TIME)
        || is_started_or_stopped {
        let mut data = Data {
            movement: control.movement,
            delta_time_linear: 0,
            delta_time_angular: 0,
            pos: sample.pos,
            angle: normalize_angle(sample.angle),
            linvel: sample.linvel,
            angvel: sample.angvel,
        };
        data.set_delta_time_linear(held_linear);
        data.set_delta_time_angular(held_angular);
        state.old_data = data;
        state.delta_time = 0;
        BodyControl { message: Some(data), wheels }
    } else {
        state.delta_time = acc;
        BodyControl { message: None, wheels }
    }
}

/// The squared length of a difference of two positions in range.
fn square_len(v: Vec2) -> (r: i128)
    requires
        abs(v.x as int) <= 2 * MAX_COORD,
        abs(v.y as int) <= 2 * MAX_COORD,
    ensures
        r as int == len_sq(v.x as int, v.y as int),
{
    let x = v.x as i128;
    let y = v.y as i128;
    assert(0 <= x * x <= 4 * (MAX_COORD as int) * (MAX_COORD as int)) by (nonlinear_arith)
        requires abs(x as int) <= 2 * MAX_COORD;
    assert(0 <= y * y <= 4 * (MAX_COORD as int) * (MAX_COORD as int)) by (nonlinear_arith)
        requires abs(y as int) <= 2 * MAX_COORD;
    x * x + y * y
}

/// The throttle after a run of ticks, each given as its end time and length, with the
/// same input and the same physical state throughout.
pub open spec fn throttle_run(
    state: OutMessageState<Data>,
    control: ControlMove,
    sample: BodySample,
    ticks: Seq<(u64, u64)>,
) -> OutMessageState<Data>
    decreases ticks.len(),
{
    if ticks.len() == 0 {
        state
    } else {
        let t = ticks.last();
        throttled(throttle_run(state, control, sample, ticks.drop_last()), control, sample, t.0, t.1)
    }
}

/// Whether any tick of the run sends.
pub open spec fn run_emits(
    state: OutMessageState<Data>,
    control: ControlMove,
    sample: BodySample,
    ticks: Seq<(u64, u64)>,
) -> bool
    decreases ticks.len(),
{
    if ticks.len() == 0 {
        false
    } else {
        let t = ticks.last();
        run_emits(state, control, sample, ticks.drop_last()) || emits(
            throttle_run(state, control, sample, ticks.drop_last()),
            control,
            sample,
            t.0,
            t.1,
        )
    }
}

/// The total length of a run of ticks.
pub open spec fn run_time(ticks: Seq<(u64, u64)>) -> int
    decreases ticks.len(),
{
    if ticks.len() == 0 {
        0
    } else {
        run_time(ticks.drop_last()) + ticks.last().1
    }
}

/// A body whose state and input are exactly as last sent is not sent again, over any
/// number of ticks, until the heartbeat interval has passed: the throttle only counts
/// the time.
pub proof fn lemma_quiet_when_unchanged(
    state: OutMessageState<Data>,
    control: ControlMove,
    sample: BodySample,
    ticks: Seq<(u64, u64)>,
)
    requires
        state.old_data.wf(),
        control.movement == state.old_data.movement,
        sample.pos == state.old_data.pos,
        sample.angle == state.old_data.angle,
        sample.linvel == state.old_data.linvel,
        sample.angvel == state.old_data.angvel,
        state.delta_time + run_time(ticks) < MAX_OUT_DELTA_TIME,
    ensures
        !run_emits(state, control, sample, ticks),
        throttle_run(state, control, sample, ticks) == (OutMessageState {
            delta_time: (state.delta_time + run_time(ticks)) as u64,
            ..state
        }),
    decreases ticks.len(),
{
    if ticks.len() > 0 {
        let rest = ticks.drop_last();
        let t = ticks.last();
        assert(run_time(ticks) == run_time(rest) + t.1);
        assert(run_time(rest) >= 0) by {
            lemma_run_time_nonneg(rest);
        }
        lemma_quiet_when_unchanged(state, control, sample, rest);
        let before = throttle_run(state, control, sample, rest);
        assert(normalized(sample.angle - state.old_data.angle) == 0);
        assert(!changed(before.old_data, sample));
        assert(!emits(before, control, sample, t.0, t.1));
    }
}

proof fn lemma_run_time_nonneg(ticks: Seq<(u64, u64)>)
    ensures
        run_time(ticks) >= 0,
    decreases ticks.len(),
{
    if ticks.len() > 0 {
        lemma_run_time_nonneg(ticks.drop_last());
    }
}

} // verus!
