//! Angles in fixed point: microradians held in `i64`.
use vstd::prelude::*;
use crate::geom::{abs, in_range, scale, scale_i64};

verus! {

/// Half a turn (pi) in microradians.
pub const HALF_TURN: i64 = 3_141_593;

/// A full turn (two pi) in microradians.
pub const FULL_TURN: i64 = 6_283_186;

/// The representative of `a` in `(-HALF_TURN, HALF_TURN]`.
pub open spec fn normalized(a: int) -> int {
    let r = a % (FULL_TURN as int);
    if r > HALF_TURN as int {
        r - FULL_TURN as int
    } else {
        r
    }
}

/// An angle already in `(-HALF_TURN, HALF_TURN]`.
pub open spec fn is_normalized(a: int) -> bool {
    -(HALF_TURN as int) < a <= HALF_TURN as int
}

/// Wraps an angle into `(-pi, pi]`.
pub fn normalize_angle(a: i64) -> (r: i64)
    ensures
        r as int == normalized(a as int),
        is_normalized(r as int),
{
    let m = a % FULL_TURN;
    let m = if m < 0 {
        m + FULL_TURN
    } else {
        m
    };
    if m > HALF_TURN {
        m - FULL_TURN
    } else {
        m
    }
}

/// The signed shortest turn from `from` to `to`, in `(-pi, pi]`.
pub fn delta_angle(to: i64, from: i64) -> (r: i64)
    ensures
        r as int == normalized(to as int - from as int),
        is_normalized(r as int),
{
    let d: i128 = to as i128 - from as i128;
    let m = (d % (FULL_TURN as i128)) as i64;
    let m = if m < 0 {
        m + FULL_TURN
    } else {
        m
    };
    if m > HALF_TURN {
        m - FULL_TURN
    } else {
        m
    }
}

/// Normalising lands in `(-pi, pi]`, and normalising a second time changes nothing.
pub proof fn lemma_normalize_idempotent(a: int)
    ensures
        is_normalized(normalized(a)),
        normalized(normalized(a)) == normalized(a),
{
    let n = normalized(a);
    let t = FULL_TURN as int;
    let r = a % t;
    assert(0 <= r < t);
    if r > HALF_TURN as int {
        assert(n == r - t);
        assert((r - t) % t == r) by {
            vstd::arithmetic::div_mod::lemma_mod_add_multiples_vanish(r, t);
            vstd::arithmetic::div_mod::lemma_small_mod(r as nat, t as nat);
            assert(r - t + t == r);
            vstd::arithmetic::div_mod::lemma_mod_sub_multiples_vanish(r, t);
        }
    } else {
        assert(n == r);
        vstd::arithmetic::div_mod::lemma_small_mod(r as nat, t as nat);
    }
}

/// Wraps a wide angle into `(-pi, pi]`.
pub fn normalize_wide(a: i128) -> (r: i64)
    ensures
        r as int == normalized(a as int),
        is_normalized(r as int),
{
    let m = (a % (FULL_TURN as i128)) as i64;
    let m = if m < 0 {
        m + FULL_TURN
    } else {
        m
    };
    if m > HALF_TURN {
        m - FULL_TURN
    } else {
        m
    }
}

/// The longest tick that turn limits take, in microseconds: one minute.
pub const MAX_TICK: u64 = 60_000_000;

/// The turn from `old` towards `target` in a tick of `dt` for a part turning at
/// `rot_speed`: the whole shortest turn where the speed covers it; otherwise the turn
/// that the speed allows, in the direction of the target, plus a catch-up of the
/// remaining turn in proportion to the tick.
pub open spec fn turn_limited(target: int, old: int, rot_speed: int, dt: int) -> int {
    let delta = normalized(target - old);
    let max_delta = abs(rot_speed) * dt / 1_000_000;
    if abs(delta) > max_delta {
        (if delta >= 0 {
            max_delta
        } else {
            -max_delta
        }) + scale(delta, dt, 1_000_000)
    } else {
        delta
    }
}

/// The turn from `old` towards `target` in one tick, limited by the rotation speed.
pub fn delta_angle_max(target: i64, old: i64, rot_speed: i64, dt: u64) -> (r: i64)
    requires
        in_range(rot_speed as int),
        dt <= MAX_TICK,
    ensures
        r as int == turn_limited(target as int, old as int, rot_speed as int, dt as int),
{
    let delta = delta_angle(target, old);
    let speed: u128 = if rot_speed >= 0 {
        rot_speed as u128
    } else {
        (-(rot_speed as i128)) as u128
    };
    assert(speed * dt as int <= crate::geom::MAX_COORD * MAX_TICK) by (nonlinear_arith)
        requires speed <= crate::geom::MAX_COORD, dt <= MAX_TICK;
    let max_delta = (speed * dt as u128 / 1_000_000) as i64;
    let big = if delta >= 0 {
        delta > max_delta
    } else {
        -delta > max_delta
    };
    if big {
        assert(abs(delta as int) * dt as int / 1_000_000 <= HALF_TURN * MAX_TICK) by (nonlinear_arith)
            requires abs(delta as int) <= HALF_TURN, dt <= MAX_TICK;
        let catch_up = scale_i64(delta, dt, 1_000_000);
        proof {
            assert(abs(scale(delta as int, dt as int, 1_000_000)) <= abs(delta as int) * dt as int / 1_000_000);
        }
        let step = if delta >= 0 {
            max_delta
        } else {
            -max_delta
        };
        step + catch_up
    } else {
        delta
    }
}

/// The heading after one tick of turning from `old` towards `target`, limited by the
/// rotation speed, normalised.
pub fn calc_angle(target: i64, old: i64, rot_speed: i64, dt: u64) -> (r: i64)
    requires
        in_range(rot_speed as int),
        dt <= MAX_TICK,
    ensures
        r as int == normalized(old + turn_limited(target as int, old as int, rot_speed as int, dt as int)),
{
    let delta = delta_angle_max(target, old, rot_speed, dt);
    normalize_wide(old as i128 + delta as i128)
}

} // verus!
