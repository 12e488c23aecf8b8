//! Fixed-point vectors: millimetres for positions, millimetres per second for
//! velocities, thousandths for input axes.
use vstd::prelude::*;

verus! {

/// The largest coordinate or velocity component that the library takes (about a
/// million kilometres, in millimetres).
pub const MAX_COORD: i64 = 1_099_511_627_776;

/// A component within the library's range.
pub open spec fn in_range(v: int) -> bool {
    -(MAX_COORD as int) <= v <= MAX_COORD as int
}

/// A component of a correction: up to 128 times the range, room enough for a
/// difference between two positions extrapolated over a minute.
pub open spec fn in_shift_range(v: int) -> bool {
    -128 * (MAX_COORD as int) <= v <= 128 * (MAX_COORD as int)
}

/// A vector on the ground plane.
#[derive(Clone, Copy, Debug, PartialEq, Eq, Structural)]
pub struct Vec2 {
    pub x: i64,
    pub y: i64,
}

/// A vector in space; `y` points up.
#[derive(Clone, Copy, Debug, PartialEq, Eq, Structural)]
pub struct Vec3 {
    pub x: i64,
    pub y: i64,
    pub z: i64,
}

impl Vec2 {
    pub open spec fn zero_spec() -> Vec2 {
        Vec2 { x: 0, y: 0 }
    }

    pub open spec fn bounded(&self) -> bool {
        in_range(self.x as int) && in_range(self.y as int)
    }

    /// Whether both components are within range.
    pub fn is_bounded(&self) -> (r: bool)
        ensures
            r == self.bounded(),
    {
        -MAX_COORD <= self.x && self.x <= MAX_COORD && -MAX_COORD <= self.y && self.y <= MAX_COORD
    }

    /// The zero vector.
    pub fn zero() -> (r: Vec2)
        ensures
            r.x == 0 && r.y == 0,
    {
        Vec2 { x: 0, y: 0 }
    }

    /// The squared length, exactly.
    pub fn length_squared(&self) -> (r: i128)
        requires
            self.bounded(),
        ensures
            r as int == len_sq(self.x as int, self.y as int),
    {
        let x = self.x as i128;
        let y = self.y as i128;
        assert(x * x <= (MAX_COORD as i128) * (MAX_COORD as i128)) by (nonlinear_arith)
            requires -(MAX_COORD as int) <= x <= MAX_COORD as int;
        assert(y * y <= (MAX_COORD as i128) * (MAX_COORD as i128)) by (nonlinear_arith)
            requires -(MAX_COORD as int) <= y <= MAX_COORD as int;
        assert(x * x >= 0 && y * y >= 0) by (nonlinear_arith);
        x * x + y * y
    }
}

impl Vec3 {
    pub open spec fn bounded(&self) -> bool {
        in_range(self.x as int) && in_range(self.y as int) && in_range(self.z as int)
    }

    /// Whether all components are within range.
    pub fn is_bounded(&self) -> (r: bool)
        ensures
            r == self.bounded(),
    {
        -MAX_COORD <= self.x && self.x <= MAX_COORD && -MAX_COORD <= self.y && self.y <= MAX_COORD
            && -MAX_COORD <= self.z && self.z <= MAX_COORD
    }

    /// The zero vector.
    pub fn zero() -> (r: Vec3)
        ensures
            r.x == 0 && r.y == 0 && r.z == 0,
    {
        Vec3 { x: 0, y: 0, z: 0 }
    }
}

/// The squared length of `(x, y)`.
pub open spec fn len_sq(x: int, y: int) -> int {
    x * x + y * y
}

/// The absolute value.
pub open spec fn abs(v: int) -> int {
    if v >= 0 {
        v
    } else {
        -v
    }
}

/// `v * num / den`, rounded towards zero.
pub open spec fn scale(v: int, num: int, den: int) -> int {
    if v >= 0 {
        v * num / den
    } else {
        -((-v) * num / den)
    }
}

/// `v * num / den`, rounded towards zero; the result must fit, which it does where
/// `num <= den`.
pub fn scale_i64(v: i64, num: u64, den: u64) -> (r: i64)
    requires
        in_shift_range(v as int),
        den > 0,
        num <= den || abs(v as int) * num as int / den as int <= i64::MAX as int,
    ensures
        r as int == scale(v as int, num as int, den as int),
{
    let a: u128 = if v >= 0 {
        v as u128
    } else {
        (-(v as i128)) as u128
    };
    assert(a as int * num as int <= 128 * (MAX_COORD as int) * (u64::MAX as int)) by (nonlinear_arith)
        requires a <= 128 * (MAX_COORD as int), num <= u64::MAX;
    let p: u128 = a * (num as u128);
    let q: u128 = p / (den as u128);
    proof {
        if num <= den {
            assert(p as int / den as int <= a as int) by (nonlinear_arith)
                requires p == a * num, num <= den, den > 0, a >= 0;
        }
        assert(abs(v as int) == a as int);
    }
    if v >= 0 {
        q as i64
    } else {
        -(q as i64)
    }
}

} // verus!
