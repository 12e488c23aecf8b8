//! The corrections applied to a remote tank's proxy body: a gradual shift, or an
//! instantaneous placement.
use vstd::prelude::*;
use crate::angle::{is_normalized, normalize_angle, normalized, HALF_TURN};
use crate::geom::{abs, in_shift_range, scale, scale_i64, Vec2, Vec3, MAX_COORD};

verus! {

/// A correction still to be applied gradually: what remains of the position and
/// heading change, and the time over which it remains to be spread.
#[derive(Clone, Copy, Debug, PartialEq, Eq, Structural)]
pub struct TankShift {
    /// Ground-plane change still to apply, in millimetres (`x`, and `y` for the world's `z`).
    pub delta: Vec2,
    /// Heading change still to apply, in microradians.
    pub rotation: i64,
    /// Time left, in microseconds.
    pub time: u64,
}

/// An absolute placement: position and heading.
#[derive(Clone, Copy, Debug, PartialEq, Eq, Structural)]
pub struct TankPlace {
    pub pos: Vec3,
    pub angle: i64,
}

/// The part of a remaining amount `v` that falls in a tick of `dt` out of `time`.
pub open spec fn share(v: int, dt: int, time: int) -> int {
    if dt >= time {
        v
    } else {
        scale(v, dt, time)
    }
}

/// The shift left after a tick of `dt`.
pub open spec fn shift_after(s: TankShift, dt: u64) -> TankShift {
    TankShift {
        delta: Vec2 {
            x: (s.delta.x - share(s.delta.x as int, dt as int, s.time as int)) as i64,
            y: (s.delta.y - share(s.delta.y as int, dt as int, s.time as int)) as i64,
        },
        rotation: (s.rotation - share(s.rotation as int, dt as int, s.time as int)) as i64,
        time: if dt >= s.time {
            0
        } else {
            (s.time - dt) as u64
        },
    }
}

/// `p` moved by `(dx, dy, dz)`.
pub open spec fn moved(p: Vec3, dx: int, dy: int, dz: int) -> Vec3 {
    Vec3 { x: (p.x + dx) as i64, y: (p.y + dy) as i64, z: (p.z + dz) as i64 }
}

/// The zero vector.
pub open spec fn zero3() -> Vec3 {
    Vec3 { x: 0, y: 0, z: 0 }
}

/// The shift left after a run of ticks.
pub open spec fn shift_run(s: TankShift, dts: Seq<u64>) -> TankShift
    decreases dts.len(),
{
    if dts.len() == 0 {
        s
    } else {
        shift_after(shift_run(s, dts.drop_last()), dts.last())
    }
}

/// The total time of a run of ticks.
pub open spec fn total_time(dts: Seq<u64>) -> int
    decreases dts.len(),
{
    if dts.len() == 0 {
        0
    } else {
        total_time(dts.drop_last()) + dts.last()
    }
}

impl TankShift {
    pub open spec fn bounded(&self) -> bool {
        in_shift_range(self.delta.x as int) && in_shift_range(self.delta.y as int)
            && in_shift_range(self.rotation as int)
    }

    /// Whether nothing is left to apply.
    pub open spec fn is_done(&self) -> bool {
        self.time == 0 && self.delta.x == 0 && self.delta.y == 0 && self.rotation == 0
    }

    /// Takes the share of one tick of `dt` out of the shift and returns it as position
    /// and heading change. A tick that reaches the end takes all that remains.
    pub fn step(&mut self, dt: u64) -> (r: (Vec2, i64))
        requires
            old(self).bounded(),
        ensures
            *final(self) == shift_after(*old(self), dt),
            final(self).bounded(),
            r.0.x == share(old(self).delta.x as int, dt as int, old(self).time as int),
            r.0.y == share(old(self).delta.y as int, dt as int, old(self).time as int),
            r.1 == share(old(self).rotation as int, dt as int, old(self).time as int),
            in_shift_range(r.0.x as int),
            in_shift_range(r.0.y as int),
            in_shift_range(r.1 as int),
    {
        if dt >= self.time {
            let out = (self.delta, self.rotation);
            self.delta = Vec2 { x: 0, y: 0 };
            self.rotation = 0;
            self.time = 0;
            out
        } else {
            let dx = scale_i64(self.delta.x, dt, self.time);
            let dy = scale_i64(self.delta.y, dt, self.time);
            let dr = scale_i64(self.rotation, dt, self.time);
            proof {
                lemma_scale_within(self.delta.x as int, dt as int, self.time as int);
                lemma_scale_within(self.delta.y as int, dt as int, self.time as int);
                lemma_scale_within(self.rotation as int, dt as int, self.time as int);
            }
            self.delta = Vec2 { x: self.delta.x - dx, y: self.delta.y - dy };
            self.rotation = self.rotation - dr;
            self.time = self.time - dt;
            (Vec2 { x: dx, y: dy }, dr)
        }
    }
}

/// A share never exceeds what it is a share of, and has its sign.
pub proof fn lemma_scale_within(v: int, num: int, den: int)
    requires
        0 <= num <= den,
        den > 0,
    ensures
        abs(scale(v, num, den)) <= abs(v),
        abs(v - scale(v, num, den)) <= abs(v),
        v >= 0 ==> 0 <= scale(v, num, den) <= v,
        v < 0 ==> v <= scale(v, num, den) <= 0,
{
    let a = abs(v);
    assert(0 <= a * num / den <= a) by (nonlinear_arith)
        requires a >= 0, 0 <= num <= den, den > 0;
}

/// What a run of ticks has applied in all: position change along `x` and `z`, and heading change.
pub open spec fn shift_applied(s: TankShift, dts: Seq<u64>) -> (int, int, int)
    decreases dts.len(),
{
    if dts.len() == 0 {
        (0, 0, 0)
    } else {
        let before = shift_run(s, dts.drop_last());
        let prev = shift_applied(s, dts.drop_last());
        let dt = dts.last() as int;
        (
            prev.0 + share(before.delta.x as int, dt, before.time as int),
            prev.1 + share(before.delta.y as int, dt, before.time as int),
            prev.2 + share(before.rotation as int, dt, before.time as int),
        )
    }
}

proof fn lemma_shift_run(s: TankShift, dts: Seq<u64>)
    requires
        s.bounded(),
    ensures
        shift_run(s, dts).bounded(),
        shift_run(s, dts).time as int == if total_time(dts) >= s.time {
            0
        } else {
            s.time - total_time(dts)
        },
        shift_applied(s, dts).0 + shift_run(s, dts).delta.x == s.delta.x,
        shift_applied(s, dts).1 + shift_run(s, dts).delta.y == s.delta.y,
        shift_applied(s, dts).2 + shift_run(s, dts).rotation == s.rotation,
    decreases dts.len(),
{
    if dts.len() > 0 {
        let rest = dts.drop_last();
        lemma_shift_run(s, rest);
        let b = shift_run(s, rest);
        let dt = dts.last();
        assert(total_time(dts) == total_time(rest) + dt);
        if dt < b.time {
            lemma_scale_within(b.delta.x as int, dt as int, b.time as int);
            lemma_scale_within(b.delta.y as int, dt as int, b.time as int);
            lemma_scale_within(b.rotation as int, dt as int, b.time as int);
        }
    }
}

/// A shift spread over its duration is used up by any run of ticks that lasts at least
/// that long: nothing is left, and the pieces applied add up to exactly the change it
/// carried, with no overshoot.
pub proof fn lemma_shift_consumed(s: TankShift, dts: Seq<u64>)
    requires
        s.bounded(),
        dts.len() > 0,
        total_time(dts) >= s.time,
    ensures
        shift_run(s, dts).is_done(),
        shift_applied(s, dts) == (s.delta.x as int, s.delta.y as int, s.rotation as int),
{
    lemma_shift_run(s, dts);
    let rest = dts.drop_last();
    lemma_shift_run(s, rest);
    let b = shift_run(s, rest);
    let dt = dts.last();
    assert(total_time(dts) == total_time(rest) + dt);
    if dt < b.time {
        assert(b.time == s.time - total_time(rest));
        assert(false);
    }
}

/// The proxy body of a remote tank, as far as corrections touch it: its transform, its
/// motion, the forces on it, the bodies rigidly attached to it (axles and wheels), and
/// the shift in progress.
#[derive(Clone, Debug)]
pub struct ProxyBody {
    pub pos: Vec3,
    pub angle: i64,
    pub linvel: Vec3,
    pub angvel: Vec3,
    pub force: Vec3,
    pub torque: Vec3,
    pub parts: Vec<Vec3>,
    pub shift: Option<TankShift>,
}

impl TankShift {
    /// Whether every component is within the range of a correction.
    pub fn is_bounded(&self) -> (r: bool)
        ensures
            r == self.bounded(),
    {
        let m: i64 = 128 * MAX_COORD;
        -m <= self.delta.x && self.delta.x <= m && -m <= self.delta.y && self.delta.y <= m && -m
            <= self.rotation && self.rotation <= m
    }
}

impl ProxyBody {
    /// Whether every coordinate is within range, as corrections require.
    pub fn is_bounded(&self) -> (r: bool)
        ensures
            r == self.bounded(),
    {
        if !self.pos.is_bounded() || !(-HALF_TURN < self.angle && self.angle <= HALF_TURN) {
            return false;
        }
        if let Some(s) = self.shift {
            if !s.is_bounded() {
                return false;
            }
        }
        let mut i: usize = 0;
        while i < self.parts.len()
            invariant
                i <= self.parts@.len(),
                forall|j: int| 0 <= j < i ==> (#[trigger] self.parts@[j]).bounded(),
            decreases self.parts@.len() - i,
        {
            if !self.parts[i].is_bounded() {
                return false;
            }
            i = i + 1;
        }
        true
    }

    /// Every coordinate within range, so that a correction cannot overflow.
    pub open spec fn bounded(&self) -> bool {
        &&& self.pos.bounded()
        &&& is_normalized(self.angle as int)
        &&& forall|i: int| 0 <= i < self.parts@.len() ==> (#[trigger] self.parts@[i]).bounded()
        &&& match self.shift {
            Some(s) => s.bounded(),
            None => true,
        }
    }
}

/// Applies one tick of the pending shift, if any, to the body and its attached parts.
/// The shift is dropped once its time has run out.
pub fn tank_shift(body: &mut ProxyBody, dt: u64)
    requires
        old(body).bounded(),
    ensures
        match old(body).shift {
            None => *final(body) == *old(body),
            Some(s) => {
                let dx = share(s.delta.x as int, dt as int, s.time as int);
                let dz = share(s.delta.y as int, dt as int, s.time as int);
                let dr = share(s.rotation as int, dt as int, s.time as int);
                let rest = shift_after(s, dt);
                &&& final(body).pos == moved(old(body).pos, dx, 0, dz)
                &&& final(body).angle == normalized(old(body).angle + dr)
                &&& final(body).parts@.len() == old(body).parts@.len()
                &&& forall|i: int|
                    0 <= i < old(body).parts@.len() ==> #[trigger] final(body).parts@[i] == moved(
                        old(body).parts@[i],
                        dx,
                        0,
                        dz,
                    )
                &&& final(body).shift == if rest.time > 0 {
                    Some(rest)
                } else {
                    None
                }
                &&& final(body).linvel == old(body).linvel
                &&& final(body).angvel == old(body).angvel
                &&& final(body).force == old(body).force
                &&& final(body).torque == old(body).torque
            },
        },
{
    match body.shift {
        None => {},
        Some(s) => {
            let mut rest = s;
            let (d, dr) = rest.step(dt);
            body.pos = Vec3 { x: body.pos.x + d.x, y: body.pos.y, z: body.pos.z + d.y };
            body.angle = normalize_angle(body.angle + dr);
            move_parts(&mut body.parts, d.x, 0, d.y);
            body.shift = if rest.time > 0 {
                Some(rest)
            } else {
                None
            };
        },
    }
}

/// Moves every attached part by `(dx, dy, dz)`.
fn move_parts(parts: &mut Vec<Vec3>, dx: i64, dy: i64, dz: i64)
    requires
        forall|i: int| 0 <= i < old(parts)@.len() ==> (#[trigger] old(parts)@[i]).bounded(),
        in_shift_range(dx as int),
        in_shift_range(dy as int),
        in_shift_range(dz as int),
    ensures
        final(parts)@.len() == old(parts)@.len(),
        forall|i: int|
            0 <= i < old(parts)@.len() ==> #[trigger] final(parts)@[i] == moved(
                old(parts)@[i],
                dx as int,
                dy as int,
                dz as int,
            ),
{
    let ghost start = parts@;
    let mut i: usize = 0;
    while i < parts.len()
        invariant
            parts@.len() == start.len(),
            i <= parts@.len(),
            forall|j: int| 0 <= j < start.len() ==> (#[trigger] start[j]).bounded(),
            in_shift_range(dx as int),
            in_shift_range(dy as int),
            in_shift_range(dz as int),
            forall|j: int|
                0 <= j < i ==> #[trigger] parts@[j] == moved(start[j], dx as int, dy as int, dz as int),
            forall|j: int| i <= j < parts@.len() ==> #[trigger] parts@[j] == start[j],
        decreases parts@.len() - i,
    {
        let p = parts[i];
        assert(p == start[i as int]);
        parts.set(i, Vec3 { x: p.x + dx, y: p.y + dy, z: p.z + dz });
        i = i + 1;
    }
}

/// Places the body at `place` at once: its motion and the forces on it are cleared,
/// the attached parts move by the same offset in all three axes, and any shift in progress is dropped.
pub fn tank_place(body: &mut ProxyBody, place: TankPlace)
    requires
        old(body).bounded(),
        place.pos.bounded(),
    ensures
        final(body).pos == place.pos,
        final(body).angle == normalized(place.angle as int),
        final(body).linvel == zero3(),
        final(body).angvel == zero3(),
        final(body).force == zero3(),
        final(body).torque == zero3(),
        final(body).shift is None,
        final(body).parts@.len() == old(body).parts@.len(),
        forall|i: int|
            0 <= i < old(body).parts@.len() ==> #[trigger] final(body).parts@[i] == moved(
                old(body).parts@[i],
                place.pos.x - old(body).pos.x,
                place.pos.y - old(body).pos.y,
                place.pos.z - old(body).pos.z,
            ),
{
    body.linvel = Vec3::zero();
    body.angvel = Vec3::zero();
    body.force = Vec3::zero();
    body.torque = Vec3::zero();
    let dx = place.pos.x - body.pos.x;
    let dy = place.pos.y - body.pos.y;
    let dz = place.pos.z - body.pos.z;
    body.pos = place.pos;
    body.angle = normalize_angle(place.angle);
    move_parts(&mut body.parts, dx, dy, dz);
    body.shift = None;
}

} // verus!
