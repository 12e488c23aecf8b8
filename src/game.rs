//! Thresholds shared by the throttlers and the reconcilers, and the message router.
use vstd::prelude::*;
use crate::geom::{Vec2, Vec3};

verus! {

/// Heartbeat: a moving entity is sent at least this often, in microseconds.
pub const MAX_OUT_DELTA_TIME: u64 = 1_000_000;

/// Rate limit: a changed state is sent at most this often, in microseconds.
pub const MIN_OUT_DELTA_TIME: u64 = 300_000;

/// One degree in microradians: the smallest heading change worth sending.
pub const OUT_ANGLE_EPSILON: i64 = 17_453;

/// One degree in microradians: the heading error that a correction is issued for.
pub const ANGLE_EPSILON: i64 = 17_453;

/// One degree per second, in microradians per second.
pub const ANGLE_SPEED_EPSILON: i64 = 17_453;

/// Position error worth correcting, in millimetres.
pub const POS_EPSILON: i64 = 30;

/// Velocity, or input axis, taken as zero: millimetres per second, or thousandths.
pub const VEL_EPSILON: i64 = 10;

/// Microseconds in a second.
pub const MICROS: u64 = 1_000_000;

/// The latest state received for a remote entity, with the local time it arrived at.
#[derive(Clone, Copy, Debug, PartialEq, Eq)]
pub struct MesState<T> {
    pub data: T,
    /// Local clock at arrival, in microseconds.
    pub time: u64,
}

/// The outbound throttle of one locally controlled entity: the time since the last
/// emission, and what was emitted then.
#[derive(Clone, Copy, Debug, PartialEq, Eq)]
pub struct OutMessageState<T> {
    /// Microseconds since the last emission.
    pub delta_time: u64,
    pub old_data: T,
}

/// The time from `since` to `now`, or zero for a clock read before `since`.
pub open spec fn elapsed(now: u64, since: u64) -> int {
    if now >= since {
        now - since
    } else {
        0
    }
}

/// The throttle's time after a tick of `dt`, held at the largest value.
pub open spec fn accumulated(delta_time: u64, dt: u64) -> int {
    if delta_time + dt > u64::MAX {
        u64::MAX as int
    } else {
        delta_time + dt
    }
}

/// What a newly met peer is told of the local tank: where it stands and where it heads.
#[derive(Clone, Copy, Debug, PartialEq, Eq, Structural)]
pub struct NewTankData {
    /// Position, in millimetres.
    pub pos: Vec3,
    /// Heading, in microradians.
    pub angle: i64,
}

/// A shot fired: whether it was fired, and where from at what velocity.
#[derive(Clone, Copy, Debug, PartialEq, Eq, Structural)]
pub struct ShotData {
    pub is_shot: bool,
    /// Position, in millimetres.
    pub pos: Vec3,
    /// Velocity, in millimetres per second.
    pub vel: Vec3,
}

/// An explosion: where, how strong, how far it reaches.
#[derive(Clone, Copy, Debug, PartialEq, Eq, Structural)]
pub struct ExplosionData {
    /// Position, in millimetres.
    pub pos: Vec3,
    /// Force, in thousandths.
    pub force: i64,
    /// Radius, in millimetres.
    pub radius: i64,
}

/// A request to spawn the proxy of a remote player.
#[derive(Clone, Copy, Debug, PartialEq, Eq, Structural)]
pub struct NewTank {
    pub handle: usize,
    /// Position on the ground plane, in millimetres.
    pub pos: Vec2,
    /// Heading, in microradians.
    pub angle: i64,
}

/// A message of the game between peers.
#[derive(Clone, Copy, Debug, PartialEq, Eq, Structural)]
pub enum GameMessage {
    /// Carries nothing.
    Empty,
    /// Asks a peer for its tank.
    DataRequest,
    /// A peer's tank, in answer to a request.
    InitData(NewTankData),
    BodyMove(crate::body::Data),
    TurretRotate(crate::rotation::Data),
    CannonRotate(crate::rotation::Data),
    Shot(ShotData),
    Explosion(ExplosionData),
}

impl Default for GameMessage {
    fn default() -> (r: GameMessage)
        ensures
            r == GameMessage::Empty,
    {
        GameMessage::Empty
    }
}

/// A message on the wire: a ping or a pong, each with an id and a counter, or a
/// message of the game.
#[derive(Clone, Copy, Debug, PartialEq, Eq, Structural)]
pub enum NetMessage {
    Ping(u64, u64),
    Pong(u64, u64),
    GameData(GameMessage),
}

} // verus!
