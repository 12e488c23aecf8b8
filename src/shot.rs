//! Shots fired by remote tanks, brought forward over the network delay.
use vstd::prelude::*;
use crate::body::{capped_latency, MAX_LATENCY};
use crate::game::{ShotData, MICROS};
use crate::geom::{in_range, scale, scale_i64, Vec3, MAX_COORD};

verus! {

/// Gravity, in millimetres per second squared.
pub const GRAVITY: i64 = 9_800;

/// A remote shot as it is reckoned to be now: carried forward along its velocity over
/// the one-way delay, its velocity bent by gravity over the same time.
pub open spec fn compensated(shot: ShotData, latency: int) -> ShotData {
    ShotData {
        is_shot: shot.is_shot,
        pos: Vec3 {
            x: (shot.pos.x + scale(shot.vel.x as int, latency, MICROS as int)) as i64,
            y: (shot.pos.y + scale(shot.vel.y as int, latency, MICROS as int)) as i64,
            z: (shot.pos.z + scale(shot.vel.z as int, latency, MICROS as int)) as i64,
        },
        vel: Vec3 {
            x: shot.vel.x,
            y: (shot.vel.y - scale(GRAVITY as int, latency, MICROS as int)) as i64,
            z: shot.vel.z,
        },
    }
}

/// Brings a shot received from a peer forward over the one-way delay towards it.
pub fn compensate_remote_shot(shot: &ShotData, latency: u64) -> (r: ShotData)
    requires
        shot.pos.bounded(),
        shot.vel.bounded(),
    ensures
        r == compensated(*shot, capped_latency(latency)),
{
    let lat: u64 = if latency < MAX_LATENCY {
        latency
    } else {
        MAX_LATENCY
    };
    proof {
        lemma_carry_bound(shot.vel.x as int, lat as int);
        lemma_carry_bound(shot.vel.y as int, lat as int);
        lemma_carry_bound(shot.vel.z as int, lat as int);
        lemma_carry_bound(GRAVITY as int, lat as int);
    }
    let dx = scale_i64(shot.vel.x, lat, MICROS);
    let dy = scale_i64(shot.vel.y, lat, MICROS);
    let dz = scale_i64(shot.vel.z, lat, MICROS);
    let fall = scale_i64(GRAVITY, lat, MICROS);
    ShotData {
        is_shot: shot.is_shot,
        pos: Vec3 { x: shot.pos.x + dx, y: shot.pos.y + dy, z: shot.pos.z + dz },
        vel: Vec3 { x: shot.vel.x, y: shot.vel.y - fall, z: shot.vel.z },
    }
}

proof fn lemma_carry_bound(v: int, lat: int)
    requires
        in_range(v),
        0 <= lat <= MAX_LATENCY,
    ensures
        crate::geom::abs(v) * lat / (MICROS as int) <= 60 * MAX_COORD,
        crate::geom::abs(scale(v, lat, MICROS as int)) <= 60 * MAX_COORD,
{
    let a = crate::geom::abs(v);
    assert(a * lat / (MICROS as int) <= 60 * MAX_COORD) by (nonlinear_arith)
        requires 0 <= a <= MAX_COORD, 0 <= lat <= MAX_LATENCY;
}

} // verus!
