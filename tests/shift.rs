use tank_netsync::game::ShotData;
use tank_netsync::shot::compensate_remote_shot;
use tank_netsync::geom::{Vec2, Vec3};
use tank_netsync::tank::{tank_place, tank_shift, ProxyBody, TankPlace, TankShift};

fn shift() -> TankShift {
    TankShift { delta: Vec2 { x: 1000, y: -500 }, rotation: 30_000, time: 1_000_000 }
}

fn v3(x: i64, y: i64, z: i64) -> Vec3 {
    Vec3 { x, y, z }
}

#[test]
fn shift_is_consumed_exactly_over_its_duration() {
    let mut s = shift();
    let mut total = (0i64, 0i64, 0i64);
    for _ in 0..10 {
        let (d, r) = s.step(100_000);
        assert_eq!((d.x, d.y, r), (100, -50, 3_000));
        total = (total.0 + d.x, total.1 + d.y, total.2 + r);
    }
    assert_eq!(total, (1000, -500, 30_000));
    assert_eq!(s, TankShift { delta: Vec2 { x: 0, y: 0 }, rotation: 0, time: 0 });
}

#[test]
fn shift_last_tick_takes_the_rest() {
    let mut s = shift();
    let mut pieces = Vec::new();
    for _ in 0..4 {
        let (d, r) = s.step(300_000);
        pieces.push((d.x, d.y, r));
    }
    assert_eq!(pieces, vec![(300, -150, 9_000), (300, -150, 9_000), (300, -150, 9_000), (100, -50, 3_000)]);
    assert_eq!(s.time, 0);
    assert_eq!(s.delta, Vec2 { x: 0, y: 0 });
}

fn proxy() -> ProxyBody {
    ProxyBody {
        pos: v3(100, 0, 100),
        angle: 0,
        linvel: v3(1, 2, 3),
        angvel: v3(0, 4, 0),
        force: v3(5, 0, 0),
        torque: v3(0, 6, 0),
        parts: vec![v3(110, 5, 110), v3(90, 5, 90)],
        shift: Some(shift()),
    }
}

#[test]
fn tank_shift_moves_body_and_parts() {
    let mut b = proxy();
    tank_shift(&mut b, 500_000);
    assert_eq!(b.pos, v3(600, 0, -150));
    assert_eq!(b.angle, 15_000);
    assert_eq!(b.parts, vec![v3(610, 5, -140), v3(590, 5, -160)]);
    assert_eq!(b.shift.unwrap().time, 500_000);
    tank_shift(&mut b, 500_000);
    assert_eq!(b.pos, v3(1100, 0, -400));
    assert_eq!(b.angle, 30_000);
    assert_eq!(b.shift, None);
    assert_eq!(b.linvel, v3(1, 2, 3));
    tank_shift(&mut b, 500_000);
    assert_eq!(b.pos, v3(1100, 0, -400));
}

#[test]
fn tank_place_resets_motion_and_moves_parts() {
    let mut b = proxy();
    tank_place(&mut b, TankPlace { pos: v3(1000, 50, 2000), angle: 7_000_000 });
    assert_eq!(b.pos, v3(1000, 50, 2000));
    assert_eq!(b.angle, 716_814);
    assert_eq!(b.linvel, v3(0, 0, 0));
    assert_eq!(b.angvel, v3(0, 0, 0));
    assert_eq!(b.force, v3(0, 0, 0));
    assert_eq!(b.torque, v3(0, 0, 0));
    assert_eq!(b.parts, vec![v3(1010, 55, 2010), v3(990, 55, 1990)]);
    assert_eq!(b.shift, None);
}

#[test]
fn remote_shot_is_brought_forward() {
    let shot = ShotData { is_shot: true, pos: v3(0, 1000, 0), vel: v3(10_000, 5_000, -2_000) };
    let r = compensate_remote_shot(&shot, 100_000);
    assert_eq!(r, ShotData { is_shot: true, pos: v3(1000, 1500, -200), vel: v3(10_000, 4_020, -2_000) });
    let far = compensate_remote_shot(&shot, u64::MAX);
    assert_eq!(far.pos, v3(600_000, 301_000, -120_000));
}
