use cubespin::engine::SimulationState;
use cubespin::geometry::{rotate_in_plane, Point3, RotationFrame};
use cubespin::render::render_scene;
use cubespin::trig::{cos_fx, range_reduce, sin_fx};
use cubespin::{PI_FX, SCALE, TWO_PI_FX, VIEW_CENTER_FX};

const SCALE_F: f64 = 10_000_000_000.0;

#[test]
fn trig_matches_reference_at_sample_angles() {
    for k in -6..=6 {
        let x: i64 = k * (PI_FX / 6);
        let xf = x as f64 / SCALE_F;
        assert!((sin_fx(x) as f64 / SCALE_F - xf.sin()).abs() < 1e-6);
        assert!((cos_fx(x) as f64 / SCALE_F - xf.cos()).abs() < 1e-6);
    }
    assert_eq!(sin_fx(0), 0);
    assert_eq!(cos_fx(0), SCALE);
}

#[test]
fn range_reduce_subtracts_whole_turns() {
    assert_eq!(range_reduce(5), 5);
    assert_eq!(range_reduce(TWO_PI_FX + 5), 5);
    assert_eq!(range_reduce(-TWO_PI_FX - 5), -5);
    assert_eq!(range_reduce(10 * TWO_PI_FX + 123), 123);
    let r: i64 = range_reduce(PI_FX + 1);
    assert_eq!(r, PI_FX + 1 - TWO_PI_FX);
}

#[test]
fn planar_rotation_quarter_turn() {
    // cos = 0, sin = 1: a quarter turn maps (a, b) to (-b, a).
    let (a1, b1) = rotate_in_plane(1_000_000_000_000, 2_000_000_000_000, 0, SCALE);
    assert_eq!(a1, -2_000_000_000_000);
    assert_eq!(b1, 1_000_000_000_000);
}

#[test]
fn planar_round_trip_on_unit_pair() {
    // (c, s) = (0.8, 0.6) lies exactly on the fixed-point unit circle;
    // rotating forward and back must return within two units.
    let c: i64 = 8_000_000_000;
    let s: i64 = 6_000_000_000;
    let a: i64 = 1_234_567_890_123;
    let b: i64 = -987_654_321_098;
    let (a1, b1) = rotate_in_plane(a, b, c, s);
    let (a2, b2) = rotate_in_plane(a1, b1, c, -s);
    assert!((a2 - a).abs() <= 2);
    assert!((b2 - b).abs() <= 2);
}

#[test]
fn kernel_round_trip_reversed_axis_order() {
    // Rotate by (dx, dy, dz) as X then Y then Z, then undo it by applying
    // the negated angles as Z then Y then X: the point returns to within
    // a few fixed-point units (naive same-order negation would not).
    let c: i64 = 8_000_000_000;
    let s: i64 = 6_000_000_000;
    let f = RotationFrame { cx: c, sx: s, cy: c, sy: s, cz: c, sz: s };
    let p = Point3 { x: 1_000_000_000_000, y: 1_000_000_000_000, z: 1_000_000_000_000 };
    let q = p.rotate(f);
    // Inverse, axis order reversed: X-Y plane, then X-Z, then Y-Z.
    let (x1, y1) = rotate_in_plane(q.x, q.y, c, -s);
    let (x2, z1) = rotate_in_plane(x1, q.z, c, -s);
    let (y2, z2) = rotate_in_plane(y1, z1, c, -s);
    assert!((x2 - p.x).abs() <= 10);
    assert!((y2 - p.y).abs() <= 10);
    assert!((z2 - p.z).abs() <= 10);
}

#[test]
fn projection_translates_to_view_center() {
    let p = Point3 { x: 1_000_000_000_000, y: -2_000_000_000_000, z: 5 };
    let q = p.project();
    assert_eq!(q.x, 1_000_000_000_000 + VIEW_CENTER_FX);
    assert_eq!(q.y, -2_000_000_000_000 + VIEW_CENTER_FX);
}

#[test]
fn scene_draws_every_edge_and_vertex() {
    let s = SimulationState::new();
    let scene = render_scene(&s);
    assert_eq!(scene.segments.len(), 12);
    assert_eq!(scene.points.len(), 8);
    assert_eq!(scene.replica_count, 0);
    // Vertex 0 projects to (100 + 300, 100 + 300) drawing units.
    assert_eq!(scene.points[0].x, 4_000_000_000_000);
    assert_eq!(scene.points[0].y, 4_000_000_000_000);
    assert_eq!(scene.points[0].label, 0);
    assert_eq!(scene.points[7].label, 7);
    // The first segment joins the projections of vertices 0 and 1.
    assert_eq!(scene.segments[0].x1, 4_000_000_000_000);
    assert_eq!(scene.segments[0].x2, -1_000_000_000_000 + VIEW_CENTER_FX);
    assert_eq!(scene.segments[0].y1, scene.segments[0].y2);
}

#[test]
fn scene_replica_count_follows_state() {
    let mut s = SimulationState::new();
    s.apply_command(cubespin::engine::Command::AddReplica);
    s.apply_command(cubespin::engine::Command::AddReplica);
    let scene = render_scene(&s);
    assert_eq!(scene.replica_count, 2);
}
