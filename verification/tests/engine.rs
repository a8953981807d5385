use cubespin::engine::{Axis, Command, SimulationState};
use cubespin::geometry::{Angle3, Point3};
use cubespin::{HALF_SIDE_FX, PI_FX, SCALE, TEN_DEGREE_FX};

const SCALE_F: f64 = 10_000_000_000.0;

fn initial() -> SimulationState {
    SimulationState::new()
}

#[test]
fn initial_state_matches_design() {
    let s = initial();
    assert_eq!(s.vertices.len(), 8);
    assert_eq!(s.edges.len(), 12);
    assert_eq!(
        s.vertices[0],
        Point3 { x: HALF_SIDE_FX, y: HALF_SIDE_FX, z: HALF_SIDE_FX }
    );
    assert_eq!(
        s.vertices[7],
        Point3 { x: -HALF_SIDE_FX, y: -HALF_SIDE_FX, z: -HALF_SIDE_FX }
    );
    assert_eq!(s.angle_velocity.xa, TEN_DEGREE_FX);
    assert_eq!(s.angle_velocity.ya, TEN_DEGREE_FX);
    assert_eq!(s.angle_velocity.za, TEN_DEGREE_FX);
    assert!(s.direction);
    assert_eq!(s.velocity_exponent, 0);
    assert_eq!(s.replica_count, 0);
}

#[test]
fn identity_tick_keeps_vertices() {
    // Zero angular velocity: one tick must leave every vertex exactly
    // where it was.
    let mut s = initial();
    s.angle_velocity = Angle3 { xa: 0, ya: 0, za: 0 };
    s.tick();
    assert_eq!(
        s.vertices[0],
        Point3 { x: HALF_SIDE_FX, y: HALF_SIDE_FX, z: HALF_SIDE_FX }
    );
    for i in 0..8 {
        let v = s.vertices[i];
        assert_eq!(v.x.abs(), HALF_SIDE_FX);
        assert_eq!(v.y.abs(), HALF_SIDE_FX);
        assert_eq!(v.z.abs(), HALF_SIDE_FX);
    }
}

#[test]
fn one_x_axis_frame() {
    // Pi radians per second about X alone: one frame rotates by pi/200.
    let mut s = initial();
    s.angle_velocity = Angle3 { xa: PI_FX, ya: 0, za: 0 };
    s.tick();
    let dx = (PI_FX / 200) as f64 / SCALE_F;
    let expected_y = 100.0 * dx.cos() - 100.0 * dx.sin();
    let expected_z = 100.0 * dx.cos() + 100.0 * dx.sin();
    let v = s.vertices[0];
    assert_eq!(v.x, HALF_SIDE_FX);
    assert!((v.y as f64 / SCALE_F - expected_y).abs() < 1e-3);
    assert!((v.z as f64 / SCALE_F - expected_z).abs() < 1e-3);
}

#[test]
fn damping_decay_over_two_hundred_ticks() {
    // With no input every component decays by the factor 0.9955 per tick.
    let mut s = initial();
    for _ in 0..200 {
        s.tick();
    }
    let expected = 0.1745329255 * 0.9955f64.powi(200);
    for c in [s.angle_velocity.xa, s.angle_velocity.ya, s.angle_velocity.za] {
        assert!((c as f64 / SCALE_F - expected).abs() < 1e-5);
    }
}

#[test]
fn damping_single_tick_exact() {
    let mut s = initial();
    s.tick();
    // 1745329255 * 9955 / 10000, truncated.
    assert_eq!(s.angle_velocity.xa, 1_737_475_273);
    assert_eq!(s.angle_velocity.ya, 1_737_475_273);
    assert_eq!(s.angle_velocity.za, 1_737_475_273);
}

#[test]
fn accelerate_then_reverse() {
    // One impulse adds 50 degrees in radians; after reversing, the same
    // impulse subtracts it again, exactly.
    let mut s = initial();
    s.apply_command(Command::Accelerate(Axis::X));
    assert_eq!(s.angle_velocity.xa, 10_471_975_530);
    s.apply_command(Command::ReverseDirection);
    assert!(!s.direction);
    s.apply_command(Command::Accelerate(Axis::X));
    assert_eq!(s.angle_velocity.xa, TEN_DEGREE_FX);
}

#[test]
fn velocity_scaling_quadruples_impulse() {
    let mut s = initial();
    s.apply_command(Command::ScaleVelocity(true));
    s.apply_command(Command::ScaleVelocity(true));
    assert_eq!(s.velocity_exponent, 2);
    s.apply_command(Command::Accelerate(Axis::Y));
    assert_eq!(s.angle_velocity.ya, 36_651_914_355);
    assert_eq!(s.angle_velocity.xa, TEN_DEGREE_FX);
}

#[test]
fn replica_lifecycle() {
    let mut s = initial();
    for _ in 0..5 {
        s.apply_command(Command::AddReplica);
    }
    assert_eq!(s.replica_count, 5);
    for _ in 0..7 {
        s.apply_command(Command::RemoveReplica);
    }
    assert_eq!(s.replica_count, 0);
    s.apply_command(Command::RemoveReplica);
    assert_eq!(s.replica_count, 0);
}

#[test]
fn reverse_direction_twice_is_identity() {
    let mut s = initial();
    s.apply_command(Command::ReverseDirection);
    s.apply_command(Command::ReverseDirection);
    assert!(s.direction);
}

#[test]
fn scale_up_then_down_is_identity() {
    let mut s = initial();
    s.apply_command(Command::ScaleVelocity(true));
    s.apply_command(Command::ScaleVelocity(false));
    assert_eq!(s.velocity_exponent, 0);
}

#[test]
fn ticks_preserve_vertex_count_and_edges() {
    let mut s = initial();
    let edges_before: Vec<(usize, usize)> = s.edges.iter().map(|e| (e.a, e.b)).collect();
    for _ in 0..50 {
        s.tick();
    }
    assert_eq!(s.vertices.len(), 8);
    let edges_after: Vec<(usize, usize)> = s.edges.iter().map(|e| (e.a, e.b)).collect();
    assert_eq!(edges_before, edges_after);
    assert_eq!(
        edges_after,
        vec![
            (0, 1),
            (0, 2),
            (0, 4),
            (1, 5),
            (1, 3),
            (2, 3),
            (2, 6),
            (4, 5),
            (4, 6),
            (3, 7),
            (6, 7),
            (5, 7)
        ]
    );
}

#[test]
fn acceleration_saturates_at_velocity_limit() {
    let mut s = initial();
    for _ in 0..60 {
        s.apply_command(Command::ScaleVelocity(true));
    }
    assert_eq!(s.velocity_exponent, 60);
    // The exponent ceiling holds under further scaling.
    s.apply_command(Command::ScaleVelocity(true));
    assert_eq!(s.velocity_exponent, 60);
    s.apply_command(Command::Accelerate(Axis::Z));
    assert_eq!(s.angle_velocity.za, cubespin::VEL_LIMIT);
}

#[test]
fn vertices_stay_near_radius_under_rotation() {
    // The kernel is a rotation: squared distances from the origin drift
    // only slowly under fixed-point truncation.
    let mut s = initial();
    for _ in 0..400 {
        s.tick();
    }
    for v in s.vertices.iter() {
        let x = v.x as f64 / SCALE_F;
        let y = v.y as f64 / SCALE_F;
        let z = v.z as f64 / SCALE_F;
        let r = (x * x + y * y + z * z).sqrt();
        assert!((r - 173.205_080_756_887_7).abs() < 0.1);
    }
}

#[test]
fn scale_fits_ten_decimal_digits() {
    assert_eq!(SCALE, 10_000_000_000);
    assert_eq!(TEN_DEGREE_FX as f64 / SCALE_F, 0.1745329255);
}
