//! The simulation engine: the cube's state, the user command set, and the
//! per-tick step that rotates every vertex and damps the angular velocity.

use vstd::prelude::*;
use vstd::arithmetic::power2::{pow2, lemma_pow2_unfold, lemma_pow2_strictly_increases, lemma2_to64, lemma2_to64_rest};
use crate::fixed::{div_trunc, spec_clamp_abs, lemma_div_trunc_bound, lemma_div_trunc_shrinks,
    div_trunc_i128, clamp_abs_i128};
use crate::geometry::{Point3, Edge, Angle3, RotationFrame, spec_rotate_point};
use crate::trig::{spec_range_reduce, spec_sin_fx, spec_cos_fx, range_reduce, sin_fx, cos_fx};
use crate::{FRAME_RATE, TEN_DEGREE_FX, ACCELERATE_BY_FX, DAMPEN_NUM, DAMPEN_DEN, HALF_SIDE_FX,
    VEL_LIMIT, VEL_EXP_LIMIT};

verus! {

/// A principal axis of rotation.
#[derive(Clone, Copy, PartialEq, Eq, Structural, Debug)]
pub enum Axis {
    X,
    Y,
    Z,
}

/// A user command delivered to the engine between ticks.
#[derive(Clone, Copy, PartialEq, Eq, Structural, Debug)]
pub enum Command {
    /// Add an acceleration impulse to the velocity component of the axis
    /// (subtract it when the direction flag is off).
    Accelerate(Axis),
    /// Negate the direction flag.
    ReverseDirection,
    /// Double the velocity multiplier when the payload is true, halve it
    /// otherwise.
    ScaleVelocity(bool),
    /// Add one replica view.
    AddReplica,
    /// Remove one replica view; removing from none is a no-op.
    RemoveReplica,
}

/// The mathematical model of the engine state.
#[verifier::ext_equal]
pub ghost struct Model {
    pub vertices: Seq<Point3>,
    pub edges: Seq<Edge>,
    pub angle_velocity: Angle3,
    pub direction: bool,
    pub velocity_exponent: int,
    pub replica_count: int,
}

/// Every angular-velocity component lies within the saturation range.
pub open spec fn vel_in_range(a: Angle3) -> bool {
    &&& -VEL_LIMIT <= a.xa <= VEL_LIMIT
    &&& -VEL_LIMIT <= a.ya <= VEL_LIMIT
    &&& -VEL_LIMIT <= a.za <= VEL_LIMIT
}

/// The eight cube corners with half-side 100, ordered as the 3-bit binary
/// enumeration of sign choices (positive bit first).
pub open spec fn spec_cube_vertices() -> Seq<Point3> {
    seq![
        Point3 { x: HALF_SIDE_FX, y: HALF_SIDE_FX, z: HALF_SIDE_FX },
        Point3 { x: (-HALF_SIDE_FX) as i64, y: HALF_SIDE_FX, z: HALF_SIDE_FX },
        Point3 { x: HALF_SIDE_FX, y: (-HALF_SIDE_FX) as i64, z: HALF_SIDE_FX },
        Point3 { x: (-HALF_SIDE_FX) as i64, y: (-HALF_SIDE_FX) as i64, z: HALF_SIDE_FX },
        Point3 { x: HALF_SIDE_FX, y: HALF_SIDE_FX, z: (-HALF_SIDE_FX) as i64 },
        Point3 { x: (-HALF_SIDE_FX) as i64, y: HALF_SIDE_FX, z: (-HALF_SIDE_FX) as i64 },
        Point3 { x: HALF_SIDE_FX, y: (-HALF_SIDE_FX) as i64, z: (-HALF_SIDE_FX) as i64 },
        Point3 { x: (-HALF_SIDE_FX) as i64, y: (-HALF_SIDE_FX) as i64, z: (-HALF_SIDE_FX) as i64 },
    ]
}

/// The cube's twelve edges, in drawing order.
pub open spec fn spec_cube_edges() -> Seq<Edge> {
    seq![
        Edge { a: 0, b: 1 },
        Edge { a: 0, b: 2 },
        Edge { a: 0, b: 4 },
        Edge { a: 1, b: 5 },
        Edge { a: 1, b: 3 },
        Edge { a: 2, b: 3 },
        Edge { a: 2, b: 6 },
        Edge { a: 4, b: 5 },
        Edge { a: 4, b: 6 },
        Edge { a: 3, b: 7 },
        Edge { a: 6, b: 7 },
        Edge { a: 5, b: 7 },
    ]
}

impl Model {
    /// Well-formedness: eight in-range vertices, the fixed edge set, the
    /// velocity, exponent and replica count within their ranges.
    pub open spec fn wf(self) -> bool {
        &&& self.vertices.len() == 8
        &&& forall|i: int| 0 <= i < self.vertices.len() ==> (#[trigger] self.vertices[i]).wf()
        &&& self.edges == spec_cube_edges()
        &&& vel_in_range(self.angle_velocity)
        &&& -VEL_EXP_LIMIT <= self.velocity_exponent <= VEL_EXP_LIMIT
        &&& self.replica_count >= 0
    }
}

/// The engine state: the shared cube, its velocity controller, and the
/// replica-view count.
pub struct SimulationState {
    pub vertices: Vec<Point3>,
    pub edges: Vec<Edge>,
    pub angle_velocity: Angle3,
    pub direction: bool,
    pub velocity_exponent: i64,
    pub replica_count: usize,
}

impl View for SimulationState {
    type V = Model;

    open spec fn view(&self) -> Model {
        Model {
            vertices: self.vertices@,
            edges: self.edges@,
            angle_velocity: self.angle_velocity,
            direction: self.direction,
            velocity_exponent: self.velocity_exponent as int,
            replica_count: self.replica_count as int,
        }
    }
}

/// The state at startup: the unit cube corners, ten degrees per second of
/// angular velocity about each axis, forward direction, unit multiplier,
/// no replicas.
pub open spec fn spec_init() -> Model {
    Model {
        vertices: spec_cube_vertices(),
        edges: spec_cube_edges(),
        angle_velocity: Angle3 { xa: TEN_DEGREE_FX, ya: TEN_DEGREE_FX, za: TEN_DEGREE_FX },
        direction: true,
        velocity_exponent: 0,
        replica_count: 0,
    }
}

/// The velocity multiplier is two to `exponent`; the acceleration impulse
/// is the base impulse scaled by it, saturated at the velocity limit.
pub open spec fn spec_accel_delta(exponent: int) -> int {
    if exponent >= 0 {
        spec_clamp_abs(ACCELERATE_BY_FX * pow2(exponent as nat), VEL_LIMIT as int)
    } else {
        div_trunc(ACCELERATE_BY_FX as int, pow2((-exponent) as nat) as int)
    }
}

/// One damping step: multiply by 0.9955 exactly, truncating toward zero.
pub open spec fn spec_damp1(v: int) -> int {
    div_trunc(v * DAMPEN_NUM, DAMPEN_DEN as int)
}

/// Damping applied to each velocity component.
pub open spec fn spec_damp(a: Angle3) -> Angle3 {
    Angle3 {
        xa: spec_damp1(a.xa as int) as i64,
        ya: spec_damp1(a.ya as int) as i64,
        za: spec_damp1(a.za as int) as i64,
    }
}

/// The per-frame rotation cosines and sines for the three axes: each
/// velocity component is divided by the frame rate, reduced into one turn,
/// and fed to the trig kernels.
pub open spec fn spec_frame_of(a: Angle3) -> RotationFrame {
    let rx = spec_range_reduce(div_trunc(a.xa as int, FRAME_RATE as int));
    let ry = spec_range_reduce(div_trunc(a.ya as int, FRAME_RATE as int));
    let rz = spec_range_reduce(div_trunc(a.za as int, FRAME_RATE as int));
    RotationFrame {
        cx: spec_cos_fx(rx) as i64,
        sx: spec_sin_fx(rx) as i64,
        cy: spec_cos_fx(ry) as i64,
        sy: spec_sin_fx(ry) as i64,
        cz: spec_cos_fx(rz) as i64,
        sz: spec_sin_fx(rz) as i64,
    }
}

/// What one user command does to the model.
pub open spec fn spec_apply(m: Model, c: Command) -> Model {
    match c {
        Command::Accelerate(axis) => {
            let delta = spec_accel_delta(m.velocity_exponent);
            let signed = if m.direction {
                delta
            } else {
                -delta
            };
            let av = m.angle_velocity;
            let nv = match axis {
                Axis::X => Angle3 {
                    xa: spec_clamp_abs(av.xa + signed, VEL_LIMIT as int) as i64,
                    ..av
                },
                Axis::Y => Angle3 {
                    ya: spec_clamp_abs(av.ya + signed, VEL_LIMIT as int) as i64,
                    ..av
                },
                Axis::Z => Angle3 {
                    za: spec_clamp_abs(av.za + signed, VEL_LIMIT as int) as i64,
                    ..av
                },
            };
            Model { angle_velocity: nv, ..m }
        },
        Command::ReverseDirection => Model { direction: !m.direction, ..m },
        Command::ScaleVelocity(up) => {
            let e = m.velocity_exponent;
            let ne = if up {
                if e < VEL_EXP_LIMIT {
                    e + 1
                } else {
                    e
                }
            } else {
                if e > -VEL_EXP_LIMIT {
                    e - 1
                } else {
                    e
                }
            };
            Model { velocity_exponent: ne, ..m }
        },
        Command::AddReplica => Model { replica_count: m.replica_count + 1, ..m },
        Command::RemoveReplica => Model {
            replica_count: if m.replica_count > 0 {
                m.replica_count - 1
            } else {
                0
            },
            ..m
        },
    }
}

/// What one tick does to the model: every vertex is replaced by its
/// rotated image under the current velocity, then the velocity is damped.
pub open spec fn spec_tick(m: Model) -> Model {
    let f = spec_frame_of(m.angle_velocity);
    Model {
        vertices: m.vertices.map_values(|p: Point3| spec_rotate_point(p, f)),
        angle_velocity: spec_damp(m.angle_velocity),
        ..m
    }
}

/// Two to the power `e`, for small `e`.
fn pow2_i128(e: i64) -> (r: i128)
    requires
        0 <= e <= 60,
    ensures
        r == pow2(e as nat),
        1 <= r <= 0x1000_0000_0000_0000,
{
    let mut p: i128 = 1;
    let mut j: i64 = 0;
    proof {
        assert(pow2(0) == 1) by {
            lemma2_to64();
        }
    }
    while j < e
        invariant
            0 <= j <= e <= 60,
            p == pow2(j as nat),
            1 <= p <= 0x1000_0000_0000_0000,
        decreases e - j,
    {
        proof {
            lemma_pow2_unfold((j + 1) as nat);
            if j + 1 < 60 {
                lemma_pow2_strictly_increases((j + 1) as nat, 60);
            }
            lemma2_to64();
            lemma2_to64_rest();
        }
        p = p * 2;
        j = j + 1;
    }
    p
}

/// The saturated acceleration impulse for a velocity-multiplier exponent.
fn accel_delta(exponent: i64) -> (r: i64)
    requires
        -VEL_EXP_LIMIT <= exponent <= VEL_EXP_LIMIT,
    ensures
        r == spec_accel_delta(exponent as int),
        0 <= r <= VEL_LIMIT,
{
    if exponent >= 0 {
        let p: i128 = pow2_i128(exponent);
        proof {
            assert(0 <= (ACCELERATE_BY_FX as i128) * p <= 8_726_646_275 * 0x1000_0000_0000_0000)
                by (nonlinear_arith)
                requires
                    1 <= p <= 0x1000_0000_0000_0000,
                    ACCELERATE_BY_FX == 8_726_646_275,
            ;
        }
        let prod: i128 = (ACCELERATE_BY_FX as i128) * p;
        clamp_abs_i128(prod, VEL_LIMIT)
    } else {
        let p: i128 = pow2_i128(-exponent);
        proof {
            lemma_div_trunc_shrinks(ACCELERATE_BY_FX as int, p as int);
        }
        div_trunc_i128(ACCELERATE_BY_FX as i128, p) as i64
    }
}

/// One damping step on a component, saturation range preserved.
fn damp1(v: i64) -> (r: i64)
    requires
        -VEL_LIMIT <= v <= VEL_LIMIT,
    ensures
        r == spec_damp1(v as int),
        -VEL_LIMIT <= r <= VEL_LIMIT,
{
    let p: i128 = (v as i128) * 9_955;
    proof {
        assert(DAMPEN_NUM == 9_955 && DAMPEN_DEN == 10_000 && VEL_LIMIT == 900_000_000_000_000);
        assert((v as int) * (DAMPEN_NUM as int) == (v as int) * 9_955) by (nonlinear_arith)
            requires
                DAMPEN_NUM == 9_955,
        ;
        lemma_div_trunc_bound(p as int, 10_000, 900_000_000_000_000);
    }
    div_trunc_i128(p, 10_000) as i64
}

/// The per-frame rotation angle of one velocity component.
fn frame_angle(v: i64) -> (r: i64)
    requires
        -VEL_LIMIT <= v <= VEL_LIMIT,
    ensures
        r == div_trunc(v as int, FRAME_RATE as int),
        -VEL_LIMIT <= r <= VEL_LIMIT,
{
    proof {
        lemma_div_trunc_shrinks(v as int, FRAME_RATE as int);
    }
    div_trunc_i128(v as i128, FRAME_RATE as i128) as i64
}

/// The cosine/sine pairs for one tick under the velocity `a`.
fn frame_of(a: Angle3) -> (f: RotationFrame)
    requires
        vel_in_range(a),
    ensures
        f == spec_frame_of(a),
        f.wf(),
{
    let rx: i64 = range_reduce(frame_angle(a.xa));
    let ry: i64 = range_reduce(frame_angle(a.ya));
    let rz: i64 = range_reduce(frame_angle(a.za));
    RotationFrame {
        cx: cos_fx(rx),
        sx: sin_fx(rx),
        cy: cos_fx(ry),
        sy: sin_fx(ry),
        cz: cos_fx(rz),
        sz: sin_fx(rz),
    }
}

impl SimulationState {
    /// The state is well formed when its model is.
    pub open spec fn wf(self) -> bool {
        self@.wf()
    }

    /// Build the startup state.
    pub fn new() -> (s: SimulationState)
        ensures
            s@ == spec_init(),
            s.wf(),
    {
        let mut vertices: Vec<Point3> = Vec::new();
        vertices.push(Point3 { x: HALF_SIDE_FX, y: HALF_SIDE_FX, z: HALF_SIDE_FX });
        vertices.push(Point3 { x: -HALF_SIDE_FX, y: HALF_SIDE_FX, z: HALF_SIDE_FX });
        vertices.push(Point3 { x: HALF_SIDE_FX, y: -HALF_SIDE_FX, z: HALF_SIDE_FX });
        vertices.push(Point3 { x: -HALF_SIDE_FX, y: -HALF_SIDE_FX, z: HALF_SIDE_FX });
        vertices.push(Point3 { x: HALF_SIDE_FX, y: HALF_SIDE_FX, z: -HALF_SIDE_FX });
        vertices.push(Point3 { x: -HALF_SIDE_FX, y: HALF_SIDE_FX, z: -HALF_SIDE_FX });
        vertices.push(Point3 { x: HALF_SIDE_FX, y: -HALF_SIDE_FX, z: -HALF_SIDE_FX });
        vertices.push(Point3 { x: -HALF_SIDE_FX, y: -HALF_SIDE_FX, z: -HALF_SIDE_FX });
        let mut edges: Vec<Edge> = Vec::new();
        edges.push(Edge { a: 0, b: 1 });
        edges.push(Edge { a: 0, b: 2 });
        edges.push(Edge { a: 0, b: 4 });
        edges.push(Edge { a: 1, b: 5 });
        edges.push(Edge { a: 1, b: 3 });
        edges.push(Edge { a: 2, b: 3 });
        edges.push(Edge { a: 2, b: 6 });
        edges.push(Edge { a: 4, b: 5 });
        edges.push(Edge { a: 4, b: 6 });
        edges.push(Edge { a: 3, b: 7 });
        edges.push(Edge { a: 6, b: 7 });
        edges.push(Edge { a: 5, b: 7 });
        proof {
            assert(vertices@ =~= spec_cube_vertices());
            assert(edges@ =~= spec_cube_edges());
        }
        SimulationState {
            vertices,
            edges,
            angle_velocity: Angle3 { xa: TEN_DEGREE_FX, ya: TEN_DEGREE_FX, za: TEN_DEGREE_FX },
            direction: true,
            velocity_exponent: 0,
            replica_count: 0,
        }
    }

    /// Apply one user command.
    pub fn apply_command(&mut self, c: Command)
        requires
            old(self).wf(),
            c is AddReplica ==> old(self).replica_count < usize::MAX,
        ensures
            final(self)@ == spec_apply(old(self)@, c),
            final(self).wf(),
    {
        match c {
            Command::Accelerate(axis) => {
                let delta: i64 = accel_delta(self.velocity_exponent);
                let signed: i64 = if self.direction {
                    delta
                } else {
                    -delta
                };
                match axis {
                    Axis::X => {
                        self.angle_velocity.xa = clamp_abs_i128(
                            self.angle_velocity.xa as i128 + signed as i128,
                            VEL_LIMIT,
                        );
                    },
                    Axis::Y => {
                        self.angle_velocity.ya = clamp_abs_i128(
                            self.angle_velocity.ya as i128 + signed as i128,
                            VEL_LIMIT,
                        );
                    },
                    Axis::Z => {
                        self.angle_velocity.za = clamp_abs_i128(
                            self.angle_velocity.za as i128 + signed as i128,
                            VEL_LIMIT,
                        );
                    },
                }
            },
            Command::ReverseDirection => {
                self.direction = !self.direction;
            },
            Command::ScaleVelocity(up) => {
                if up {
                    if self.velocity_exponent < VEL_EXP_LIMIT {
                        self.velocity_exponent = self.velocity_exponent + 1;
                    }
                } else {
                    if self.velocity_exponent > -VEL_EXP_LIMIT {
                        self.velocity_exponent = self.velocity_exponent - 1;
                    }
                }
            },
            Command::AddReplica => {
                self.replica_count = self.replica_count + 1;
            },
            Command::RemoveReplica => {
                if self.replica_count > 0 {
                    self.replica_count = self.replica_count - 1;
                }
            },
        }
        proof {
            assert(self@ =~= spec_apply(old(self)@, c));
        }
    }

    /// Advance one frame: rotate every vertex in place by the per-frame
    /// angles, then damp the angular velocity.
    pub fn tick(&mut self)
        requires
            old(self).wf(),
        ensures
            final(self)@ == spec_tick(old(self)@),
            final(self).wf(),
    {
        let f: RotationFrame = frame_of(self.angle_velocity);
        let ghost fs = spec_frame_of(old(self)@.angle_velocity);
        let mut rotated: Vec<Point3> = Vec::new();
        let mut i: usize = 0;
        while i < self.vertices.len()
            invariant
                self == old(self),
                f == fs,
                f.wf(),
                old(self).wf(),
                i <= self.vertices.len(),
                rotated@.len() == i as int,
                forall|j: int|
                    0 <= j < i as int ==> rotated@[j] == spec_rotate_point(
                        old(self)@.vertices[j],
                        fs,
                    ),
            decreases self.vertices.len() - i,
        {
            let p: Point3 = self.vertices[i];
            rotated.push(p.rotate(f));
            i = i + 1;
        }
        self.vertices = rotated;
        self.angle_velocity = Angle3 {
            xa: damp1(self.angle_velocity.xa),
            ya: damp1(self.angle_velocity.ya),
            za: damp1(self.angle_velocity.za),
        };
        proof {
            assert(self@.vertices =~= old(self)@.vertices.map_values(
                |p: Point3| spec_rotate_point(p, fs),
            ));
            assert(self@ =~= spec_tick(old(self)@));
        }
    }
}

} // verus!
