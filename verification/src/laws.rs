//! The engine's laws: what holds of every command sequence and every tick
//! sequence, proved once and for all over the model.

use vstd::prelude::*;
use vstd::arithmetic::power::{pow, lemma_pow_positive};
use vstd::math::abs;
use crate::fixed::{div_trunc, lemma_div_trunc_between, lemma_div_trunc_remainder};
use crate::trig::{taylor_tail, taylor_next, spec_sin_fx, spec_cos_fx, spec_range_reduce};
use vstd::arithmetic::div_mod::lemma_small_mod;
use crate::geometry::{spec_rot_a, spec_rot_b, spec_rotate_point, spec_rotate_point_inverse, Point3, Angle3, RotationFrame};
use crate::engine::{Model, Command, spec_apply, spec_tick, spec_damp1, spec_frame_of, vel_in_range};
use crate::{SCALE, COORD_LIMIT, DAMPEN_NUM, DAMPEN_DEN, VEL_EXP_LIMIT};

verus! {

/// The model after `n` ticks with no user input.
pub open spec fn spec_ticks(m: Model, n: nat) -> Model
    decreases n,
{
    if n == 0 {
        m
    } else {
        spec_tick(spec_ticks(m, (n - 1) as nat))
    }
}

/// One velocity component after `n` damping steps.
pub open spec fn damp_iter(v: int, n: nat) -> int
    decreases n,
{
    if n == 0 {
        v
    } else {
        spec_damp1(damp_iter(v, (n - 1) as nat))
    }
}

/// The damping step written with its numeric constants.
pub proof fn lemma_damp1_eq(v: int)
    ensures
        spec_damp1(v) == div_trunc(v * 9_955, 10_000),
{
    assert(v * (DAMPEN_NUM as int) == v * 9_955) by (nonlinear_arith)
        requires
            DAMPEN_NUM == 9_955,
    ;
    assert(DAMPEN_DEN == 10_000);
}

/// Damping never grows a component's magnitude and keeps its sign toward
/// zero: the damped value stays between zero and the old value.
pub proof fn lemma_damp1_shrinks(v: int)
    ensures
        v >= 0 ==> 0 <= spec_damp1(v) <= v,
        v < 0 ==> v <= spec_damp1(v) <= 0,
{
    lemma_damp1_eq(v);
    if v >= 0 {
        lemma_div_trunc_between(0, v * 9_955, v, 10_000);
    } else {
        lemma_div_trunc_between(v, v * 9_955, 0, 10_000);
    }
}

/// Commands never touch the cube: vertices and edges are unchanged, and a
/// well-formed state stays well formed.
pub proof fn lemma_apply_preserves_shape(m: Model, c: Command)
    requires
        m.wf(),
    ensures
        spec_apply(m, c).wf(),
        spec_apply(m, c).vertices == m.vertices,
        spec_apply(m, c).edges == m.edges,
{
}

/// One tick keeps the state well formed, keeps exactly eight vertices,
/// never touches the edges, and damps each velocity component.
pub proof fn lemma_tick_preserves_shape(m: Model)
    requires
        m.wf(),
    ensures
        spec_tick(m).wf(),
        spec_tick(m).vertices.len() == 8,
        spec_tick(m).edges == m.edges,
        spec_tick(m).angle_velocity.xa == spec_damp1(m.angle_velocity.xa as int),
        spec_tick(m).angle_velocity.ya == spec_damp1(m.angle_velocity.ya as int),
        spec_tick(m).angle_velocity.za == spec_damp1(m.angle_velocity.za as int),
        spec_tick(m).direction == m.direction,
        spec_tick(m).velocity_exponent == m.velocity_exponent,
        spec_tick(m).replica_count == m.replica_count,
{
    lemma_damp1_shrinks(m.angle_velocity.xa as int);
    lemma_damp1_shrinks(m.angle_velocity.ya as int);
    lemma_damp1_shrinks(m.angle_velocity.za as int);
    assert(vel_in_range(spec_tick(m).angle_velocity));
    assert(forall|i: int|
        0 <= i < spec_tick(m).vertices.len() ==> (#[trigger] spec_tick(m).vertices[i]).wf());
}

/// Every tick sequence keeps eight vertices and the fixed edge set, and
/// each velocity component is the damping iterate of its start value.
pub proof fn lemma_ticks_shape(m: Model, n: nat)
    requires
        m.wf(),
    ensures
        spec_ticks(m, n).wf(),
        spec_ticks(m, n).vertices.len() == 8,
        spec_ticks(m, n).edges == m.edges,
        spec_ticks(m, n).angle_velocity.xa == damp_iter(m.angle_velocity.xa as int, n),
        spec_ticks(m, n).angle_velocity.ya == damp_iter(m.angle_velocity.ya as int, n),
        spec_ticks(m, n).angle_velocity.za == damp_iter(m.angle_velocity.za as int, n),
    decreases n,
{
    if n > 0 {
        lemma_ticks_shape(m, (n - 1) as nat);
        lemma_tick_preserves_shape(spec_ticks(m, (n - 1) as nat));
    }
}

/// With no user input a non-negative velocity component decays
/// geometrically: after `n` ticks it matches `v * (9955/10000)^n`, short
/// by less than one truncation unit per tick.
pub proof fn lemma_damping_geometric(v: int, n: nat)
    requires
        v >= 0,
    ensures
        0 <= damp_iter(v, n) <= v,
        damp_iter(v, n) * pow(10_000, n) <= v * pow(9_955, n),
        v * pow(9_955, n) <= (damp_iter(v, n) + n) * pow(10_000, n),
    decreases n,
{
    reveal(pow);
    if n == 0 {
        assert(pow(10_000, 0) == 1);
        assert(pow(9_955, 0) == 1);
    } else {
        let k = (n - 1) as nat;
        lemma_damping_geometric(v, k);
        let dk = damp_iter(v, k);
        let dn = damp_iter(v, n);
        let pk = pow(10_000, k);
        let qk = pow(9_955, k);
        lemma_pow_positive(10_000, k);
        lemma_pow_positive(9_955, k);
        assert(pow(10_000, n) == 10_000 * pk);
        assert(pow(9_955, n) == 9_955 * qk);
        lemma_damp1_eq(dk);
        lemma_div_trunc_remainder(dk * 9_955, 10_000);
        assert(dk * 9_955 >= 0);
        assert(dn == div_trunc(dk * 9_955, 10_000));
        assert(10_000 * dn <= dk * 9_955 < 10_000 * (dn + 1));
        lemma_damp1_shrinks(dk);
        assert(dn * (10_000 * pk) <= v * (9_955 * qk)) by (nonlinear_arith)
            requires
                10_000 * dn <= dk * 9_955,
                dk * pk <= v * qk,
                pk > 0,
                qk > 0,
        ;
        assert(v * (9_955 * qk) <= (dn + n) * (10_000 * pk)) by (nonlinear_arith)
            requires
                v * qk <= (dk + k) * pk,
                dk * 9_955 < 10_000 * (dn + 1),
                pk > 0,
                qk > 0,
                n == k + 1,
                k >= 0,
        ;
    }
}

/// Damping is odd: a negative component mirrors the positive one, so the
/// geometric decay holds for magnitudes of either sign.
pub proof fn lemma_damp_iter_odd(v: int, n: nat)
    ensures
        damp_iter(-v, n) == -damp_iter(v, n),
    decreases n,
{
    if n > 0 {
        let k = (n - 1) as nat;
        lemma_damp_iter_odd(v, k);
        lemma_damp1_eq(damp_iter(v, k));
        lemma_damp1_eq(-damp_iter(v, k));
        assert((-damp_iter(v, k)) * 9_955 == -(damp_iter(v, k) * 9_955)) by (nonlinear_arith);
    }
}

/// After `n` ticks with no user input the magnitude of every velocity
/// component equals its start magnitude times `0.9955^n`, short by less
/// than one truncation unit per tick, whatever the component's sign.
pub proof fn lemma_velocity_decay_magnitude(v: int, n: nat)
    ensures
        abs(damp_iter(v, n)) <= abs(v),
        abs(damp_iter(v, n)) * pow(10_000, n) <= abs(v) * pow(9_955, n),
        abs(v) * pow(9_955, n) <= (abs(damp_iter(v, n)) + n) * pow(10_000, n),
{
    if v >= 0 {
        lemma_damping_geometric(v, n);
    } else {
        lemma_damping_geometric(-v, n);
        lemma_damp_iter_odd(-v, n);
        assert(damp_iter(v, n) == -damp_iter(-v, n));
    }
}

/// Rotating a pair in its plane and then rotating back with the negated
/// sine returns the original pair to within two fixed-point units, for
/// any cosine/sine pair that lies exactly on the fixed-point unit circle
/// and any pair within half the coordinate range. Composed per axis in
/// reverse order, this inverts the X-then-Y-then-Z kernel step.
pub proof fn lemma_rotate_in_plane_round_trip(a: int, b: int, c: int, s: int)
    requires
        -500_000_000_000_000_000 <= a <= 500_000_000_000_000_000,
        -500_000_000_000_000_000 <= b <= 500_000_000_000_000_000,
        -10_000_000_000 <= c <= 10_000_000_000,
        -10_000_000_000 <= s <= 10_000_000_000,
        c * c + s * s == 100_000_000_000_000_000_000,
    ensures
        ({
            let a1 = spec_rot_a(a, b, c, s);
            let b1 = spec_rot_b(a, b, c, s);
            let a2 = spec_rot_a(a1, b1, c, -s);
            let b2 = spec_rot_b(a1, b1, c, -s);
            a - 2 <= a2 <= a + 2 && b - 2 <= b2 <= b + 2
        }),
{
    assert(SCALE == 10_000_000_000 && COORD_LIMIT == 1_000_000_000_000_000_000);
    let n1 = a * c - b * s;
    let n2 = b * c + a * s;
    assert(-1_000_000_000_000_000_000 * 10_000_000_000 <= n1 <= 1_000_000_000_000_000_000
        * 10_000_000_000 && -1_000_000_000_000_000_000 * 10_000_000_000 <= n2
        <= 1_000_000_000_000_000_000 * 10_000_000_000) by (nonlinear_arith)
        requires
            n1 == a * c - b * s,
            n2 == b * c + a * s,
            -500_000_000_000_000_000 <= a <= 500_000_000_000_000_000,
            -500_000_000_000_000_000 <= b <= 500_000_000_000_000_000,
            -10_000_000_000 <= c <= 10_000_000_000,
            -10_000_000_000 <= s <= 10_000_000_000,
    ;
    lemma_div_trunc_between(
        -1_000_000_000_000_000_000,
        n1,
        1_000_000_000_000_000_000,
        10_000_000_000,
    );
    lemma_div_trunc_between(
        -1_000_000_000_000_000_000,
        n2,
        1_000_000_000_000_000_000,
        10_000_000_000,
    );
    let q1 = div_trunc(n1, 10_000_000_000);
    let q2 = div_trunc(n2, 10_000_000_000);
    assert(spec_rot_a(a, b, c, s) == q1);
    assert(spec_rot_b(a, b, c, s) == q2);
    lemma_div_trunc_remainder(n1, 10_000_000_000);
    lemma_div_trunc_remainder(n2, 10_000_000_000);
    let e1 = n1 - 10_000_000_000 * q1;
    let e2 = n2 - 10_000_000_000 * q2;
    assert(q1 * (-s) == -(q1 * s) && q2 * (-s) == -(q2 * s)) by (nonlinear_arith);
    let n3 = q1 * c + q2 * s;
    let n4 = q2 * c - q1 * s;
    assert((q1 * c + q2 * s) * 10_000_000_000 == (10_000_000_000 * q1) * c + (10_000_000_000
        * q2) * s) by (nonlinear_arith);
    assert((10_000_000_000 * q1) * c + (10_000_000_000 * q2) * s == (n1 - e1) * c + (n2 - e2)
        * s) by (nonlinear_arith)
        requires
            10_000_000_000 * q1 == n1 - e1,
            10_000_000_000 * q2 == n2 - e2,
    ;
    assert((n1 - e1) * c + (n2 - e2) * s == n1 * c + n2 * s - (e1 * c + e2 * s))
        by (nonlinear_arith);
    assert(n1 * c + n2 * s == a * (c * c + s * s)) by (nonlinear_arith)
        requires
            n1 == a * c - b * s,
            n2 == b * c + a * s,
    ;
    assert(a * (c * c + s * s) == a * 100_000_000_000_000_000_000) by (nonlinear_arith)
        requires
            c * c + s * s == 100_000_000_000_000_000_000,
    ;
    assert(n3 * 10_000_000_000 == a * 100_000_000_000_000_000_000 - (e1 * c + e2 * s));
    assert((q2 * c - q1 * s) * 10_000_000_000 == (10_000_000_000 * q2) * c - (10_000_000_000
        * q1) * s) by (nonlinear_arith);
    assert((10_000_000_000 * q2) * c - (10_000_000_000 * q1) * s == (n2 - e2) * c - (n1 - e1)
        * s) by (nonlinear_arith)
        requires
            10_000_000_000 * q1 == n1 - e1,
            10_000_000_000 * q2 == n2 - e2,
    ;
    assert((n2 - e2) * c - (n1 - e1) * s == n2 * c - n1 * s - (e2 * c - e1 * s))
        by (nonlinear_arith);
    assert(n2 * c - n1 * s == b * (c * c + s * s)) by (nonlinear_arith)
        requires
            n1 == a * c - b * s,
            n2 == b * c + a * s,
    ;
    assert(b * (c * c + s * s) == b * 100_000_000_000_000_000_000) by (nonlinear_arith)
        requires
            c * c + s * s == 100_000_000_000_000_000_000,
    ;
    assert(n4 * 10_000_000_000 == b * 100_000_000_000_000_000_000 - (e2 * c - e1 * s));
    assert(-20_000_000_000_000_000_000_0 <= e1 * c + e2 * s <= 20_000_000_000_000_000_000_0
        && -20_000_000_000_000_000_000_0 <= e2 * c - e1 * s <= 20_000_000_000_000_000_000_0)
        by (nonlinear_arith)
        requires
            -10_000_000_000 < e1 < 10_000_000_000,
            -10_000_000_000 < e2 < 10_000_000_000,
            -10_000_000_000 <= c <= 10_000_000_000,
            -10_000_000_000 <= s <= 10_000_000_000,
    ;
    assert((a - 2) * 10_000_000_000 <= n3 <= (a + 2) * 10_000_000_000 && (b - 2)
        * 10_000_000_000 <= n4 <= (b + 2) * 10_000_000_000) by (nonlinear_arith)
        requires
            n3 * 10_000_000_000 == a * 100_000_000_000_000_000_000 - (e1 * c + e2 * s),
            n4 * 10_000_000_000 == b * 100_000_000_000_000_000_000 - (e2 * c - e1 * s),
            -20_000_000_000_000_000_000_0 <= e1 * c + e2 * s <= 20_000_000_000_000_000_000_0,
            -20_000_000_000_000_000_000_0 <= e2 * c - e1 * s <= 20_000_000_000_000_000_000_0,
    ;
    lemma_div_trunc_between(a - 2, n3, a + 2, 10_000_000_000);
    lemma_div_trunc_between(b - 2, n4, b + 2, 10_000_000_000);
}

/// A planar rotation moves perturbed inputs almost exactly as it moves
/// the originals: each output shifts by at most the input shifts plus
/// one truncation unit.
pub proof fn lemma_rot_plane_lipschitz(
    a: int,
    b: int,
    a2: int,
    b2: int,
    c: int,
    s: int,
    da: int,
    db: int,
)
    requires
        -450_000_000_000_000_000 <= a <= 450_000_000_000_000_000,
        -450_000_000_000_000_000 <= b <= 450_000_000_000_000_000,
        0 <= da <= 8,
        0 <= db <= 8,
        a - da <= a2 <= a + da,
        b - db <= b2 <= b + db,
        -10_000_000_000 <= c <= 10_000_000_000,
        -10_000_000_000 <= s <= 10_000_000_000,
    ensures
        spec_rot_a(a, b, c, s) - (da + db + 1) <= spec_rot_a(a2, b2, c, s) <= spec_rot_a(
            a,
            b,
            c,
            s,
        ) + (da + db + 1),
        spec_rot_b(a, b, c, s) - (da + db + 1) <= spec_rot_b(a2, b2, c, s) <= spec_rot_b(
            a,
            b,
            c,
            s,
        ) + (da + db + 1),
{
    assert(SCALE == 10_000_000_000 && COORD_LIMIT == 1_000_000_000_000_000_000);
    let n = a * c - b * s;
    let m = b * c + a * s;
    let n2 = a2 * c - b2 * s;
    let m2 = b2 * c + a2 * s;
    assert(-900_000_000_000_000_000 * 10_000_000_000 <= n <= 900_000_000_000_000_000
        * 10_000_000_000 && -900_000_000_000_000_000 * 10_000_000_000 <= m
        <= 900_000_000_000_000_000 * 10_000_000_000) by (nonlinear_arith)
        requires
            n == a * c - b * s,
            m == b * c + a * s,
            -450_000_000_000_000_000 <= a <= 450_000_000_000_000_000,
            -450_000_000_000_000_000 <= b <= 450_000_000_000_000_000,
            -10_000_000_000 <= c <= 10_000_000_000,
            -10_000_000_000 <= s <= 10_000_000_000,
    ;
    assert(n2 - n == (a2 - a) * c - (b2 - b) * s && m2 - m == (b2 - b) * c + (a2 - a) * s)
        by (nonlinear_arith)
        requires
            n == a * c - b * s,
            m == b * c + a * s,
            n2 == a2 * c - b2 * s,
            m2 == b2 * c + a2 * s,
    ;
    assert(-(da + db) * 10_000_000_000 <= (a2 - a) * c - (b2 - b) * s <= (da + db)
        * 10_000_000_000 && -(da + db) * 10_000_000_000 <= (b2 - b) * c + (a2 - a) * s <= (da
        + db) * 10_000_000_000) by (nonlinear_arith)
        requires
            a - da <= a2 <= a + da,
            b - db <= b2 <= b + db,
            0 <= da <= 8,
            0 <= db <= 8,
            -10_000_000_000 <= c <= 10_000_000_000,
            -10_000_000_000 <= s <= 10_000_000_000,
    ;
    lemma_div_trunc_between(-900_000_000_000_000_000, n, 900_000_000_000_000_000, 10_000_000_000);
    lemma_div_trunc_between(-900_000_000_000_000_000, m, 900_000_000_000_000_000, 10_000_000_000);
    lemma_div_trunc_remainder(n, 10_000_000_000);
    lemma_div_trunc_remainder(m, 10_000_000_000);
    let qn = div_trunc(n, 10_000_000_000);
    let qm = div_trunc(m, 10_000_000_000);
    lemma_div_trunc_between(qn - (da + db + 1), n2, qn + (da + db + 1), 10_000_000_000);
    lemma_div_trunc_between(qm - (da + db + 1), m2, qm + (da + db + 1), 10_000_000_000);
}

/// A planar rotation of inputs within `bd` stays within `2 bd + 1`.
pub proof fn lemma_rot_plane_bound(a: int, b: int, c: int, s: int, bd: int)
    requires
        0 <= bd <= 450_000_000_000_000_000,
        -bd <= a <= bd,
        -bd <= b <= bd,
        -10_000_000_000 <= c <= 10_000_000_000,
        -10_000_000_000 <= s <= 10_000_000_000,
    ensures
        -(2 * bd + 1) <= spec_rot_a(a, b, c, s) <= 2 * bd + 1,
        -(2 * bd + 1) <= spec_rot_b(a, b, c, s) <= 2 * bd + 1,
{
    assert(SCALE == 10_000_000_000 && COORD_LIMIT == 1_000_000_000_000_000_000);
    let n = a * c - b * s;
    let m = b * c + a * s;
    assert(-(2 * bd) * 10_000_000_000 <= n <= (2 * bd) * 10_000_000_000 && -(2 * bd)
        * 10_000_000_000 <= m <= (2 * bd) * 10_000_000_000) by (nonlinear_arith)
        requires
            n == a * c - b * s,
            m == b * c + a * s,
            -bd <= a <= bd,
            -bd <= b <= bd,
            -10_000_000_000 <= c <= 10_000_000_000,
            -10_000_000_000 <= s <= 10_000_000_000,
    ;
    lemma_div_trunc_between(-(2 * bd), n, 2 * bd, 10_000_000_000);
    lemma_div_trunc_between(-(2 * bd), m, 2 * bd, 10_000_000_000);
}

/// The kernel round trip: rotating a point by the per-frame angles in the
/// X-then-Y-then-Z order and then applying the inverse step (reversed
/// axis order, negated sines) returns the point to within ten fixed-point
/// units per coordinate (one billionth of a drawing unit), for any
/// cosine/sine pairs that lie exactly on the fixed-point unit circle.
pub proof fn lemma_rotation_kernel_round_trip(p: Point3, f: RotationFrame)
    requires
        -100_000_000_000_000_000 <= p.x <= 100_000_000_000_000_000,
        -100_000_000_000_000_000 <= p.y <= 100_000_000_000_000_000,
        -100_000_000_000_000_000 <= p.z <= 100_000_000_000_000_000,
        -10_000_000_000 <= f.cx <= 10_000_000_000,
        -10_000_000_000 <= f.sx <= 10_000_000_000,
        -10_000_000_000 <= f.cy <= 10_000_000_000,
        -10_000_000_000 <= f.sy <= 10_000_000_000,
        -10_000_000_000 <= f.cz <= 10_000_000_000,
        -10_000_000_000 <= f.sz <= 10_000_000_000,
        (f.cx as int) * (f.cx as int) + (f.sx as int) * (f.sx as int)
            == 100_000_000_000_000_000_000,
        (f.cy as int) * (f.cy as int) + (f.sy as int) * (f.sy as int)
            == 100_000_000_000_000_000_000,
        (f.cz as int) * (f.cz as int) + (f.sz as int) * (f.sz as int)
            == 100_000_000_000_000_000_000,
    ensures
        ({
            let r = spec_rotate_point_inverse(spec_rotate_point(p, f), f);
            p.x - 5 <= r.x <= p.x + 5 && p.y - 10 <= r.y <= p.y + 10 && p.z - 10 <= r.z
                <= p.z + 10
        }),
{
    let cx = f.cx as int;
    let sx = f.sx as int;
    let cy = f.cy as int;
    let sy = f.sy as int;
    let cz = f.cz as int;
    let sz = f.sz as int;
    // Forward pass and its bounds.
    let y1 = spec_rot_a(p.y as int, p.z as int, cx, sx);
    let z1 = spec_rot_b(p.y as int, p.z as int, cx, sx);
    lemma_rot_plane_bound(p.y as int, p.z as int, cx, sx, 100_000_000_000_000_000);
    let x2 = spec_rot_a(p.x as int, z1, cy, sy);
    let z2 = spec_rot_b(p.x as int, z1, cy, sy);
    lemma_rot_plane_bound(p.x as int, z1, cy, sy, 200_000_000_000_000_001);
    let x3 = spec_rot_a(x2, y1, cz, sz);
    let y3 = spec_rot_b(x2, y1, cz, sz);
    lemma_rot_plane_bound(x2, y1, cz, sz, 400_000_000_000_000_003);
    let q = spec_rotate_point(p, f);
    assert(q.x == x3 && q.y == y3 && q.z == z2);
    // Undo Z: within two units of the pair it rotated.
    lemma_rotate_in_plane_round_trip(x2, y1, cz, sz);
    let x4 = spec_rot_a(q.x as int, q.y as int, cz, -sz);
    let y4 = spec_rot_b(q.x as int, q.y as int, cz, -sz);
    assert(x2 - 2 <= x4 <= x2 + 2 && y1 - 2 <= y4 <= y1 + 2);
    // Undo Y: the exact round trip returns within two units, and the
    // two-unit input shift costs at most three more.
    lemma_rotate_in_plane_round_trip(p.x as int, z1, cy, sy);
    lemma_rot_plane_lipschitz(x2, z2, x4, z2, cy, -sy, 2, 0);
    let x5 = spec_rot_a(x4, q.z as int, cy, -sy);
    let z5 = spec_rot_b(x4, q.z as int, cy, -sy);
    assert(p.x - 5 <= x5 <= p.x + 5 && z1 - 5 <= z5 <= z1 + 5);
    // Undo X: the exact round trip returns within two units, and the
    // accumulated input shifts cost at most eight more.
    lemma_rotate_in_plane_round_trip(p.y as int, p.z as int, cx, sx);
    lemma_rot_plane_lipschitz(y1, z1, y4, z5, cx, -sx, 2, 5);
    let y6 = spec_rot_a(y4, z5, cx, -sx);
    let z6 = spec_rot_b(y4, z5, cx, -sx);
    assert(p.y - 10 <= y6 <= p.y + 10 && p.z - 10 <= z6 <= p.z + 10);
    let r = spec_rotate_point_inverse(q, f);
    assert(r.x == x5 && r.y == y6 && r.z == z6);
}

/// A zero angular velocity produces the identity frame (cosine one,
/// sine zero on every axis), and the kernel step under that frame moves
/// no vertex at all: the identity tick, with no noise in fixed point.
pub proof fn lemma_zero_velocity_identity_tick(p: Point3)
    requires
        p.wf(),
    ensures
        spec_frame_of(Angle3 { xa: 0, ya: 0, za: 0 }) == (RotationFrame {
            cx: SCALE,
            sx: 0,
            cy: SCALE,
            sy: 0,
            cz: SCALE,
            sz: 0,
        }),
        spec_rotate_point(
            p,
            RotationFrame { cx: SCALE, sx: 0, cy: SCALE, sy: 0, cz: SCALE, sz: 0 },
        ) == p,
{
    assert(SCALE == 10_000_000_000 && COORD_LIMIT == 1_000_000_000_000_000_000);
    lemma_div_trunc_between(0, 0, 0, 200);
    lemma_small_mod(0, crate::TWO_PI_FX as nat);
    assert(spec_range_reduce(0) == 0);
    lemma_taylor_tail_of_zero(1);
    assert(spec_sin_fx(0) == 0);
    lemma_div_trunc_between(0, 0, 0, 10_000_000_000);
    assert(taylor_next(0, SCALE as int, 0) == 0);
    lemma_taylor_tail_of_zero(2);
    assert(taylor_tail(0, SCALE as int, 0) == SCALE as int);
    assert(spec_cos_fx(0) == SCALE as int);
    lemma_rot_identity(p.y as int, p.z as int);
    lemma_rot_identity(p.x as int, p.z as int);
    lemma_rot_identity(p.x as int, p.y as int);
}

/// At angle zero every Taylor term vanishes.
proof fn lemma_taylor_tail_of_zero(k: int)
    requires
        k >= 0,
    ensures
        taylor_tail(0, 0, k) == 0,
    decreases (if k > 25 { 0int } else { 27 - k }),
{
    if k <= 25 {
        assert(1 <= (k + 1) * (k + 2)) by (nonlinear_arith)
            requires
                k >= 0,
        ;
        lemma_div_trunc_between(0, 0, 0, 10_000_000_000);
        lemma_div_trunc_between(0, 0, 0, (k + 1) * (k + 2));
        assert(SCALE == 10_000_000_000);
        assert(taylor_next(0, 0, k) == 0);
        lemma_taylor_tail_of_zero(k + 2);
    }
}

/// A planar rotation by cosine one and sine zero is the identity.
proof fn lemma_rot_identity(a: int, b: int)
    requires
        -COORD_LIMIT <= a <= COORD_LIMIT,
        -COORD_LIMIT <= b <= COORD_LIMIT,
    ensures
        spec_rot_a(a, b, SCALE as int, 0) == a,
        spec_rot_b(a, b, SCALE as int, 0) == b,
{
    assert(SCALE == 10_000_000_000 && COORD_LIMIT == 1_000_000_000_000_000_000);
    assert(a * (SCALE as int) == a * 10_000_000_000 && b * (SCALE as int) == b
        * 10_000_000_000 && a * 0 == 0 && b * 0 == 0) by (nonlinear_arith)
        requires
            SCALE == 10_000_000_000,
    ;
    lemma_div_trunc_between(a, a * 10_000_000_000, a, 10_000_000_000);
    lemma_div_trunc_between(b, b * 10_000_000_000, b, 10_000_000_000);
}

/// Reversing the direction twice is the identity on the whole state.
pub proof fn lemma_reverse_twice(m: Model)
    ensures
        spec_apply(spec_apply(m, Command::ReverseDirection), Command::ReverseDirection) == m,
{
    assert(spec_apply(spec_apply(m, Command::ReverseDirection), Command::ReverseDirection) =~= m);
}

/// Scaling the velocity up and then down is the identity, as long as the
/// exponent has not reached its saturation ceiling.
pub proof fn lemma_scale_round_trip(m: Model)
    requires
        -VEL_EXP_LIMIT <= m.velocity_exponent < VEL_EXP_LIMIT,
    ensures
        spec_apply(spec_apply(m, Command::ScaleVelocity(true)), Command::ScaleVelocity(false))
            == m,
{
    assert(spec_apply(spec_apply(m, Command::ScaleVelocity(true)), Command::ScaleVelocity(false))
        =~= m);
}

/// Adding a replica raises the count by exactly one; removing lowers it
/// by one when positive and keeps it at zero otherwise, and nothing else
/// in the state moves.
pub proof fn lemma_replica_counting(m: Model)
    ensures
        spec_apply(m, Command::AddReplica).replica_count == m.replica_count + 1,
        m.replica_count > 0 ==> spec_apply(m, Command::RemoveReplica).replica_count
            == m.replica_count - 1,
        m.replica_count == 0 ==> spec_apply(m, Command::RemoveReplica).replica_count == 0,
        spec_apply(m, Command::AddReplica) == (Model {
            replica_count: m.replica_count + 1,
            ..m
        }),
{
    assert(spec_apply(m, Command::AddReplica) =~= Model {
        replica_count: m.replica_count + 1,
        ..m
    });
}

} // verus!
