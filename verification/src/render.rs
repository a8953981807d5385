//! The view adapter: turn the simulation state into plain drawing
//! primitives (line segments and labeled points) for the host to render.

use vstd::prelude::*;
use crate::geometry::{Point2, spec_project};
use crate::engine::{Model, SimulationState, spec_cube_edges};

verus! {

/// A line segment on the drawing surface, fixed-point scaled endpoints.
#[derive(Clone, Copy, PartialEq, Eq, Structural, Debug)]
pub struct Segment {
    pub x1: i64,
    pub y1: i64,
    pub x2: i64,
    pub y2: i64,
}

/// A vertex marker: a position and the vertex index drawn beside it.
#[derive(Clone, Copy, PartialEq, Eq, Structural, Debug)]
pub struct LabeledPoint {
    pub x: i64,
    pub y: i64,
    pub label: usize,
}

/// One frame's drawing: the projected edge segments, the labeled vertex
/// markers, and how many replica surfaces repeat the same drawing.
pub struct Scene {
    pub segments: Vec<Segment>,
    pub points: Vec<LabeledPoint>,
    pub replica_count: usize,
}

/// The segment that edge `i` of the model projects to.
pub open spec fn spec_segment_of(m: Model, i: int) -> Segment {
    let e = m.edges[i];
    let p1 = spec_project(m.vertices[e.a as int]);
    let p2 = spec_project(m.vertices[e.b as int]);
    Segment { x1: p1.x, y1: p1.y, x2: p2.x, y2: p2.y }
}

/// The labeled marker that vertex `i` of the model projects to.
pub open spec fn spec_point_of(m: Model, i: int) -> LabeledPoint {
    let q = spec_project(m.vertices[i]);
    LabeledPoint { x: q.x, y: q.y, label: i as usize }
}

/// Every cube edge holds vertex indices below eight.
pub proof fn lemma_cube_edges_in_range()
    ensures
        forall|i: int|
            0 <= i < spec_cube_edges().len() ==> (#[trigger] spec_cube_edges()[i]).a < 8 && spec_cube_edges()[i].b < 8,
{
}

impl Scene {
    /// A scene agrees with a model when it draws exactly the model's
    /// projected edges and vertices and repeats them per replica.
    pub open spec fn matches(self, m: Model) -> bool {
        &&& self.segments@.len() == m.edges.len()
        &&& forall|i: int|
            0 <= i < m.edges.len() ==> self.segments@[i] == spec_segment_of(m, i)
        &&& self.points@.len() == m.vertices.len()
        &&& forall|i: int|
            0 <= i < m.vertices.len() ==> self.points@[i] == spec_point_of(m, i)
        &&& self.replica_count == m.replica_count
    }
}

/// Produce the drawing primitives for the current state: one segment per
/// edge in drawing order, one labeled marker per vertex in index order.
pub fn render_scene(s: &SimulationState) -> (r: Scene)
    requires
        s.wf(),
    ensures
        r.matches(s@),
{
    proof {
        lemma_cube_edges_in_range();
    }
    let mut segments: Vec<Segment> = Vec::new();
    let mut j: usize = 0;
    while j < s.edges.len()
        invariant
            s.wf(),
            j <= s.edges@.len(),
            segments@.len() == j as int,
            forall|i: int| 0 <= i < j as int ==> segments@[i] == spec_segment_of(s@, i),
        decreases s.edges@.len() - j,
    {
        proof {
            lemma_cube_edges_in_range();
        }
        let e = s.edges[j];
        let p1: Point2 = s.vertices[e.a].project();
        let p2: Point2 = s.vertices[e.b].project();
        segments.push(Segment { x1: p1.x, y1: p1.y, x2: p2.x, y2: p2.y });
        j = j + 1;
    }
    let mut points: Vec<LabeledPoint> = Vec::new();
    let mut i: usize = 0;
    while i < s.vertices.len()
        invariant
            s.wf(),
            i <= s.vertices@.len(),
            points@.len() == i as int,
            forall|k: int| 0 <= k < i as int ==> points@[k] == spec_point_of(s@, k),
        decreases s.vertices@.len() - i,
    {
        let q: Point2 = s.vertices[i].project();
        points.push(LabeledPoint { x: q.x, y: q.y, label: i });
        i = i + 1;
    }
    Scene { segments, points, replica_count: s.replica_count }
}

} // verus!
