//! Wall meshes: a ribbon of vertex pairs along the track, one pair per step,
//! and two triangles between consecutive pairs.
use vstd::prelude::*;

verus! {

/// Height of a wall above its base line.
pub const WALL_HEIGHT: i64 = 4;

/// Distance along the track between two consecutive vertex pairs.
pub const SEGMENT_LENGTH: i64 = 10;

/// Number of vertices emitted per step: the base point and the raised point.
pub const VERTICES_PER_STEP: usize = 2;

/// Largest step count whose vertex indices all fit in `u32`.
pub const MAX_CYCLE_STEPS: usize = 0x7fff_fffe;

/// One vertex of a wall, on the integer grid of the track.
///
/// `depth` is the coordinate along the track and `height` the vertical one.
/// The horizontal coordinate is a noise sample taken at `depth`, added by the
/// caller together with the wall's lateral offset.
#[derive(Clone, Copy, Debug, PartialEq, Eq)]
pub struct WallVertex {
    pub step: usize,
    pub depth: i64,
    pub height: i64,
}

/// A wall mesh: vertices, and triangles as triples of vertex indices.
#[derive(Clone, Debug)]
pub struct WallMesh {
    pub vertices: Vec<WallVertex>,
    pub triangles: Vec<(u32, u32, u32)>,
}

/// The vertex at index `i` of any wall: index `2 * step` is the base point of
/// `step`, index `2 * step + 1` the same point raised by `WALL_HEIGHT`.
pub open spec fn wall_vertex(i: int) -> WallVertex {
    let step = i / 2;
    WallVertex {
        step: step as usize,
        depth: (-step * SEGMENT_LENGTH) as i64,
        height: if i % 2 == 0 { 0 } else { WALL_HEIGHT },
    }
}

/// The triangulation pattern of one segment, over its four vertex indices.
pub open spec fn segment_pattern(k: int) -> (int, int, int) {
    if k == 0 { (0, 1, 2) } else { (2, 3, 1) }
}

/// Triangle `t` of any wall: the pattern entry `t % 2`, offset by two
/// vertices per segment.
pub open spec fn wall_triangle(t: int) -> (u32, u32, u32) {
    let p = segment_pattern(t % 2);
    let base = 2 * (t / 2);
    ((p.0 + base) as u32, (p.1 + base) as u32, (p.2 + base) as u32)
}

impl WallMesh {
    /// Every triangle index names a vertex of the mesh.
    pub open spec fn well_formed(&self) -> bool {
        forall|t: int|
            0 <= t < self.triangles@.len() ==> {
                &&& (self.triangles@[t].0 as int) < self.vertices@.len()
                &&& (self.triangles@[t].1 as int) < self.vertices@.len()
                &&& (self.triangles@[t].2 as int) < self.vertices@.len()
            }
    }

    /// The mesh is the wall of `cycle_steps` segments: `2 * (cycle_steps + 1)`
    /// vertices and `2 * cycle_steps` triangles, laid out as `wall_vertex`
    /// and `wall_triangle` say.
    pub open spec fn is_wall_of(&self, cycle_steps: nat) -> bool {
        &&& self.vertices@.len() == 2 * (cycle_steps + 1)
        &&& self.triangles@.len() == 2 * cycle_steps
        &&& forall|i: int| 0 <= i < self.vertices@.len() ==> self.vertices@[i] == wall_vertex(i)
        &&& forall|t: int| 0 <= t < self.triangles@.len() ==> self.triangles@[t] == wall_triangle(t)
    }
}

/// Builds the wall mesh of `cycle_steps` segments.
pub fn wall_mesh(cycle_steps: usize) -> (m: WallMesh)
    requires
        cycle_steps <= MAX_CYCLE_STEPS,
    ensures
        m.is_wall_of(cycle_steps as nat),
        m.well_formed(),
{
    let mut vertices: Vec<WallVertex> = Vec::new();
    let mut step: usize = 0;
    while step <= cycle_steps
        invariant
            cycle_steps <= MAX_CYCLE_STEPS,
            step <= cycle_steps + 1,
            vertices@.len() == 2 * step,
            forall|i: int| 0 <= i < vertices@.len() ==> vertices@[i] == wall_vertex(i),
        decreases cycle_steps + 1 - step,
    {
        let depth: i64 = -(step as i64) * SEGMENT_LENGTH;
        vertices.push(WallVertex { step, depth, height: 0 });
        vertices.push(WallVertex { step, depth, height: WALL_HEIGHT });
        step = step + 1;
    }
    let mut triangles: Vec<(u32, u32, u32)> = Vec::new();
    let mut seg: usize = 0;
    while seg < cycle_steps
        invariant
            cycle_steps <= MAX_CYCLE_STEPS,
            seg <= cycle_steps,
            triangles@.len() == 2 * seg,
            forall|t: int| 0 <= t < triangles@.len() ==> triangles@[t] == wall_triangle(t),
        decreases cycle_steps - seg,
    {
        let base: u32 = (seg * VERTICES_PER_STEP) as u32;
        triangles.push((base, base + 1, base + 2));
        triangles.push((base + 2, base + 3, base + 1));
        seg = seg + 1;
    }
    let m = WallMesh { vertices, triangles };
    proof {
        lemma_wall_mesh_shape(m, cycle_steps as nat);
    }
    m
}

/// Every index of every triangle of a wall of `cycle_steps` segments is below
/// its vertex count `2 * (cycle_steps + 1)`.
pub proof fn lemma_wall_indices_in_range(cycle_steps: nat)
    requires
        cycle_steps <= MAX_CYCLE_STEPS,
    ensures
        forall|t: int|
            0 <= t < 2 * cycle_steps ==> {
                &&& (wall_triangle(t).0 as int) < 2 * (cycle_steps + 1)
                &&& (wall_triangle(t).1 as int) < 2 * (cycle_steps + 1)
                &&& (wall_triangle(t).2 as int) < 2 * (cycle_steps + 1)
            },
{
    assert forall|t: int| 0 <= t < 2 * cycle_steps implies {
        &&& (wall_triangle(t).0 as int) < 2 * (cycle_steps + 1)
        &&& (wall_triangle(t).1 as int) < 2 * (cycle_steps + 1)
        &&& (wall_triangle(t).2 as int) < 2 * (cycle_steps + 1)
    } by {
        let s = t / 2;
        assert(0 <= s < cycle_steps);
        assert(2 * s + 3 <= 2 * cycle_steps + 1);
    }
}

/// Shape of a wall mesh: for every step count `n`, the wall of `n` segments
/// has `2 * (n + 1)` vertices and `2 * n` triangles, and each triangle index
/// is below the vertex count.
pub proof fn lemma_wall_mesh_shape(m: WallMesh, n: nat)
    requires
        n <= MAX_CYCLE_STEPS,
        m.is_wall_of(n),
    ensures
        m.vertices@.len() == 2 * (n + 1),
        m.triangles@.len() == 2 * n,
        m.well_formed(),
{
    lemma_wall_indices_in_range(n);
    assert forall|t: int| 0 <= t < m.triangles@.len() implies {
        &&& (m.triangles@[t].0 as int) < m.vertices@.len()
        &&& (m.triangles@[t].1 as int) < m.vertices@.len()
        &&& (m.triangles@[t].2 as int) < m.vertices@.len()
    } by {
        assert(m.triangles@[t] == wall_triangle(t));
    }
}

/// Determinism: two walls built for the same step count hold identical
/// vertex and triangle buffers.
pub proof fn lemma_wall_mesh_deterministic(a: WallMesh, b: WallMesh, n: nat)
    requires
        a.is_wall_of(n),
        b.is_wall_of(n),
    ensures
        a.vertices@ == b.vertices@,
        a.triangles@ == b.triangles@,
{
    assert forall|i: int| 0 <= i < a.vertices@.len() implies a.vertices@[i] == b.vertices@[i] by {
        assert(a.vertices@[i] == wall_vertex(i));
        assert(b.vertices@[i] == wall_vertex(i));
    }
    assert forall|t: int| 0 <= t < a.triangles@.len() implies a.triangles@[t] == b.triangles@[t] by {
        assert(a.triangles@[t] == wall_triangle(t));
        assert(b.triangles@[t] == wall_triangle(t));
    }
    assert(a.vertices@ =~= b.vertices@);
    assert(a.triangles@ =~= b.triangles@);
}

} // verus!
