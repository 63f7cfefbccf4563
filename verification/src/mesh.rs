use vstd::prelude::*;
use crate::world::TERRAIN_SEGMENTS;

verus! {

/// Segments of the arc that a shield is drawn with.
pub const SHIELD_MESH_SEGMENTS: u32 = 32;

/// The two triangles of segment `k` of a shield arc. The arc has an inner
/// and an outer vertex at each of its segment boundaries, stored in turn, so
/// segment `k` spans vertices `2k .. 2k + 3`.
pub open spec fn arc_segment_triangles(k: nat) -> Seq<u32> {
    seq![
        (2 * k) as u32,
        (2 * k + 1) as u32,
        (2 * k + 2) as u32,
        (2 * k + 1) as u32,
        (2 * k + 3) as u32,
        (2 * k + 2) as u32,
    ]
}

/// The index buffer of an arc of `n` segments: the triangles of its
/// segments in order.
pub open spec fn arc_indices(n: nat) -> Seq<u32>
    decreases n,
{
    if n == 0 {
        Seq::empty()
    } else {
        arc_indices((n - 1) as nat) + arc_segment_triangles((n - 1) as nat)
    }
}

/// The two triangles of terrain column `k`. Each column has its own four
/// vertices, stored as bottom left, bottom right, top right, top left.
pub open spec fn column_triangles(k: nat) -> Seq<u32> {
    seq![
        (4 * k) as u32,
        (4 * k + 1) as u32,
        (4 * k + 2) as u32,
        (4 * k) as u32,
        (4 * k + 2) as u32,
        (4 * k + 3) as u32,
    ]
}

/// The index buffer of a terrain of `n` columns: the triangles of its
/// columns in order.
pub open spec fn terrain_indices(n: nat) -> Seq<u32>
    decreases n,
{
    if n == 0 {
        Seq::empty()
    } else {
        terrain_indices((n - 1) as nat) + column_triangles((n - 1) as nat)
    }
}

/// The index buffer of the shield arc mesh, whose vertices are the inner and
/// outer points of its segment boundaries.
pub fn shield_mesh_indices() -> (r: Vec<u32>)
    ensures
        r@ == arc_indices(SHIELD_MESH_SEGMENTS as nat),
{
    let mut v: Vec<u32> = Vec::new();
    let mut i: u32 = 0;
    while i < SHIELD_MESH_SEGMENTS
        invariant
            i <= SHIELD_MESH_SEGMENTS,
            v@ == arc_indices(i as nat),
        decreases SHIELD_MESH_SEGMENTS - i,
    {
        let base: u32 = i * 2;
        v.push(base);
        v.push(base + 1);
        v.push(base + 2);
        v.push(base + 1);
        v.push(base + 3);
        v.push(base + 2);
        proof {
            assert(v@ =~= arc_indices(i as nat) + arc_segment_triangles(i as nat));
        }
        i = i + 1;
    }
    v
}

/// The index buffer of the terrain mesh, whose vertices are the four corners
/// of each column.
pub fn terrain_mesh_indices() -> (r: Vec<u32>)
    ensures
        r@ == terrain_indices(TERRAIN_SEGMENTS as nat),
{
    let mut v: Vec<u32> = Vec::new();
    let mut i: u32 = 0;
    while (i as usize) < TERRAIN_SEGMENTS
        invariant
            i as usize <= TERRAIN_SEGMENTS,
            v@ == terrain_indices(i as nat),
        decreases TERRAIN_SEGMENTS - i as usize,
    {
        let base: u32 = i * 4;
        v.push(base);
        v.push(base + 1);
        v.push(base + 2);
        v.push(base);
        v.push(base + 2);
        v.push(base + 3);
        proof {
            assert(v@ =~= terrain_indices(i as nat) + column_triangles(i as nat));
        }
        i = i + 1;
    }
    v
}

/// An arc of `n` segments has two triangles per segment, every index names
/// one of its `2n + 2` vertices, and triangle `t` of segment `k` is the
/// segment's own.
pub proof fn lemma_arc_indices_valid(n: nat)
    requires
        2 * n + 3 <= u32::MAX,
    ensures
        arc_indices(n).len() == 6 * n,
        forall|j: int| 0 <= j < 6 * n ==> (#[trigger] arc_indices(n)[j]) < 2 * n + 2,
        forall|k: int| 0 <= k < n ==> (#[trigger] arc_indices(n).subrange(6 * k, 6 * k + 6)) == arc_segment_triangles(k as nat),
    decreases n,
{
    if n > 0 {
        let m: nat = (n - 1) as nat;
        lemma_arc_indices_valid(m);
        let prev = arc_indices(m);
        let all = arc_indices(n);
        assert(all == prev + arc_segment_triangles(m));
        assert forall|j: int| 0 <= j < 6 * n implies (#[trigger] all[j]) < 2 * n + 2 by {
            if j < 6 * m {
                assert(all[j] == prev[j]);
            } else {
                assert(all[j] == arc_segment_triangles(m)[j - 6 * m]);
            }
        }
        assert forall|k: int| 0 <= k < n implies (#[trigger] all.subrange(6 * k, 6 * k + 6)) == arc_segment_triangles(k as nat) by {
            if k < m {
                assert(all.subrange(6 * k, 6 * k + 6) =~= prev.subrange(6 * k, 6 * k + 6));
            } else {
                assert(all.subrange(6 * k, 6 * k + 6) =~= arc_segment_triangles(m));
            }
        }
    }
}

/// A terrain of `n` columns has two triangles per column, every index names
/// one of its `4n` vertices, and triangle `t` of column `k` is the column's
/// own.
pub proof fn lemma_terrain_indices_valid(n: nat)
    requires
        4 * n <= u32::MAX,
    ensures
        terrain_indices(n).len() == 6 * n,
        forall|j: int| 0 <= j < 6 * n ==> (#[trigger] terrain_indices(n)[j]) < 4 * n,
        forall|k: int| 0 <= k < n ==> (#[trigger] terrain_indices(n).subrange(6 * k, 6 * k + 6)) == column_triangles(k as nat),
    decreases n,
{
    if n > 0 {
        let m: nat = (n - 1) as nat;
        lemma_terrain_indices_valid(m);
        let prev = terrain_indices(m);
        let all = terrain_indices(n);
        assert(all == prev + column_triangles(m));
        assert forall|j: int| 0 <= j < 6 * n implies (#[trigger] all[j]) < 4 * n by {
            if j < 6 * m {
                assert(all[j] == prev[j]);
            } else {
                assert(all[j] == column_triangles(m)[j - 6 * m]);
            }
        }
        assert forall|k: int| 0 <= k < n implies (#[trigger] all.subrange(6 * k, 6 * k + 6)) == column_triangles(k as nat) by {
            if k < m {
                assert(all.subrange(6 * k, 6 * k + 6) =~= prev.subrange(6 * k, 6 * k + 6));
            } else {
                assert(all.subrange(6 * k, 6 * k + 6) =~= column_triangles(m));
            }
        }
    }
}

/// No triangle of either mesh is degenerate: its three corners are three
/// different vertices.
pub proof fn lemma_triangles_not_degenerate(k: nat)
    requires
        4 * k + 3 <= u32::MAX,
    ensures
        arc_segment_triangles(k)[0] != arc_segment_triangles(k)[1],
        arc_segment_triangles(k)[1] != arc_segment_triangles(k)[2],
        arc_segment_triangles(k)[0] != arc_segment_triangles(k)[2],
        arc_segment_triangles(k)[3] != arc_segment_triangles(k)[4],
        arc_segment_triangles(k)[4] != arc_segment_triangles(k)[5],
        arc_segment_triangles(k)[3] != arc_segment_triangles(k)[5],
        column_triangles(k)[0] != column_triangles(k)[1],
        column_triangles(k)[1] != column_triangles(k)[2],
        column_triangles(k)[0] != column_triangles(k)[2],
        column_triangles(k)[3] != column_triangles(k)[4],
        column_triangles(k)[4] != column_triangles(k)[5],
        column_triangles(k)[3] != column_triangles(k)[5],
{
}

} // verus!
