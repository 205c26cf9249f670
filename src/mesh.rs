use vstd::prelude::*;
use crate::geometry::{Polygon, triangulation_ok};
use crate::style::{Color, Vertex, degenerate, encode_into, encode_polygon};

verus! {

/// The most vertices one mesh can hold: every index must fit in 32 bits.
pub const MAX_VERTICES: u64 = 4294967296;

#[derive(Clone, Copy, Debug, PartialEq, Eq, Structural)]
pub enum UploadError {
    /// A texture fill over a polygon whose bounding box has no width or no height.
    InvalidGeometry,
    /// More vertices than 32-bit indices can address.
    TooManyVertices,
}

/// One contiguous vertex list and the triangle indices into it.
pub struct Mesh {
    pub vertices: Vec<Vertex>,
    pub indices: Vec<u32>,
}

pub open spec fn total_points(list: Seq<(Color, Polygon)>) -> nat
    decreases list.len(),
{
    if list.len() == 0 {
        0
    } else {
        total_points(list.drop_last()) + list.last().1.points().len()
    }
}

/// The vertices of every pair, in order.
pub open spec fn mesh_vertices(list: Seq<(Color, Polygon)>) -> Seq<Vertex>
    decreases list.len(),
{
    if list.len() == 0 {
        seq![]
    } else {
        mesh_vertices(list.drop_last()) + encode_polygon(list.last().0, list.last().1.points())
    }
}

pub open spec fn offset_indices(offset: nat, idx: Seq<usize>) -> Seq<u32> {
    idx.map_values(|i: usize| (offset + i) as u32)
}

/// The triangle indices of every pair, in order, each moved past the vertices of the
/// pairs before it.
pub open spec fn mesh_indices(list: Seq<(Color, Polygon)>) -> Seq<u32>
    decreases list.len(),
{
    if list.len() == 0 {
        seq![]
    } else {
        let init = list.drop_last();
        mesh_indices(init) + offset_indices(total_points(init), list.last().1.indices())
    }
}

pub open spec fn has_degenerate(list: Seq<(Color, Polygon)>) -> bool {
    exists|i: int| 0 <= i < list.len() && #[trigger] degenerate(list[i].0, list[i].1.points())
}

pub open spec fn all_triangulated(list: Seq<(Color, Polygon)>) -> bool {
    forall|i: int| 0 <= i < list.len() ==> triangulation_ok(#[trigger] list[i].1.points(), list[i].1.indices())
}

pub proof fn lemma_total_prefix(list: Seq<(Color, Polygon)>, j: int)
    requires
        0 <= j <= list.len(),
    ensures
        total_points(list.take(j)) <= total_points(list),
    decreases list.len(),
{
    if j == list.len() {
        assert(list.take(j) =~= list);
    } else {
        lemma_total_prefix(list.drop_last(), j);
        assert(list.drop_last().take(j) =~= list.take(j));
    }
}

pub proof fn lemma_mesh_vertices_len(list: Seq<(Color, Polygon)>)
    ensures
        mesh_vertices(list).len() == total_points(list),
    decreases list.len(),
{
    if list.len() > 0 {
        lemma_mesh_vertices_len(list.drop_last());
    }
}

/// Batching many polygons into one mesh keeps every vertex, and after offsetting no
/// index points past the end of the combined vertex list.
pub proof fn lemma_indices_in_range(list: Seq<(Color, Polygon)>)
    requires
        all_triangulated(list),
        total_points(list) <= MAX_VERTICES,
    ensures
        mesh_vertices(list).len() == total_points(list),
        forall|k: int| 0 <= k < mesh_indices(list).len() ==> #[trigger] mesh_indices(list)[k] < total_points(list),
    decreases list.len(),
{
    lemma_mesh_vertices_len(list);
    if list.len() > 0 {
        let init = list.drop_last();
        assert(all_triangulated(init)) by {
            assert forall|i: int| 0 <= i < init.len() implies triangulation_ok(#[trigger] init[i].1.points(), init[i].1.indices()) by {
                assert(init[i] == list[i]);
            }
        }
        lemma_indices_in_range(init);
        let last = list.last();
        assert(last == list[list.len() - 1]);
        assert(triangulation_ok(last.1.points(), last.1.indices()));
        let a = mesh_indices(init);
        let o = offset_indices(total_points(init), last.1.indices());
        assert forall|k: int| 0 <= k < mesh_indices(list).len() implies #[trigger] mesh_indices(list)[k] < total_points(list) by {
            if k < a.len() {
                assert(mesh_indices(list)[k] == a[k]);
            } else {
                let m = k - a.len();
                assert(mesh_indices(list)[k] == o[m]);
                assert(last.1.indices()[m] < last.1.points().len());
            }
        }
    }
}

/// Counts the vertices of every pair; `None` once the count passes `MAX_VERTICES`.
fn count_vertices(list: &Vec<(Color, Polygon)>) -> (r: Option<u64>)
    ensures
        r is Some <==> total_points(list@) <= MAX_VERTICES,
        r matches Some(n) ==> n == total_points(list@),
{
    let mut total: u64 = 0;
    let mut i: usize = 0;
    while i < list.len()
        invariant
            i <= list@.len(),
            total == total_points(list@.take(i as int)),
            total <= MAX_VERTICES,
        decreases list@.len() - i,
    {
        let n = list[i].1.points_ref().len();
        proof {
            assert(list@.take(i as int + 1).drop_last() =~= list@.take(i as int));
        }
        if n as u64 > MAX_VERTICES - total {
            proof {
                lemma_total_prefix(list@, i as int + 1);
            }
            return None;
        }
        total = total + n as u64;
        i = i + 1;
    }
    assert(list@.take(list@.len() as int) =~= list@);
    Some(total)
}

/// Lays out every (fill, polygon) pair, in order, as one vertex list and one index
/// list, so that the whole batch takes one draw call.
pub fn build_mesh(list: &Vec<(Color, Polygon)>) -> (r: Result<Mesh, UploadError>)
    ensures
        r == Err::<Mesh, UploadError>(UploadError::TooManyVertices) <==> total_points(list@) > MAX_VERTICES,
        r == Err::<Mesh, UploadError>(UploadError::InvalidGeometry) <==> total_points(list@) <= MAX_VERTICES
            && has_degenerate(list@),
        r is Ok <==> total_points(list@) <= MAX_VERTICES && !has_degenerate(list@),
        r matches Ok(m) ==> {
            &&& m.vertices@ == mesh_vertices(list@)
            &&& m.indices@ == mesh_indices(list@)
            &&& m.vertices@.len() == total_points(list@)
            &&& forall|k: int| 0 <= k < m.indices@.len() ==> #[trigger] m.indices@[k] < m.vertices@.len()
        },
{
    if count_vertices(list).is_none() {
        return Err(UploadError::TooManyVertices);
    }
    let mut vertices: Vec<Vertex> = Vec::new();
    let mut indices: Vec<u32> = Vec::new();
    let mut i: usize = 0;
    while i < list.len()
        invariant
            i <= list@.len(),
            total_points(list@) <= MAX_VERTICES,
            vertices@ == mesh_vertices(list@.take(i as int)),
            indices@ == mesh_indices(list@.take(i as int)),
            all_triangulated(list@.take(i as int)),
            forall|j: int| 0 <= j < i ==> !#[trigger] degenerate(list@[j].0, list@[j].1.points()),
        decreases list@.len() - i,
    {
        let color = list[i].0;
        let poly = &list[i].1;
        let pts = poly.points_ref();
        let raw = poly.indices_ref();
        let ghost prev = list@.take(i as int);
        let ghost next = list@.take(i as int + 1);
        proof {
            assert(next.drop_last() =~= prev);
            assert(next.last() == list@[i as int]);
            lemma_total_prefix(list@, i as int + 1);
            lemma_mesh_vertices_len(prev);
        }
        let b = poly.get_bounds();
        if let Color::Texture(_) = color {
            if b.min_x == b.max_x || b.min_y == b.max_y {
                assert(degenerate(list@[i as int].0, list@[i as int].1.points()));
                return Err(UploadError::InvalidGeometry);
            }
        }
        let offset = vertices.len() as u64;
        encode_into(color, pts, b, &mut vertices);
        let ghost before = indices@;
        let mut k: usize = 0;
        while k < raw.len()
            invariant
                k <= raw@.len(),
                raw@ == poly.indices(),
                triangulation_ok(poly.points(), poly.indices()),
                offset + poly.points().len() <= MAX_VERTICES,
                indices@ == before + offset_indices(offset as nat, raw@).take(k as int),
            decreases raw@.len() - k,
        {
            let ix = raw[k];
            indices.push((offset + ix as u64) as u32);
            proof {
                assert(offset_indices(offset as nat, raw@).take(k as int + 1)
                    =~= offset_indices(offset as nat, raw@).take(k as int).push((offset + ix as u64) as u32));
            }
            k = k + 1;
        }
        proof {
            assert(offset_indices(offset as nat, raw@).take(raw@.len() as int) =~= offset_indices(offset as nat, raw@));
            assert(all_triangulated(next)) by {
                assert forall|j: int| 0 <= j < next.len() implies triangulation_ok(#[trigger] next[j].1.points(), next[j].1.indices()) by {
                    if j < i {
                        assert(next[j] == prev[j]);
                    }
                }
            }
        }
        i = i + 1;
    }
    proof {
        assert(list@.take(list@.len() as int) =~= list@);
        lemma_indices_in_range(list@);
        lemma_mesh_vertices_len(list@);
    }
    Ok(Mesh { vertices, indices })
}

/// Two lists that pair the same fills with polygons of the same points and triangles.
pub open spec fn same_shapes(l1: Seq<(Color, Polygon)>, l2: Seq<(Color, Polygon)>) -> bool {
    &&& l1.len() == l2.len()
    &&& forall|i: int|
        0 <= i < l1.len() ==> {
            &&& (#[trigger] l1[i]).0 == l2[i].0
            &&& l1[i].1.points() == l2[i].1.points()
            &&& l1[i].1.indices() == l2[i].1.indices()
        }
}

/// A mesh depends only on the fills, points and triangles of its pairs.
pub proof fn lemma_same_shapes(l1: Seq<(Color, Polygon)>, l2: Seq<(Color, Polygon)>)
    requires
        same_shapes(l1, l2),
    ensures
        total_points(l1) == total_points(l2),
        mesh_vertices(l1) == mesh_vertices(l2),
        mesh_indices(l1) == mesh_indices(l2),
        has_degenerate(l1) == has_degenerate(l2),
    decreases l1.len(),
{
    if l1.len() > 0 {
        let (i1, i2) = (l1.drop_last(), l2.drop_last());
        assert(same_shapes(i1, i2)) by {
            assert forall|i: int| 0 <= i < i1.len() implies {
                &&& (#[trigger] i1[i]).0 == i2[i].0
                &&& i1[i].1.points() == i2[i].1.points()
                &&& i1[i].1.indices() == i2[i].1.indices()
            } by {
                assert(i1[i] == l1[i] && i2[i] == l2[i]);
            }
        }
        lemma_same_shapes(i1, i2);
        assert(l1.last() == l1[l1.len() - 1] && l2.last() == l2[l2.len() - 1]);
        if has_degenerate(l1) {
            let w = choose|i: int| 0 <= i < l1.len() && #[trigger] degenerate(l1[i].0, l1[i].1.points());
            assert(l1[w] == l1[w]);
            assert(degenerate(l2[w].0, l2[w].1.points()));
        }
        if has_degenerate(l2) {
            let w = choose|i: int| 0 <= i < l2.len() && #[trigger] degenerate(l2[i].0, l2[i].1.points());
            assert(l1[w] == l1[w]);
            assert(degenerate(l1[w].0, l1[w].1.points()));
        }
    }
}

} // verus!
