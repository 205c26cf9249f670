use vstd::prelude::*;
use crate::geometry::Polygon;
use crate::mesh::{MAX_VERTICES, Mesh, UploadError, build_mesh, has_degenerate, mesh_indices, mesh_vertices, total_points};
use crate::style::Color;

verus! {

/// Bytes one vertex takes on the GPU: two position floats and four style floats.
pub const VERTEX_BYTES: u128 = 24;

/// Bytes one index takes on the GPU.
pub const INDEX_BYTES: u128 = 4;

/// An ordered list of (fill, polygon) pairs, gathered to be uploaded at once.
pub struct GeomBatch {
    list: Vec<(Color, Polygon)>,
}

impl View for GeomBatch {
    type V = Seq<(Color, Polygon)>;

    closed spec fn view(&self) -> Seq<(Color, Polygon)> {
        self.list@
    }
}

fn clone_pairs(list: &Vec<(Color, Polygon)>, out: &mut Vec<(Color, Polygon)>)
    ensures
        final(out)@.len() == old(out)@.len() + list@.len(),
        forall|i: int| 0 <= i < old(out)@.len() ==> #[trigger] final(out)@[i] == old(out)@[i],
        forall|i: int|
            0 <= i < list@.len() ==> {
                let a = #[trigger] final(out)@[old(out)@.len() + i];
                &&& a.0 == list@[i].0
                &&& a.1.points() == list@[i].1.points()
                &&& a.1.indices() == list@[i].1.indices()
            },
{
    let ghost start = old(out)@;
    let mut i: usize = 0;
    while i < list.len()
        invariant
            i <= list@.len(),
            out@.len() == start.len() + i,
            forall|j: int| 0 <= j < start.len() ==> #[trigger] out@[j] == start[j],
            forall|j: int|
                0 <= j < i ==> {
                    let a = #[trigger] out@[start.len() + j];
                    &&& a.0 == list@[j].0
                    &&& a.1.points() == list@[j].1.points()
                    &&& a.1.indices() == list@[j].1.indices()
                },
        decreases list@.len() - i,
    {
        let p = list[i].1.clone();
        out.push((list[i].0, p));
        i = i + 1;
    }
}

impl GeomBatch {
    pub fn new() -> (r: GeomBatch)
        ensures
            r@ == Seq::<(Color, Polygon)>::empty(),
    {
        GeomBatch { list: Vec::new() }
    }

    pub fn pairs(&self) -> (r: &Vec<(Color, Polygon)>)
        ensures
            r@ == self@,
    {
        &self.list
    }

    /// Appends one pair.
    pub fn push(&mut self, color: Color, p: Polygon)
        ensures
            final(self)@ == old(self)@.push((color, p)),
    {
        self.list.push((color, p));
    }

    /// Appends each polygon, in order, with the same fill.
    pub fn extend(&mut self, color: Color, polys: Vec<Polygon>)
        ensures
            final(self)@.len() == old(self)@.len() + polys@.len(),
            forall|i: int| 0 <= i < old(self)@.len() ==> #[trigger] final(self)@[i] == old(self)@[i],
            forall|i: int|
                0 <= i < polys@.len() ==> {
                    let a = #[trigger] final(self)@[old(self)@.len() + i];
                    &&& a.0 == color
                    &&& a.1.points() == polys@[i].points()
                    &&& a.1.indices() == polys@[i].indices()
                },
    {
        let ghost start = self@;
        let mut i: usize = 0;
        while i < polys.len()
            invariant
                i <= polys@.len(),
                self@.len() == start.len() + i,
                forall|j: int| 0 <= j < start.len() ==> #[trigger] self@[j] == start[j],
                forall|j: int|
                    0 <= j < i ==> {
                        let a = #[trigger] self@[start.len() + j];
                        &&& a.0 == color
                        &&& a.1.points() == polys@[j].points()
                        &&& a.1.indices() == polys@[j].indices()
                    },
            decreases polys@.len() - i,
        {
            let p = polys[i].clone();
            self.list.push((color, p));
            i = i + 1;
        }
    }

    /// Appends copies of every pair of `other`, in order; `other` is left as it was.
    pub fn append(&mut self, other: &GeomBatch)
        ensures
            final(self)@.len() == old(self)@.len() + other@.len(),
            forall|i: int| 0 <= i < old(self)@.len() ==> #[trigger] final(self)@[i] == old(self)@[i],
            forall|i: int|
                0 <= i < other@.len() ==> {
                    let a = #[trigger] final(self)@[old(self)@.len() + i];
                    &&& a.0 == other@[i].0
                    &&& a.1.points() == other@[i].1.points()
                    &&& a.1.indices() == other@[i].1.indices()
                },
    {
        clone_pairs(&other.list, &mut self.list);
    }
}

/// The contents of a vertex buffer and an index buffer, and whether they are meant
/// to be kept across frames.
pub struct Drawable {
    pub mesh: Mesh,
    pub persistent: bool,
}

/// `r` is what uploading `list` must give: the error that `build_mesh` names for it,
/// or its mesh.
pub open spec fn upload_outcome(list: Seq<(Color, Polygon)>, persistent: bool, r: Result<Drawable, UploadError>) -> bool {
    if total_points(list) > MAX_VERTICES {
        r == Err::<Drawable, UploadError>(UploadError::TooManyVertices)
    } else if has_degenerate(list) {
        r == Err::<Drawable, UploadError>(UploadError::InvalidGeometry)
    } else {
        r matches Ok(d) && d.persistent == persistent && d.mesh.vertices@ == mesh_vertices(list)
            && d.mesh.indices@ == mesh_indices(list)
    }
}

fn make_drawable(persistent: bool, list: &Vec<(Color, Polygon)>) -> (r: Result<Drawable, UploadError>)
    ensures
        upload_outcome(list@, persistent, r),
{
    match build_mesh(list) {
        Ok(mesh) => Ok(Drawable { mesh, persistent }),
        Err(e) => Err(e),
    }
}

pub open spec fn mesh_bytes(vertices: nat, indices: nat) -> int {
    VERTEX_BYTES * vertices + INDEX_BYTES * indices
}

pub open spec fn add_capped(total: usize, n: int) -> usize {
    if total + n > usize::MAX { usize::MAX } else { (total + n) as usize }
}

/// Turns batches into drawables and keeps count of the persistent ones: how many
/// were made and how many bytes they hold. Both counts stop at `usize::MAX`.
pub struct Prerender {
    num_uploads: usize,
    total_bytes_uploaded: usize,
}

impl Prerender {
    pub closed spec fn uploads(&self) -> usize {
        self.num_uploads
    }

    pub closed spec fn bytes(&self) -> usize {
        self.total_bytes_uploaded
    }

    pub fn new() -> (r: Prerender)
        ensures
            r.uploads() == 0,
            r.bytes() == 0,
    {
        Prerender { num_uploads: 0, total_bytes_uploaded: 0 }
    }

    pub fn get_num_uploads(&self) -> (r: usize)
        ensures
            r == self.uploads(),
    {
        self.num_uploads
    }

    pub fn get_total_bytes_uploaded(&self) -> (r: usize)
        ensures
            r == self.bytes(),
    {
        self.total_bytes_uploaded
    }

    fn upload_pairs(&mut self, list: &Vec<(Color, Polygon)>) -> (r: Result<Drawable, UploadError>)
        ensures
            upload_outcome(list@, true, r),
            r is Ok ==> final(self).uploads() == add_capped(old(self).uploads(), 1)
                && final(self).bytes() == add_capped(
                old(self).bytes(),
                mesh_bytes(mesh_vertices(list@).len(), mesh_indices(list@).len()),
            ),
            r is Err ==> *final(self) == *old(self),
    {
        let r = make_drawable(true, list);
        if let Ok(d) = &r {
            let bytes: u128 = VERTEX_BYTES * d.mesh.vertices.len() as u128 + INDEX_BYTES
                * d.mesh.indices.len() as u128;
            let total: u128 = self.total_bytes_uploaded as u128 + bytes;
            self.total_bytes_uploaded = if total > usize::MAX as u128 {
                usize::MAX
            } else {
                total as usize
            };
            self.num_uploads = self.num_uploads.saturating_add(1);
        }
        r
    }

    /// Uploads the pairs into a persistent drawable.
    pub fn upload_borrowed(&mut self, list: &Vec<(Color, Polygon)>) -> (r: Result<Drawable, UploadError>)
        ensures
            upload_outcome(list@, true, r),
            r is Ok ==> final(self).uploads() == add_capped(old(self).uploads(), 1)
                && final(self).bytes() == add_capped(
                old(self).bytes(),
                mesh_bytes(mesh_vertices(list@).len(), mesh_indices(list@).len()),
            ),
            r is Err ==> *final(self) == *old(self),
    {
        self.upload_pairs(list)
    }

    /// Uploads a batch into a persistent drawable.
    pub fn upload(&mut self, batch: GeomBatch) -> (r: Result<Drawable, UploadError>)
        ensures
            upload_outcome(batch@, true, r),
            r is Ok ==> final(self).uploads() == add_capped(old(self).uploads(), 1)
                && final(self).bytes() == add_capped(
                old(self).bytes(),
                mesh_bytes(mesh_vertices(batch@).len(), mesh_indices(batch@).len()),
            ),
            r is Err ==> *final(self) == *old(self),
    {
        self.upload_pairs(batch.pairs())
    }

    /// Uploads the pairs into a drawable used for one draw only; the counts do not move.
    pub fn upload_temporary(&self, list: &Vec<(Color, Polygon)>) -> (r: Result<Drawable, UploadError>)
        ensures
            upload_outcome(list@, false, r),
    {
        make_drawable(false, list)
    }
}

} // verus!
