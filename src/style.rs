use vstd::prelude::*;
use crate::geometry::{Bounds, Pt2D, bounds_of, lemma_points_in_bounds};

verus! {

/// How a polygon is filled: one RGBA color (channels 0..=255), or a texture of the
/// atlas named by its id.
#[derive(Clone, Copy, Debug, PartialEq, Eq, Structural)]
pub enum Color {
    RGBA(u8, u8, u8, u8),
    Texture(u32),
}

/// What one vertex carries besides its position. A texture coordinate is kept as an
/// exact fraction: `u = u_num / u_den`, `v = v_num / v_den`.
#[derive(Clone, Copy, Debug, PartialEq, Eq, Structural)]
pub enum Style {
    Rgba(u8, u8, u8, u8),
    Tex { id: u32, u_num: u32, u_den: u32, v_num: u32, v_den: u32 },
}

#[derive(Clone, Copy, Debug, PartialEq, Eq, Structural)]
pub struct Vertex {
    pub position: Pt2D,
    pub style: Style,
}

impl Style {
    /// The fourth component of the flattened style: the alpha of a color, and zero for
    /// a texture lookup. It is the only tag the shader sees.
    pub open spec fn last_component_spec(self) -> u8 {
        match self {
            Style::Rgba(_, _, _, a) => a,
            Style::Tex { .. } => 0,
        }
    }

    pub fn last_component(&self) -> (r: u8)
        ensures
            r == self.last_component_spec(),
    {
        match self {
            Style::Rgba(_, _, _, a) => *a,
            Style::Tex { .. } => 0,
        }
    }

    /// Reads the style back by its tag alone, as the shader does: a zero fourth
    /// component means a texture lookup.
    pub fn decodes_as_texture(&self) -> (r: bool)
        ensures
            r == (self.last_component_spec() == 0),
    {
        self.last_component() == 0
    }
}

/// A texture fill cannot be laid over a polygon whose bounding box has no width or
/// no height.
pub open spec fn degenerate(c: Color, pts: Seq<Pt2D>) -> bool {
    c is Texture && {
        let b = bounds_of(pts);
        b.min_x == b.max_x || b.min_y == b.max_y
    }
}

/// The style of a vertex at `p` in a polygon with bounding box `b`.
pub open spec fn style_at(c: Color, b: Bounds, p: Pt2D) -> Style {
    match c {
        Color::RGBA(r, g, bl, a) => Style::Rgba(r, g, bl, a),
        Color::Texture(id) => Style::Tex {
            id,
            u_num: (p.x - b.min_x) as u32,
            u_den: (b.max_x - b.min_x) as u32,
            v_num: (p.y - b.min_y) as u32,
            v_den: (b.max_y - b.min_y) as u32,
        },
    }
}

/// The vertices of one polygon under one fill, in the order of its points.
pub open spec fn encode_polygon(c: Color, pts: Seq<Pt2D>) -> Seq<Vertex> {
    pts.map_values(|p: Pt2D| Vertex { position: p, style: style_at(c, bounds_of(pts), p) })
}

/// Appends the vertices of one polygon to `out`; `b` is the polygon's bounding box,
/// read only for a texture fill.
pub fn encode_into(c: Color, pts: &Vec<Pt2D>, b: Bounds, out: &mut Vec<Vertex>)
    requires
        pts@.len() > 0,
        c is Texture ==> b == bounds_of(pts@),
        !degenerate(c, pts@),
    ensures
        final(out)@ == old(out)@ + encode_polygon(c, pts@),
{
    let ghost start = old(out)@;
    proof {
        lemma_points_in_bounds(pts@);
    }
    let mut i: usize = 0;
    while i < pts.len()
        invariant
            i <= pts@.len(),
            pts@.len() > 0,
            c is Texture ==> b == bounds_of(pts@),
            out@ == start + encode_polygon(c, pts@).take(i as int),
            forall|k: int|
                0 <= k < pts@.len() ==> {
                    let bb = bounds_of(pts@);
                    &&& bb.min_x <= #[trigger] pts@[k].x <= bb.max_x
                    &&& bb.min_y <= pts@[k].y <= bb.max_y
                },
        decreases pts@.len() - i,
    {
        let p = pts[i];
        let style = match c {
            Color::RGBA(r, g, bl, a) => Style::Rgba(r, g, bl, a),
            Color::Texture(id) => Style::Tex {
                id,
                u_num: (p.x as i64 - b.min_x as i64) as u32,
                u_den: (b.max_x as i64 - b.min_x as i64) as u32,
                v_num: (p.y as i64 - b.min_y as i64) as u32,
                v_den: (b.max_y as i64 - b.min_y as i64) as u32,
            },
        };
        out.push(Vertex { position: p, style });
        proof {
            assert(encode_polygon(c, pts@)[i as int] == Vertex { position: p, style });
            assert(encode_polygon(c, pts@).take(i as int + 1)
                =~= encode_polygon(c, pts@).take(i as int).push(Vertex { position: p, style }));
        }
        i = i + 1;
    }
    assert(encode_polygon(c, pts@).take(pts@.len() as int) =~= encode_polygon(c, pts@));
}

/// A solid fill gives every vertex of the polygon the same style, whose fourth
/// component is the color's alpha; a texture fill gives every vertex a zero fourth
/// component. So, for any color that is not fully transparent, reading the tag back
/// tells the fill kind that was encoded.
pub proof fn lemma_fill_kind_round_trip(c: Color, pts: Seq<Pt2D>)
    ensures
        c matches Color::RGBA(r, g, bl, a) ==> forall|i: int|
            0 <= i < pts.len() ==> #[trigger] encode_polygon(c, pts)[i].style == Style::Rgba(r, g, bl, a),
        c matches Color::RGBA(_, _, _, a) ==> forall|i: int|
            0 <= i < pts.len() ==> #[trigger] encode_polygon(c, pts)[i].style.last_component_spec() == a,
        c is Texture ==> forall|i: int|
            0 <= i < pts.len() ==> #[trigger] encode_polygon(c, pts)[i].style.last_component_spec() == 0,
        !(c matches Color::RGBA(_, _, _, a) && a == 0) ==> forall|i: int|
            0 <= i < pts.len() ==> ((#[trigger] encode_polygon(c, pts)[i].style.last_component_spec() == 0)
                <==> c is Texture),
{
}

/// Every vertex of a textured polygon gets coordinates in the unit square: each
/// fraction has a positive denominator and a numerator no larger than it.
pub proof fn lemma_texture_coords_in_unit_square(c: Color, pts: Seq<Pt2D>)
    requires
        c is Texture,
        pts.len() > 0,
        !degenerate(c, pts),
    ensures
        forall|i: int|
            0 <= i < pts.len() ==> (#[trigger] encode_polygon(c, pts)[i].style matches Style::Tex {
                u_num,
                u_den,
                v_num,
                v_den,
                ..
            } && 0 < u_den && u_num <= u_den && 0 < v_den && v_num <= v_den),
{
    lemma_points_in_bounds(pts);
    assert forall|i: int| 0 <= i < pts.len() implies (#[trigger] encode_polygon(c, pts)[i].style matches Style::Tex {
        u_num,
        u_den,
        v_num,
        v_den,
        ..
    } && 0 < u_den && u_num <= u_den && 0 < v_den && v_num <= v_den) by {
        let b = bounds_of(pts);
        assert(b.min_x <= pts[i].x <= b.max_x);
        assert(b.min_y <= pts[i].y <= b.max_y);
    }
}

} // verus!
