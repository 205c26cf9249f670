use vstd::prelude::*;
use crate::batch::{Drawable, GeomBatch, Prerender, add_capped, mesh_bytes, upload_outcome};
use crate::geometry::Polygon;
use crate::mesh::{UploadError, lemma_same_shapes, mesh_indices, mesh_vertices, same_shapes};
use crate::style::Color;
use crate::uniforms::{Canvas, RenderMode, Transform, Uniforms};

verus! {

#[derive(Clone, Copy, Debug, PartialEq, Eq, Structural)]
pub enum HatchingError {
    /// Hatching was turned on while it was already on.
    AlreadyEnabled,
    /// Hatching was turned off while it was already off.
    AlreadyDisabled,
}

/// The state of drawing during one frame: the uniforms in force, the hatching flag,
/// the number of draw calls made, and the screenshot settings.
pub struct GfxCtx {
    canvas: Canvas,
    prerender: Prerender,
    num_draw_calls: usize,
    uniforms: Uniforms,
    hatching: bool,
    screencap_mode: bool,
    naming_hint: Option<String>,
}

impl GfxCtx {
    pub closed spec fn canvas_spec(&self) -> Canvas {
        self.canvas
    }

    pub closed spec fn prerender_spec(&self) -> Prerender {
        self.prerender
    }

    pub closed spec fn draw_calls(&self) -> usize {
        self.num_draw_calls
    }

    pub closed spec fn uniforms_spec(&self) -> Uniforms {
        self.uniforms
    }

    pub closed spec fn hatching_spec(&self) -> bool {
        self.hatching
    }

    pub closed spec fn screencap_spec(&self) -> bool {
        self.screencap_mode
    }

    pub closed spec fn naming_hint_spec(&self) -> Option<String> {
        self.naming_hint
    }

    /// The uniforms are those of the canvas's camera, under the current hatching flag.
    pub open spec fn is_unforked(&self) -> bool {
        self.uniforms_spec() == Uniforms::primary(self.canvas_spec(), self.hatching_spec())
    }

    /// `a` and `b` differ at most in their uniforms.
    pub open spec fn same_but_uniforms(a: GfxCtx, b: GfxCtx) -> bool {
        &&& a.canvas_spec() == b.canvas_spec()
        &&& a.prerender_spec() == b.prerender_spec()
        &&& a.draw_calls() == b.draw_calls()
        &&& a.hatching_spec() == b.hatching_spec()
        &&& a.screencap_spec() == b.screencap_spec()
        &&& a.naming_hint_spec() == b.naming_hint_spec()
    }

    /// `b` is `a` after a fork to the camera `t`.
    pub open spec fn fork_step(a: GfxCtx, b: GfxCtx, t: Transform) -> bool {
        &&& GfxCtx::same_but_uniforms(a, b)
        &&& b.uniforms_spec() == Uniforms::forked(a.canvas_spec(), t)
    }

    /// `b` is `a` after an unfork.
    pub open spec fn unfork_step(a: GfxCtx, b: GfxCtx) -> bool {
        &&& GfxCtx::same_but_uniforms(a, b)
        &&& b.uniforms_spec() == Uniforms::primary(a.canvas_spec(), a.hatching_spec())
    }

    /// `b` is `a` with one more draw call counted.
    pub open spec fn draw_step(a: GfxCtx, b: GfxCtx) -> bool {
        &&& b.draw_calls() == a.draw_calls() + 1
        &&& a.canvas_spec() == b.canvas_spec()
        &&& a.prerender_spec() == b.prerender_spec()
        &&& a.uniforms_spec() == b.uniforms_spec()
        &&& a.hatching_spec() == b.hatching_spec()
        &&& a.screencap_spec() == b.screencap_spec()
        &&& a.naming_hint_spec() == b.naming_hint_spec()
    }

    pub fn new(canvas: Canvas, prerender: Prerender, screencap_mode: bool) -> (r: GfxCtx)
        ensures
            r.canvas_spec() == canvas,
            r.prerender_spec() == prerender,
            r.draw_calls() == 0,
            !r.hatching_spec(),
            r.is_unforked(),
            r.screencap_spec() == screencap_mode,
            r.naming_hint_spec() is None,
    {
        let uniforms = Uniforms::new(&canvas);
        GfxCtx {
            canvas,
            prerender,
            num_draw_calls: 0,
            uniforms,
            hatching: false,
            screencap_mode,
            naming_hint: None,
        }
    }

    pub fn canvas(&self) -> (r: Canvas)
        ensures
            r == self.canvas_spec(),
    {
        self.canvas
    }

    pub fn num_draw_calls(&self) -> (r: usize)
        ensures
            r == self.draw_calls(),
    {
        self.num_draw_calls
    }

    pub fn prerender(&self) -> (r: &Prerender)
        ensures
            *r == self.prerender_spec(),
    {
        &self.prerender
    }

    /// Ends the frame, handing back the prerender for the next one.
    pub fn into_prerender(self) -> (r: Prerender)
        ensures
            r == self.prerender_spec(),
    {
        self.prerender
    }

    pub fn uniforms(&self) -> (r: Uniforms)
        ensures
            r == self.uniforms_spec(),
    {
        self.uniforms
    }

    pub fn is_hatching(&self) -> (r: bool)
        ensures
            r == self.hatching_spec(),
    {
        self.hatching
    }

    /// Draws from now on with the camera `t`, in screen space, until `unfork`.
    pub fn fork(&mut self, t: Transform)
        ensures
            GfxCtx::fork_step(*old(self), *final(self), t),
    {
        self.uniforms = Uniforms {
            transform: t,
            window_width: self.canvas.window_width,
            window_height: self.canvas.window_height,
            mode: RenderMode::ScreenSpace,
        };
    }

    /// Draws from now on in raw screen pixels, until `unfork`.
    pub fn fork_screenspace(&mut self)
        ensures
            GfxCtx::fork_step(*old(self), *final(self), Transform::identity_spec()),
    {
        self.fork(Transform::identity());
    }

    /// Goes back to the canvas's camera, under the current hatching flag.
    pub fn unfork(&mut self)
        ensures
            GfxCtx::unfork_step(*old(self), *final(self)),
            final(self).is_unforked(),
    {
        let mut u = Uniforms::new(&self.canvas);
        if self.hatching {
            u.mode = RenderMode::Hatching;
        }
        self.uniforms = u;
    }

    /// Turns the hatching overlay on; an error, with nothing changed, when it is on.
    pub fn enable_hatching(&mut self) -> (r: Result<(), HatchingError>)
        ensures
            old(self).hatching_spec() <==> r == Err::<(), HatchingError>(HatchingError::AlreadyEnabled),
            old(self).hatching_spec() ==> *final(self) == *old(self),
            !old(self).hatching_spec() ==> {
                &&& r is Ok
                &&& final(self).hatching_spec()
                &&& final(self).is_unforked()
                &&& final(self).canvas_spec() == old(self).canvas_spec()
                &&& final(self).prerender_spec() == old(self).prerender_spec()
                &&& final(self).draw_calls() == old(self).draw_calls()
                &&& final(self).screencap_spec() == old(self).screencap_spec()
                &&& final(self).naming_hint_spec() == old(self).naming_hint_spec()
            },
    {
        if self.hatching {
            return Err(HatchingError::AlreadyEnabled);
        }
        self.hatching = true;
        self.unfork();
        Ok(())
    }

    /// Turns the hatching overlay off; an error, with nothing changed, when it is off.
    pub fn disable_hatching(&mut self) -> (r: Result<(), HatchingError>)
        ensures
            !old(self).hatching_spec() <==> r == Err::<(), HatchingError>(HatchingError::AlreadyDisabled),
            !old(self).hatching_spec() ==> *final(self) == *old(self),
            old(self).hatching_spec() ==> {
                &&& r is Ok
                &&& !final(self).hatching_spec()
                &&& final(self).is_unforked()
                &&& final(self).canvas_spec() == old(self).canvas_spec()
                &&& final(self).prerender_spec() == old(self).prerender_spec()
                &&& final(self).draw_calls() == old(self).draw_calls()
                &&& final(self).screencap_spec() == old(self).screencap_spec()
                &&& final(self).naming_hint_spec() == old(self).naming_hint_spec()
            },
    {
        if !self.hatching {
            return Err(HatchingError::AlreadyDisabled);
        }
        self.hatching = false;
        self.unfork();
        Ok(())
    }

    /// The color to clear the frame to; only a solid color can clear it.
    pub fn clear(&self, color: Color) -> (r: (u8, u8, u8, u8))
        requires
            color is RGBA,
        ensures
            color == Color::RGBA(r.0, r.1, r.2, r.3),
    {
        match color {
            Color::RGBA(r, g, b, a) => (r, g, b, a),
            Color::Texture(_) => (0, 0, 0, 0),
        }
    }

    /// Counts one draw call of `_obj` under the current uniforms.
    pub fn redraw(&mut self, _obj: &Drawable)
        requires
            old(self).draw_calls() < usize::MAX,
        ensures
            GfxCtx::draw_step(*old(self), *final(self)),
    {
        self.num_draw_calls = self.num_draw_calls + 1;
    }

    /// Makes a one-off drawable of the pairs and counts its draw call; on an error
    /// nothing is counted.
    pub fn draw_pairs(&mut self, list: &Vec<(Color, Polygon)>) -> (r: Result<Drawable, UploadError>)
        requires
            old(self).draw_calls() < usize::MAX,
        ensures
            upload_outcome(list@, false, r),
            r is Ok ==> GfxCtx::draw_step(*old(self), *final(self)),
            r is Err ==> *final(self) == *old(self),
    {
        let r = self.prerender.upload_temporary(list);
        if let Ok(obj) = &r {
            self.redraw(obj);
        }
        r
    }

    pub fn draw_polygon(&mut self, color: Color, poly: &Polygon) -> (r: Result<Drawable, UploadError>)
        requires
            old(self).draw_calls() < usize::MAX,
        ensures
            upload_outcome(seq![(color, *poly)], false, r),
            r is Ok ==> GfxCtx::draw_step(*old(self), *final(self)),
            r is Err ==> *final(self) == *old(self),
    {
        let list = vec![(color, poly.clone())];
        proof {
            assert(same_shapes(list@, seq![(color, *poly)]));
            lemma_same_shapes(list@, seq![(color, *poly)]);
        }
        self.draw_pairs(&list)
    }

    pub fn draw_polygons(&mut self, color: Color, polygons: &Vec<Polygon>) -> (r: Result<Drawable, UploadError>)
        requires
            old(self).draw_calls() < usize::MAX,
        ensures
            upload_outcome(polygons@.map_values(|p: Polygon| (color, p)), false, r),
            r is Ok ==> GfxCtx::draw_step(*old(self), *final(self)),
            r is Err ==> *final(self) == *old(self),
    {
        let ghost target = polygons@.map_values(|p: Polygon| (color, p));
        let mut list: Vec<(Color, Polygon)> = Vec::new();
        let mut i: usize = 0;
        while i < polygons.len()
            invariant
                i <= polygons@.len(),
                target == polygons@.map_values(|p: Polygon| (color, p)),
                same_shapes(list@, target.take(i as int)),
            decreases polygons@.len() - i,
        {
            list.push((color, polygons[i].clone()));
            i = i + 1;
            proof {
                let t = target.take(i as int);
                assert forall|j: int| 0 <= j < list@.len() implies {
                    &&& (#[trigger] list@[j]).0 == t[j].0
                    &&& list@[j].1.points() == t[j].1.points()
                    &&& list@[j].1.indices() == t[j].1.indices()
                } by {
                    assert(t[j] == target[j]);
                    if j < i - 1 {
                        assert(target.take(i - 1)[j] == target[j]);
                    }
                }
            }
        }
        proof {
            assert(target.take(polygons@.len() as int) =~= target);
            lemma_same_shapes(list@, target);
        }
        self.draw_pairs(&list)
    }

    /// Uploads a batch into a persistent drawable, counted by the prerender.
    pub fn upload(&mut self, batch: GeomBatch) -> (r: Result<Drawable, UploadError>)
        ensures
            upload_outcome(batch@, true, r),
            final(self).draw_calls() == old(self).draw_calls(),
            final(self).uniforms_spec() == old(self).uniforms_spec(),
            final(self).canvas_spec() == old(self).canvas_spec(),
            final(self).hatching_spec() == old(self).hatching_spec(),
            r is Ok ==> final(self).prerender_spec().uploads() == add_capped(old(self).prerender_spec().uploads(), 1)
                && final(self).prerender_spec().bytes() == add_capped(
                old(self).prerender_spec().bytes(),
                mesh_bytes(mesh_vertices(batch@).len(), mesh_indices(batch@).len()),
            ),
            r is Err ==> final(self).prerender_spec() == old(self).prerender_spec(),
    {
        self.prerender.upload(batch)
    }

    pub fn get_num_uploads(&self) -> (r: usize)
        ensures
            r == self.prerender_spec().uploads(),
    {
        self.prerender.get_num_uploads()
    }

    pub fn is_screencap(&self) -> (r: bool)
        ensures
            r == self.screencap_spec(),
    {
        self.screencap_mode
    }

    /// Names the screenshot of this frame; at most once, and only in screenshot mode.
    pub fn set_screencap_naming_hint(&mut self, hint: String)
        requires
            old(self).screencap_spec(),
            old(self).naming_hint_spec() is None,
        ensures
            final(self).naming_hint_spec() == Some(hint),
            final(self).canvas_spec() == old(self).canvas_spec(),
            final(self).prerender_spec() == old(self).prerender_spec(),
            final(self).draw_calls() == old(self).draw_calls(),
            final(self).uniforms_spec() == old(self).uniforms_spec(),
            final(self).hatching_spec() == old(self).hatching_spec(),
            final(self).screencap_spec(),
    {
        self.naming_hint = Some(hint);
    }

    pub fn naming_hint(&self) -> (r: &Option<String>)
        ensures
            *r == self.naming_hint_spec(),
    {
        &self.naming_hint
    }
}

/// Forking and then unforking at once leaves the frame as it was before the fork,
/// uniforms included.
pub proof fn lemma_fork_then_unfork(before: GfxCtx, forked: GfxCtx, after: GfxCtx, t: Transform)
    requires
        before.is_unforked(),
        GfxCtx::fork_step(before, forked, t),
        GfxCtx::unfork_step(forked, after),
    ensures
        GfxCtx::same_but_uniforms(before, after),
        after.uniforms_spec() == before.uniforms_spec(),
{
}

impl GeomBatch {
    /// Uploads the batch for one draw and counts that draw.
    pub fn draw(self, g: &mut GfxCtx) -> (r: Result<Drawable, UploadError>)
        requires
            old(g).draw_calls() < usize::MAX,
        ensures
            upload_outcome(self@, false, r),
            r is Ok ==> GfxCtx::draw_step(*old(g), *final(g)),
            r is Err ==> *final(g) == *old(g),
    {
        g.draw_pairs(self.pairs())
    }
}

} // verus!
