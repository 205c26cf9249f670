use ezgui::batch::{GeomBatch, Prerender};
use ezgui::context::{GfxCtx, HatchingError};
use ezgui::geometry::{Bounds, Polygon, Pt2D};
use ezgui::layout::{aligned_text_box, centered_box, HorizontalAlignment, ScreenBox, VerticalAlignment};
use ezgui::mesh::{build_mesh, UploadError};
use ezgui::style::{Color, Style};
use ezgui::uniforms::{Canvas, RenderMode, Transform, Uniforms};

fn polygon(points: &[(i32, i32)], indices: &[usize]) -> Polygon {
    let pts: Vec<Pt2D> = points.iter().map(|&(x, y)| Pt2D::new(x, y)).collect();
    Polygon::from_triangles(pts, indices.to_vec()).unwrap()
}

fn unit_square(x: i32, y: i32) -> Polygon {
    polygon(&[(x, y), (x + 1, y), (x + 1, y + 1), (x, y + 1)], &[0, 1, 2, 0, 2, 3])
}

fn canvas(cam_x: f32, cam_y: f32, zoom: f32) -> Canvas {
    Canvas {
        cam_x: cam_x.to_bits(),
        cam_y: cam_y.to_bits(),
        cam_zoom: zoom.to_bits(),
        window_width: 800.0f32.to_bits(),
        window_height: 600.0f32.to_bits(),
    }
}

fn screen_of(t: Transform, x: f32, y: f32) -> (f32, f32) {
    let zoom = f32::from_bits(t.zoom);
    (x * zoom - f32::from_bits(t.cam_x), y * zoom - f32::from_bits(t.cam_y))
}

#[test]
fn clear_then_one_triangle_counts_one_draw() {
    let mut g = GfxCtx::new(canvas(0.0, 0.0, 1.0), Prerender::new(), false);
    assert_eq!(g.clear(Color::RGBA(255, 255, 255, 255)), (255, 255, 255, 255));
    assert_eq!(g.num_draw_calls(), 0);
    let tri = polygon(&[(0, 0), (1600, 0), (0, 1200)], &[0, 1, 2]);
    let d = g.draw_polygon(Color::RGBA(0, 0, 0, 255), &tri).unwrap();
    assert!(!d.persistent);
    assert_eq!(g.num_draw_calls(), 1);
}

#[test]
fn five_hundred_squares_one_draw() {
    let mut g = GfxCtx::new(canvas(3.0, 4.0, 2.0), Prerender::new(), false);
    let mut batch = GeomBatch::new();
    for i in 0..500u32 {
        let color = Color::RGBA((i % 256) as u8, (i / 256) as u8, 7, 255);
        batch.push(color, unit_square(i as i32 * 2, 0));
    }
    let d = batch.draw(&mut g).unwrap();
    assert_eq!(g.num_draw_calls(), 1);
    assert_eq!(d.mesh.vertices.len(), 500 * 4);
    assert_eq!(d.mesh.indices.len(), 500 * 6);
    assert!(d.mesh.indices.iter().all(|&i| (i as usize) < 2000));
    assert_eq!(d.mesh.indices[6..12].to_vec(), vec![4, 5, 6, 4, 6, 7]);
}

#[test]
fn screenspace_ignores_camera() {
    for (cx, cy, z) in [(0.0f32, 0.0f32, 1.0f32), (37.5, -12.0, 2.5), (-1000.0, 500.0, 0.25)] {
        let mut g = GfxCtx::new(canvas(cx, cy, z), Prerender::new(), false);
        g.fork_screenspace();
        let u = g.uniforms();
        assert_eq!(u.mode, RenderMode::ScreenSpace);
        assert_eq!(u.transform, Transform::identity());
        assert_eq!(screen_of(u.transform, 10.0, 10.0), (10.0, 10.0));
        assert_eq!(screen_of(u.transform, 20.0, 20.0), (20.0, 20.0));
        g.draw_polygon(Color::RGBA(1, 2, 3, 255), &polygon(&[(10, 10), (20, 10), (20, 20), (10, 20)], &[0, 1, 2, 0, 2, 3]))
            .unwrap();
        assert_eq!(g.num_draw_calls(), 1);
    }
}

#[test]
fn batched_indices_are_offset_and_in_range() {
    let tri = polygon(&[(0, 0), (5, 0), (0, 5)], &[0, 1, 2]);
    let list = vec![(Color::RGBA(9, 9, 9, 255), tri), (Color::Texture(3), unit_square(10, 10))];
    let m = build_mesh(&list).unwrap();
    assert_eq!(m.vertices.len(), 7);
    assert_eq!(m.indices, vec![0, 1, 2, 3, 4, 5, 3, 5, 6]);
    assert!(m.indices.iter().all(|&i| (i as usize) < m.vertices.len()));
    assert_eq!(m.vertices[3].position, Pt2D::new(10, 10));
}

#[test]
fn solid_fill_style_is_uniform_and_tagged() {
    let list = vec![(Color::RGBA(10, 20, 30, 40), unit_square(0, 0))];
    let m = build_mesh(&list).unwrap();
    for v in &m.vertices {
        assert_eq!(v.style, Style::Rgba(10, 20, 30, 40));
        assert_eq!(v.style.last_component(), 40);
        assert!(!v.style.decodes_as_texture());
    }
    let tex = build_mesh(&vec![(Color::Texture(2), unit_square(0, 0))]).unwrap();
    for v in &tex.vertices {
        assert_eq!(v.style.last_component(), 0);
        assert!(v.style.decodes_as_texture());
    }
}

#[test]
fn texture_coords_lie_in_unit_square() {
    let p = polygon(&[(0, 0), (4, 0), (4, 2), (0, 2), (2, 1)], &[0, 1, 4, 1, 2, 4, 2, 3, 4, 3, 0, 4]);
    let m = build_mesh(&vec![(Color::Texture(5), p)]).unwrap();
    for v in &m.vertices {
        match v.style {
            Style::Tex { id, u_num, u_den, v_num, v_den } => {
                assert_eq!(id, 5);
                assert_eq!((u_den, v_den), (4, 2));
                assert!(u_num <= u_den && v_num <= v_den);
            }
            _ => panic!("expected a texture style"),
        }
    }
    assert_eq!(m.vertices[4].style, Style::Tex { id: 5, u_num: 2, u_den: 4, v_num: 1, v_den: 2 });
}

#[test]
fn fork_then_unfork_restores_uniforms() {
    let mut g = GfxCtx::new(canvas(12.0, -3.0, 1.5), Prerender::new(), false);
    let before = g.uniforms();
    assert_eq!(before, Uniforms::new(&g.canvas()));
    g.fork(Transform { cam_x: 5.0f32.to_bits(), cam_y: 6.0f32.to_bits(), zoom: 0.5f32.to_bits() });
    assert_eq!(g.uniforms().mode, RenderMode::ScreenSpace);
    assert_ne!(g.uniforms(), before);
    g.unfork();
    assert_eq!(g.uniforms(), before);

    g.enable_hatching().unwrap();
    let hatched = g.uniforms();
    assert_eq!(hatched.mode, RenderMode::Hatching);
    assert_eq!(hatched.mode.code(), 1);
    g.fork_screenspace();
    assert_eq!(g.uniforms().mode.code(), 2);
    g.unfork();
    assert_eq!(g.uniforms(), hatched);
}

#[test]
fn hatching_twice_fails() {
    let mut g = GfxCtx::new(canvas(0.0, 0.0, 1.0), Prerender::new(), false);
    assert_eq!(g.disable_hatching(), Err(HatchingError::AlreadyDisabled));
    assert_eq!(g.enable_hatching(), Ok(()));
    assert!(g.is_hatching());
    assert_eq!(g.enable_hatching(), Err(HatchingError::AlreadyEnabled));
    assert!(g.is_hatching());
    assert_eq!(g.disable_hatching(), Ok(()));
    assert_eq!(g.disable_hatching(), Err(HatchingError::AlreadyDisabled));
    assert_eq!(g.uniforms().mode, RenderMode::NoHatching);
}

#[test]
fn degenerate_texture_polygon_is_rejected() {
    let flat = polygon(&[(0, 0), (5, 0), (9, 0)], &[0, 1, 2]);
    let list = vec![(Color::Texture(1), flat)];
    assert!(matches!(build_mesh(&list), Err(UploadError::InvalidGeometry)));
    let flat2 = polygon(&[(0, 0), (5, 0), (9, 0)], &[0, 1, 2]);
    assert!(build_mesh(&vec![(Color::RGBA(1, 1, 1, 1), flat2)]).is_ok());
    let mut g = GfxCtx::new(canvas(0.0, 0.0, 1.0), Prerender::new(), false);
    let flat3 = polygon(&[(0, 0), (0, 5), (0, 9)], &[0, 1, 2]);
    assert!(matches!(g.draw_polygon(Color::Texture(1), &flat3), Err(UploadError::InvalidGeometry)));
    assert_eq!(g.num_draw_calls(), 0);
}

#[test]
fn invalid_triangulations_are_refused() {
    assert!(Polygon::from_triangles(vec![], vec![]).is_none());
    assert!(Polygon::from_triangles(vec![Pt2D::new(0, 0)], vec![0, 0]).is_none());
    assert!(Polygon::from_triangles(vec![Pt2D::new(0, 0), Pt2D::new(1, 1)], vec![0, 1, 2]).is_none());
    assert!(Polygon::from_triangles(vec![Pt2D::new(0, 0), Pt2D::new(1, 1)], vec![0, 1, 1]).is_some());
}

#[test]
fn persistent_uploads_are_counted() {
    let mut p = Prerender::new();
    let mut b = GeomBatch::new();
    b.push(Color::RGBA(1, 2, 3, 4), unit_square(0, 0));
    let d = p.upload(b).unwrap();
    assert!(d.persistent);
    assert_eq!(p.get_num_uploads(), 1);
    assert_eq!(p.get_total_bytes_uploaded(), 4 * 24 + 6 * 4);
    let t = p.upload_temporary(&vec![(Color::RGBA(1, 2, 3, 4), unit_square(0, 0))]).unwrap();
    assert!(!t.persistent);
    assert_eq!(p.get_num_uploads(), 1);
    let tri = polygon(&[(0, 0), (5, 0), (0, 5)], &[0, 1, 2]);
    p.upload_borrowed(&vec![(Color::Texture(0), tri)]).unwrap();
    assert_eq!(p.get_num_uploads(), 2);
    assert_eq!(p.get_total_bytes_uploaded(), 120 + 3 * 24 + 3 * 4);
    let mut g = GfxCtx::new(canvas(0.0, 0.0, 1.0), p, false);
    let mut b2 = GeomBatch::new();
    b2.push(Color::Texture(0), unit_square(1, 1));
    g.upload(b2).unwrap();
    assert_eq!(g.get_num_uploads(), 3);
    assert_eq!(g.num_draw_calls(), 0);
    assert_eq!(g.into_prerender().get_num_uploads(), 3);
}

#[test]
fn batch_extend_and_append_keep_order() {
    let mut a = GeomBatch::new();
    a.push(Color::RGBA(1, 1, 1, 1), unit_square(0, 0));
    a.extend(Color::Texture(4), vec![unit_square(5, 5), unit_square(7, 7)]);
    let mut b = GeomBatch::new();
    b.push(Color::RGBA(2, 2, 2, 2), unit_square(9, 9));
    b.append(&a);
    assert_eq!(a.pairs().len(), 3);
    assert_eq!(b.pairs().len(), 4);
    assert_eq!(b.pairs()[2].0, Color::Texture(4));
    assert_eq!(b.pairs()[3].1.points_ref()[0], Pt2D::new(7, 7));
    let mut g = GfxCtx::new(canvas(0.0, 0.0, 1.0), Prerender::new(), false);
    let polys = vec![unit_square(0, 0), unit_square(3, 3)];
    let d = g.draw_polygons(Color::RGBA(0, 0, 0, 255), &polys).unwrap();
    assert_eq!(d.mesh.vertices.len(), 8);
    assert_eq!(g.num_draw_calls(), 1);
}

#[test]
fn bounds_and_screencap_hint() {
    let p = polygon(&[(3, -2), (-4, 7), (10, 1)], &[0, 1, 2]);
    assert_eq!(p.get_bounds(), Bounds { min_x: -4, min_y: -2, max_x: 10, max_y: 7 });
    let mut g = GfxCtx::new(canvas(0.0, 0.0, 1.0), Prerender::new(), true);
    assert!(g.is_screencap());
    assert!(g.naming_hint().is_none());
    g.set_screencap_naming_hint("downtown".to_string());
    assert_eq!(g.naming_hint().as_deref(), Some("downtown"));
}

#[test]
fn blocking_text_box_alignment() {
    let b = aligned_text_box(HorizontalAlignment::Center, VerticalAlignment::Bottom, 800, 600, 101, 40);
    assert_eq!(b, ScreenBox { x1: 349, y1: 560, width: 101, height: 40 });
    let f = aligned_text_box(HorizontalAlignment::FillScreen, VerticalAlignment::Center, 800, 600, 101, 41);
    assert_eq!(f, ScreenBox { x1: 0, y1: 279, width: 800, height: 41 });
    let r = aligned_text_box(HorizontalAlignment::Right, VerticalAlignment::Top, 800, 600, 900, 10);
    assert_eq!(r, ScreenBox { x1: -100, y1: 0, width: 900, height: 10 });
    let c = aligned_text_box(HorizontalAlignment::Center, VerticalAlignment::Top, 100, 600, 103, 10);
    assert_eq!(c.x1, -2);
    let l = aligned_text_box(HorizontalAlignment::Left, VerticalAlignment::Top, 100, 600, 50, 10);
    assert_eq!((l.x1, l.y1), (0, 0));
    assert_eq!(centered_box(100, 50, 30, 11), ScreenBox { x1: 85, y1: 45, width: 30, height: 11 });
}
