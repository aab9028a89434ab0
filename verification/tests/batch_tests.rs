use cengine::batch::VertexBatch;
use cengine::geometry::{Color, RectCorners, Triangle2, Triangle3, Vec2, Vec3};
use cengine::lit_renderer::LitBatch;
use cengine::text_renderer::{FontTable, TextBatch};
use cengine::texture_renderer::TextureBatch;

fn empty_font() -> FontTable<f32> {
    FontTable { glyphs: Vec::new(), font_height: 32.0, atlas_size: 512 }
}

fn corners_of(x: f32, y: f32, w: f32, h: f32) -> RectCorners<f32> {
    RectCorners {
        a: Vec2 { x, y },
        b: Vec2 { x: x + w, y },
        c: Vec2 { x: x + w, y: y + h },
        d: Vec2 { x, y: y + h },
    }
}

#[test]
fn vertex_batch_counts_records() {
    let mut b: VertexBatch<f32> = VertexBatch::new(4);
    assert_eq!(b.vertex_count(), 0);
    b.push_vertex(&vec![1.0, 2.0, 3.0, 4.0]);
    b.push_vertex(&vec![5.0, 6.0, 7.0, 8.0]);
    assert_eq!(b.vertex_count(), 2);
    assert_eq!(b.vertices(), &vec![1.0, 2.0, 3.0, 4.0, 5.0, 6.0, 7.0, 8.0]);
    b.clear();
    assert_eq!(b.vertex_count(), 0);
    assert!(b.vertices().is_empty());
}

#[test]
fn emit_rect_batches_six_vertices_and_clear_resets() {
    // One filled rectangle is two triangles: a single flush would draw
    // exactly these six vertices, and the following clear starts the next
    // frame at zero.
    let mut r: TextBatch<f32> = TextBatch::new(empty_font());
    let red = Color { r: 1.0, g: 0.0, b: 0.0, a: 1.0 };
    let uv = Vec2 { x: 0.5, y: 0.5 };
    r.draw_rect(&corners_of(0.0, 0.0, 100.0, 50.0), uv, &red);
    assert_eq!(r.vertex_count(), 6);
    assert_eq!(r.vertices().len(), 48);
    let record = |px: f32, py: f32| vec![px, py, 0.5, 0.5, 1.0, 0.0, 0.0, 1.0];
    let mut expected: Vec<f32> = Vec::new();
    // Split order: (a, b, c) then (a, c, d).
    expected.extend(record(0.0, 0.0));
    expected.extend(record(100.0, 0.0));
    expected.extend(record(100.0, 50.0));
    expected.extend(record(0.0, 0.0));
    expected.extend(record(100.0, 50.0));
    expected.extend(record(0.0, 50.0));
    assert_eq!(r.vertices(), &expected);
    r.clear_vertices();
    assert_eq!(r.vertex_count(), 0);
    assert!(r.vertices().is_empty());
}

#[test]
fn text_triangle_keeps_corner_order() {
    let mut r: TextBatch<f32> = TextBatch::new(empty_font());
    let col = Color { r: 0.25, g: 0.5, b: 0.75, a: 1.0 };
    let pos = Triangle2 {
        a: Vec2 { x: 1.0, y: 2.0 },
        b: Vec2 { x: 3.0, y: 4.0 },
        c: Vec2 { x: 5.0, y: 6.0 },
    };
    let uv = Triangle2 {
        a: Vec2 { x: 0.0, y: 0.0 },
        b: Vec2 { x: 1.0, y: 0.0 },
        c: Vec2 { x: 1.0, y: 1.0 },
    };
    r.draw_triangle(&pos, &uv, &col);
    assert_eq!(r.vertex_count(), 3);
    assert_eq!(
        r.vertices(),
        &vec![
            1.0, 2.0, 0.0, 0.0, 0.25, 0.5, 0.75, 1.0, //
            3.0, 4.0, 1.0, 0.0, 0.25, 0.5, 0.75, 1.0, //
            5.0, 6.0, 1.0, 1.0, 0.25, 0.5, 0.75, 1.0,
        ]
    );
}

#[test]
fn glyph_quad_carries_matching_atlas_corners() {
    let mut r: TextBatch<f32> = TextBatch::new(empty_font());
    let white = Color { r: 1.0, g: 1.0, b: 1.0, a: 1.0 };
    let pos = corners_of(10.0, 20.0, 8.0, 16.0);
    let uv = corners_of(0.25, 0.5, 0.125, 0.25);
    r.draw_rect_uv(&pos, &uv, &white);
    assert_eq!(r.vertex_count(), 6);
    let record = |p: Vec2<f32>, t: Vec2<f32>| vec![p.x, p.y, t.x, t.y, 1.0, 1.0, 1.0, 1.0];
    let mut expected: Vec<f32> = Vec::new();
    expected.extend(record(pos.a, uv.a));
    expected.extend(record(pos.b, uv.b));
    expected.extend(record(pos.c, uv.c));
    expected.extend(record(pos.a, uv.a));
    expected.extend(record(pos.c, uv.c));
    expected.extend(record(pos.d, uv.d));
    assert_eq!(r.vertices(), &expected);
}

#[test]
fn texture_batch_interleaves_pos_and_uv() {
    let mut r: TextureBatch<f32> = TextureBatch::new();
    let rect = corners_of(0.0, 0.0, 2.0, 2.0);
    let uv = corners_of(0.0, 0.0, 1.0, 1.0);
    r.draw_texture(&rect, &uv);
    assert_eq!(r.vertex_count(), 6);
    assert_eq!(
        r.vertices(),
        &vec![
            0.0, 0.0, 0.0, 0.0, //
            2.0, 0.0, 1.0, 0.0, //
            2.0, 2.0, 1.0, 1.0, //
            0.0, 0.0, 0.0, 0.0, //
            2.0, 2.0, 1.0, 1.0, //
            0.0, 2.0, 0.0, 1.0,
        ]
    );
    r.clear_vertices();
    assert_eq!(r.vertex_count(), 0);
}

#[test]
fn lit_batch_interleaves_pos_normal_uv() {
    let mut r: LitBatch<f32> = LitBatch::new();
    let pos = Triangle3 {
        a: Vec3 { x: 0.0, y: 0.0, z: 0.0 },
        b: Vec3 { x: 1.0, y: 0.0, z: 0.0 },
        c: Vec3 { x: 0.0, y: 1.0, z: 0.0 },
    };
    let n = Vec3 { x: 0.0, y: 0.0, z: 1.0 };
    let normal = Triangle3 { a: n, b: n, c: n };
    let uv = Triangle2 {
        a: Vec2 { x: 0.0, y: 0.0 },
        b: Vec2 { x: 1.0, y: 0.0 },
        c: Vec2 { x: 0.0, y: 1.0 },
    };
    r.draw_triangle(&pos, &normal, &uv);
    assert_eq!(r.vertex_count(), 3);
    assert_eq!(
        r.vertices(),
        &vec![
            0.0, 0.0, 0.0, 0.0, 0.0, 1.0, 0.0, 0.0, //
            1.0, 0.0, 0.0, 0.0, 0.0, 1.0, 1.0, 0.0, //
            0.0, 1.0, 0.0, 0.0, 0.0, 1.0, 0.0, 1.0,
        ]
    );
}
