use cengine::geometry::{Color, RectCorners, Vec2};
use cengine::text_renderer::{BakedGlyph, FontTable, TextBatch};

/// A synthetic metrics table: the glyph for slot `i` advances by `i`.
fn test_font() -> FontTable<f32> {
    let mut glyphs = Vec::new();
    for i in 0..96u16 {
        glyphs.push(BakedGlyph {
            x0: i,
            y0: 0,
            x1: i + 1,
            y1: 1,
            xoff: 0.0,
            yoff: 0.0,
            xadvance: i as f32,
        });
    }
    FontTable { glyphs, font_height: 32.0, atlas_size: 512 }
}

#[test]
fn get_baked_covers_exactly_the_baked_range() {
    let font = test_font();
    // First and last baked code points.
    assert_eq!(font.get_baked(' ').unwrap().x0, 0);
    assert_eq!(font.get_baked('\u{7f}').unwrap().x0, 95);
    assert_eq!(font.get_baked('A').unwrap().x0, 33);
    // Below and above the range: no glyph.
    assert!(font.get_baked('\u{1f}').is_none());
    assert!(font.get_baked('\n').is_none());
    assert!(font.get_baked('\u{80}').is_none());
    assert!(font.get_baked('é').is_none());
}

#[test]
fn glyph_run_selects_in_order() {
    let font = test_font();
    let run = font.glyph_run("A!");
    assert_eq!(run.len(), 2);
    assert_eq!(run[0].x0, 33);
    assert_eq!(run[1].x0, 1);
}

#[test]
fn glyph_run_skips_out_of_range_code_points() {
    // An out-of-range code point neither aborts nor contributes: the run --
    // and so the advance computed from it -- matches the cleaned text.
    let font = test_font();
    let with_control = font.glyph_run("AB\u{7}C");
    let cleaned = font.glyph_run("ABC");
    assert_eq!(with_control.len(), 3);
    assert_eq!(
        with_control.iter().map(|g| g.x0).collect::<Vec<_>>(),
        cleaned.iter().map(|g| g.x0).collect::<Vec<_>>()
    );
    let advance_with: f32 = with_control.iter().map(|g| g.xadvance).sum();
    let advance_clean: f32 = cleaned.iter().map(|g| g.xadvance).sum();
    assert_eq!(advance_with, advance_clean);
}

#[test]
fn glyph_run_of_unbaked_text_is_empty() {
    let font = test_font();
    assert!(font.glyph_run("\n\t\u{1}").is_empty());
    assert!(font.glyph_run("").is_empty());
}

#[test]
fn emitting_a_run_appends_six_vertices_per_glyph() {
    let font = test_font();
    let run = font.glyph_run("Hi \u{7}!");
    let mut batch: TextBatch<f32> = TextBatch::new(test_font());
    let black = Color { r: 0.0, g: 0.0, b: 0.0, a: 1.0 };
    for g in &run {
        // The surrounding renderer scales these corners by the font metrics;
        // the batch only records what it is handed.
        let pos = RectCorners {
            a: Vec2 { x: g.xoff, y: g.yoff },
            b: Vec2 { x: g.xoff + 1.0, y: g.yoff },
            c: Vec2 { x: g.xoff + 1.0, y: g.yoff + 1.0 },
            d: Vec2 { x: g.xoff, y: g.yoff + 1.0 },
        };
        batch.draw_rect_uv(&pos, &pos, &black);
    }
    assert_eq!(batch.vertex_count(), 6 * run.len());
}

#[test]
fn font_accessor_returns_the_table() {
    let batch: TextBatch<f32> = TextBatch::new(test_font());
    assert_eq!(batch.font().glyphs.len(), 96);
    assert_eq!(batch.font().atlas_size, 512);
}
