//! Glyph metrics and text-shaping support for the text renderer.
//!
//! A font is baked into an atlas for a contiguous run of 96 printable code
//! points, 32 through 127.  Code points outside that range have no glyph:
//! they draw nothing and advance nothing, which is a defined outcome, not an
//! error.

use crate::batch::VertexBatch;
use crate::geometry::{Color, RectCorners, Triangle2, Vec2};
use vstd::prelude::*;

verus! {

/// Whether a code point lies in the baked range, 32 through 127.
pub open spec fn has_glyph(c: char) -> bool {
    32 <= (c as u32) && (c as u32) < 128
}

/// Index of a baked code point's glyph in the metrics table.
pub open spec fn glyph_slot(c: char) -> int {
    (c as u32) - 32
}

/// Metrics of one baked glyph: its rectangle in atlas pixels, its offset
/// from the pen position, and how far the pen advances past it.
#[derive(Clone, Copy, Debug, PartialEq)]
pub struct BakedGlyph<T> {
    pub x0: u16,
    pub y0: u16,
    pub x1: u16,
    pub y1: u16,
    pub xoff: T,
    pub yoff: T,
    pub xadvance: T,
}

/// Metrics table of a font baked at `font_height` pixels into a square atlas
/// of `atlas_size` pixels: one glyph per code point in the baked range, in
/// code-point order.
#[derive(Clone, Debug)]
pub struct FontTable<T> {
    pub glyphs: Vec<BakedGlyph<T>>,
    pub font_height: T,
    pub atlas_size: i32,
}

/// The glyphs that a text selects, in order: one per code point in the baked
/// range, none for the rest.
pub open spec fn glyph_run_spec<T>(glyphs: Seq<BakedGlyph<T>>, text: Seq<char>) -> Seq<
    BakedGlyph<T>,
>
    decreases text.len(),
{
    if text.len() == 0 {
        Seq::empty()
    } else {
        glyph_run_spec(glyphs, text.drop_last()) + (if has_glyph(text.last()) {
            seq![glyphs[glyph_slot(text.last())]]
        } else {
            Seq::empty()
        })
    }
}

impl<T: Copy> FontTable<T> {
    /// One glyph for each of the 96 baked code points.
    pub open spec fn wf(&self) -> bool {
        self.glyphs@.len() == 96
    }

    /// Metrics of the glyph for `c`: present exactly when `c` lies in the
    /// baked range.
    pub fn get_baked(&self, c: char) -> (g: Option<&BakedGlyph<T>>)
        requires
            self.wf(),
        ensures
            match g {
                Some(g) => has_glyph(c) && *g == self.glyphs@[glyph_slot(c)],
                None => !has_glyph(c),
            },
    {
        let code = c as u32;
        if code < 32 || code >= 128 {
            None
        } else {
            Some(&self.glyphs[(code - 32) as usize])
        }
    }

    /// The glyphs that `text` selects, in order; code points outside the
    /// baked range select nothing and break nothing.
    pub fn glyph_run(&self, text: &str) -> (run: Vec<BakedGlyph<T>>)
        requires
            self.wf(),
        ensures
            run@ == glyph_run_spec(self.glyphs@, text@),
    {
        let mut run: Vec<BakedGlyph<T>> = Vec::new();
        for c in it: text.chars()
            invariant
                self.wf(),
                it.seq() == text@,
                0 <= it.index() <= text@.len(),
                run@ == glyph_run_spec(self.glyphs@, text@.take(it.index() as int)),
        {
            let ghost prefix = text@.take(it.index() as int);
            let code = c as u32;
            if code >= 32 && code < 128 {
                let g = self.glyphs[(code - 32) as usize];
                run.push(g);
            }
            proof {
                let next = text@.take(it.index() as int + 1);
                assert(next.drop_last() =~= prefix);
                assert(next.last() == c);
                assert(run@ =~= glyph_run_spec(self.glyphs@, next));
            }
        }
        proof {
            assert(text@.take(text@.len() as int) =~= text@);
        }
        run
    }
}

/// Removing the code points outside the baked range from a text leaves its
/// glyph run unchanged: glyphs come only from baked code points.
pub proof fn lemma_glyph_run_skips_unbaked<T>(glyphs: Seq<BakedGlyph<T>>, text: Seq<char>)
    ensures
        glyph_run_spec(glyphs, text) == glyph_run_spec(
            glyphs,
            text.filter(|c: char| has_glyph(c)),
        ),
    decreases text.len(),
{
    reveal(Seq::filter);
    let pred = |c: char| has_glyph(c);
    if text.len() == 0 {
    } else {
        let s = text.drop_last();
        let x = text.last();
        lemma_glyph_run_skips_unbaked(glyphs, s);
        if pred(x) {
            let f = s.filter(pred).push(x);
            assert(text.filter(pred) == f);
            assert(f.drop_last() =~= s.filter(pred));
            assert(f.last() == x);
            assert(glyph_run_spec(glyphs, text) =~= glyph_run_spec(glyphs, f));
        } else {
            assert(text.filter(pred) == s.filter(pred));
            assert(glyph_run_spec(glyphs, text) =~= glyph_run_spec(glyphs, s));
        }
    }
}

/// One interleaved vertex record of the text layout: planar position, atlas
/// coordinate, and color.
pub open spec fn vertex_pos2_uv2_color<T>(p: Vec2<T>, uv: Vec2<T>, col: Color<T>) -> Seq<T> {
    seq![p.x, p.y, uv.x, uv.y, col.r, col.g, col.b, col.a]
}

/// The six records of a quad split into its two corner triangles, in split
/// order: (a, b, c) then (a, c, d).
pub open spec fn quad_records<T>(pos: RectCorners<T>, uv: RectCorners<T>, col: Color<T>) -> Seq<
    T,
> {
    vertex_pos2_uv2_color(pos.a, uv.a, col) + vertex_pos2_uv2_color(pos.b, uv.b, col)
        + vertex_pos2_uv2_color(pos.c, uv.c, col) + vertex_pos2_uv2_color(pos.a, uv.a, col)
        + vertex_pos2_uv2_color(pos.c, uv.c, col) + vertex_pos2_uv2_color(pos.d, uv.d, col)
}

/// The same atlas coordinate at all four corners, for solid fills that
/// sample a single opaque texel.
pub open spec fn uniform_corners<T>(uv: Vec2<T>) -> RectCorners<T> {
    RectCorners { a: uv, b: uv, c: uv, d: uv }
}

/// Batching text renderer: accumulates glyph and shape quads as interleaved
/// position/atlas/color records and hands the buffer out once per frame.
pub struct TextBatch<T> {
    batch: VertexBatch<T>,
    font: FontTable<T>,
}

impl<T: Copy> TextBatch<T> {
    /// The interleaved component buffer.
    pub closed spec fn floats(&self) -> Seq<T> {
        self.batch.floats()
    }

    /// How many vertices the buffer holds.
    pub closed spec fn count(&self) -> int {
        self.batch.count()
    }

    /// The metrics table this renderer draws from.
    pub closed spec fn spec_font(&self) -> FontTable<T> {
        self.font
    }

    /// The metrics table this renderer draws from.
    pub fn font(&self) -> (f: &FontTable<T>)
        ensures
            *f == self.spec_font(),
    {
        &self.font
    }

    /// The batch is consistent and carries this renderer's record layout:
    /// position, atlas coordinate and color, eight components per vertex.
    pub closed spec fn wf(&self) -> bool {
        &&& self.batch.wf()
        &&& self.batch.stride() == 8
    }

    /// Empty batch over the given font.
    pub fn new(font: FontTable<T>) -> (r: TextBatch<T>)
        ensures
            r.wf(),
            r.count() == 0,
            r.floats() == Seq::<T>::empty(),
            r.spec_font() == font,
    {
        TextBatch { batch: VertexBatch::new(8), font }
    }

    /// Truncate the buffer and reset the vertex count for the next frame.
    pub fn clear_vertices(&mut self)
        requires
            old(self).wf(),
        ensures
            final(self).wf(),
            final(self).count() == 0,
            final(self).floats() == Seq::<T>::empty(),
            final(self).spec_font() == old(self).spec_font(),
    {
        self.batch.clear();
    }

    /// The number of vertices appended since the last clear.
    pub fn vertex_count(&self) -> (n: usize)
        ensures
            n == self.count(),
    {
        self.batch.vertex_count()
    }

    /// The interleaved component buffer, for upload.
    pub fn vertices(&self) -> (v: &Vec<T>)
        ensures
            v@ == self.floats(),
    {
        self.batch.vertices()
    }

    /// Append the triangle's three vertex records in the given corner order;
    /// no winding correction is applied.
    pub fn draw_triangle(&mut self, pos: &Triangle2<T>, uv: &Triangle2<T>, color: &Color<T>)
        requires
            old(self).wf(),
        ensures
            final(self).wf(),
            final(self).spec_font() == old(self).spec_font(),
            final(self).count() == old(self).count() + 3,
            final(self).floats() == old(self).floats() + vertex_pos2_uv2_color(
                pos.a,
                uv.a,
                *color,
            ) + vertex_pos2_uv2_color(pos.b, uv.b, *color) + vertex_pos2_uv2_color(
                pos.c,
                uv.c,
                *color,
            ),
    {
        let ra = record8(pos.a.x, pos.a.y, uv.a.x, uv.a.y, color.r, color.g, color.b, color.a);
        self.batch.push_vertex(&ra);
        let rb = record8(pos.b.x, pos.b.y, uv.b.x, uv.b.y, color.r, color.g, color.b, color.a);
        self.batch.push_vertex(&rb);
        let rc = record8(pos.c.x, pos.c.y, uv.c.x, uv.c.y, color.r, color.g, color.b, color.a);
        self.batch.push_vertex(&rc);
    }

    /// Fill a quad with a solid color, splitting it into its two corner
    /// triangles and sampling one fixed atlas coordinate.
    pub fn draw_rect(&mut self, rect: &RectCorners<T>, uv: Vec2<T>, color: &Color<T>)
        requires
            old(self).wf(),
        ensures
            final(self).wf(),
            final(self).spec_font() == old(self).spec_font(),
            final(self).count() == old(self).count() + 6,
            final(self).floats() == old(self).floats() + quad_records(
                *rect,
                uniform_corners(uv),
                *color,
            ),
    {
        let uv_tri = Triangle2 { a: uv, b: uv, c: uv };
        self.draw_triangle(&rect.tri1(), &uv_tri, color);
        self.draw_triangle(&rect.tri2(), &uv_tri, color);
        proof {
            assert(self.floats() =~= old(self).floats() + quad_records(
                *rect,
                uniform_corners(uv),
                *color,
            ));
        }
    }

    /// Draw a textured quad: the position corners carry the matching atlas
    /// corners, split into the two corner triangles.  This is how a glyph's
    /// screen quad samples its atlas rectangle.
    pub fn draw_rect_uv(&mut self, pos: &RectCorners<T>, uv: &RectCorners<T>, color: &Color<T>)
        requires
            old(self).wf(),
        ensures
            final(self).wf(),
            final(self).spec_font() == old(self).spec_font(),
            final(self).count() == old(self).count() + 6,
            final(self).floats() == old(self).floats() + quad_records(*pos, *uv, *color),
    {
        self.draw_triangle(&pos.tri1(), &uv.tri1(), color);
        self.draw_triangle(&pos.tri2(), &uv.tri2(), color);
        proof {
            assert(self.floats() =~= old(self).floats() + quad_records(*pos, *uv, *color));
        }
    }
}

/// Build one eight-component vertex record in argument order.
pub(crate) fn record8<T: Copy>(
    c0: T,
    c1: T,
    c2: T,
    c3: T,
    c4: T,
    c5: T,
    c6: T,
    c7: T,
) -> (r: Vec<T>)
    ensures
        r@ == seq![c0, c1, c2, c3, c4, c5, c6, c7],
{
    let mut r: Vec<T> = Vec::new();
    r.push(c0);
    r.push(c1);
    r.push(c2);
    r.push(c3);
    r.push(c4);
    r.push(c5);
    r.push(c6);
    r.push(c7);
    proof {
        assert(r@ =~= seq![c0, c1, c2, c3, c4, c5, c6, c7]);
    }
    r
}

} // verus!
