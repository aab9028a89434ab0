//! Batching renderer for textured 2D geometry: position and texture
//! coordinate per vertex, four components per record.

use crate::batch::VertexBatch;
use crate::geometry::{RectCorners, Triangle2, Vec2};
use vstd::prelude::*;

verus! {

/// One interleaved vertex record of the textured layout: planar position and
/// texture coordinate.
pub open spec fn vertex_pos2_uv2<T>(p: Vec2<T>, uv: Vec2<T>) -> Seq<T> {
    seq![p.x, p.y, uv.x, uv.y]
}

/// The six records of a textured quad split into its two corner triangles,
/// in split order: (a, b, c) then (a, c, d).
pub open spec fn textured_quad_records<T>(pos: RectCorners<T>, uv: RectCorners<T>) -> Seq<T> {
    vertex_pos2_uv2(pos.a, uv.a) + vertex_pos2_uv2(pos.b, uv.b) + vertex_pos2_uv2(pos.c, uv.c)
        + vertex_pos2_uv2(pos.a, uv.a) + vertex_pos2_uv2(pos.c, uv.c) + vertex_pos2_uv2(
        pos.d,
        uv.d,
    )
}

/// Batching renderer that draws a texture onto screen-space geometry.
pub struct TextureBatch<T> {
    batch: VertexBatch<T>,
}

impl<T: Copy> TextureBatch<T> {
    /// The interleaved component buffer.
    pub closed spec fn floats(&self) -> Seq<T> {
        self.batch.floats()
    }

    /// How many vertices the buffer holds.
    pub closed spec fn count(&self) -> int {
        self.batch.count()
    }

    /// The batch is consistent and carries this renderer's record layout:
    /// position and texture coordinate, four components per vertex.
    pub closed spec fn wf(&self) -> bool {
        &&& self.batch.wf()
        &&& self.batch.stride() == 4
    }

    /// Empty batch.
    pub fn new() -> (r: TextureBatch<T>)
        ensures
            r.wf(),
            r.count() == 0,
            r.floats() == Seq::<T>::empty(),
    {
        TextureBatch { batch: VertexBatch::new(4) }
    }

    /// Truncate the buffer and reset the vertex count for the next frame.
    pub fn clear_vertices(&mut self)
        requires
            old(self).wf(),
        ensures
            final(self).wf(),
            final(self).count() == 0,
            final(self).floats() == Seq::<T>::empty(),
    {
        self.batch.clear();
    }

    /// The number of vertices appended since the last clear.
    pub fn vertex_count(&self) -> (n: usize)
        ensures
            n == self.count(),
    {
        self.batch.vertex_count()
    }

    /// The interleaved component buffer, for upload.
    pub fn vertices(&self) -> (v: &Vec<T>)
        ensures
            v@ == self.floats(),
    {
        self.batch.vertices()
    }

    /// Append the triangle's three vertex records in the given corner order;
    /// no winding correction is applied.
    pub fn draw_triangle(&mut self, t: &Triangle2<T>, uv: &Triangle2<T>)
        requires
            old(self).wf(),
        ensures
            final(self).wf(),
            final(self).count() == old(self).count() + 3,
            final(self).floats() == old(self).floats() + vertex_pos2_uv2(t.a, uv.a)
                + vertex_pos2_uv2(t.b, uv.b) + vertex_pos2_uv2(t.c, uv.c),
    {
        let ra = record4(t.a.x, t.a.y, uv.a.x, uv.a.y);
        self.batch.push_vertex(&ra);
        let rb = record4(t.b.x, t.b.y, uv.b.x, uv.b.y);
        self.batch.push_vertex(&rb);
        let rc = record4(t.c.x, t.c.y, uv.c.x, uv.c.y);
        self.batch.push_vertex(&rc);
    }

    /// Draw a quad sampling the matching corners of a texture-coordinate
    /// quad, split into the two corner triangles.
    pub fn draw_texture(&mut self, rect: &RectCorners<T>, uv: &RectCorners<T>)
        requires
            old(self).wf(),
        ensures
            final(self).wf(),
            final(self).count() == old(self).count() + 6,
            final(self).floats() == old(self).floats() + textured_quad_records(*rect, *uv),
    {
        self.draw_triangle(&rect.tri1(), &uv.tri1());
        self.draw_triangle(&rect.tri2(), &uv.tri2());
        proof {
            assert(self.floats() =~= old(self).floats() + textured_quad_records(*rect, *uv));
        }
    }
}

/// Build one four-component vertex record in argument order.
pub(crate) fn record4<T: Copy>(c0: T, c1: T, c2: T, c3: T) -> (r: Vec<T>)
    ensures
        r@ == seq![c0, c1, c2, c3],
{
    let mut r: Vec<T> = Vec::new();
    r.push(c0);
    r.push(c1);
    r.push(c2);
    r.push(c3);
    proof {
        assert(r@ =~= seq![c0, c1, c2, c3]);
    }
    r
}

} // verus!
