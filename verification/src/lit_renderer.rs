//! Batching renderer for lit 3D geometry: position, normal and texture
//! coordinate per vertex, eight components per record.

use crate::batch::VertexBatch;
use crate::geometry::{Triangle2, Triangle3, Vec2, Vec3};
use crate::text_renderer::record8;
use vstd::prelude::*;

verus! {

/// One interleaved vertex record of the lit layout: spatial position,
/// normal, and texture coordinate.
pub open spec fn vertex_pos3_normal3_uv2<T>(p: Vec3<T>, n: Vec3<T>, uv: Vec2<T>) -> Seq<T> {
    seq![p.x, p.y, p.z, n.x, n.y, n.z, uv.x, uv.y]
}

/// Batching renderer that shades textured triangles against a light.
pub struct LitBatch<T> {
    batch: VertexBatch<T>,
}

impl<T: Copy> LitBatch<T> {
    /// The interleaved component buffer.
    pub closed spec fn floats(&self) -> Seq<T> {
        self.batch.floats()
    }

    /// How many vertices the buffer holds.
    pub closed spec fn count(&self) -> int {
        self.batch.count()
    }

    /// The batch is consistent and carries this renderer's record layout:
    /// position, normal and texture coordinate, eight components per vertex.
    pub closed spec fn wf(&self) -> bool {
        &&& self.batch.wf()
        &&& self.batch.stride() == 8
    }

    /// Empty batch.
    pub fn new() -> (r: LitBatch<T>)
        ensures
            r.wf(),
            r.count() == 0,
            r.floats() == Seq::<T>::empty(),
    {
        LitBatch { batch: VertexBatch::new(8) }
    }

    /// Truncate the buffer and reset the vertex count.
    pub fn clear_vertices(&mut self)
        requires
            old(self).wf(),
        ensures
            final(self).wf(),
            final(self).count() == 0,
            final(self).floats() == Seq::<T>::empty(),
    {
        self.batch.clear();
    }

    /// The number of vertices appended since the last clear.
    pub fn vertex_count(&self) -> (n: usize)
        ensures
            n == self.count(),
    {
        self.batch.vertex_count()
    }

    /// The interleaved component buffer, for upload.
    pub fn vertices(&self) -> (v: &Vec<T>)
        ensures
            v@ == self.floats(),
    {
        self.batch.vertices()
    }

    /// Append the triangle's three vertex records in the given corner order,
    /// carrying the matching per-corner normals and texture coordinates.
    pub fn draw_triangle(&mut self, pos: &Triangle3<T>, normal: &Triangle3<T>, uv: &Triangle2<T>)
        requires
            old(self).wf(),
        ensures
            final(self).wf(),
            final(self).count() == old(self).count() + 3,
            final(self).floats() == old(self).floats() + vertex_pos3_normal3_uv2(
                pos.a,
                normal.a,
                uv.a,
            ) + vertex_pos3_normal3_uv2(pos.b, normal.b, uv.b) + vertex_pos3_normal3_uv2(
                pos.c,
                normal.c,
                uv.c,
            ),
    {
        let ra = record8(pos.a.x, pos.a.y, pos.a.z, normal.a.x, normal.a.y, normal.a.z, uv.a.x, uv.a.y);
        self.batch.push_vertex(&ra);
        let rb = record8(pos.b.x, pos.b.y, pos.b.z, normal.b.x, normal.b.y, normal.b.z, uv.b.x, uv.b.y);
        self.batch.push_vertex(&rb);
        let rc = record8(pos.c.x, pos.c.y, pos.c.z, normal.c.x, normal.c.y, normal.c.z, uv.c.x, uv.c.y);
        self.batch.push_vertex(&rc);
    }
}

} // verus!
