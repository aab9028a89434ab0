//! The vertex batch: a flat sequence of scalar components grouped into
//! fixed-size vertex records, plus a running vertex count.
//!
//! A batch is created empty, appended to by the draw operations of a frame,
//! handed out once for upload, and then cleared; clearing is the only way the
//! vertex count returns to zero.

use vstd::prelude::*;

verus! {

/// Interleaved per-vertex components.  Every record holds exactly `stride`
/// components, so the buffer length is always `vertex_count * stride`.
pub struct VertexBatch<T> {
    data: Vec<T>,
    vertex_count: usize,
    stride: usize,
}

impl<T: Copy> VertexBatch<T> {
    /// The interleaved component buffer.
    pub closed spec fn floats(&self) -> Seq<T> {
        self.data@
    }

    /// How many vertex records the buffer holds.
    pub closed spec fn count(&self) -> int {
        self.vertex_count as int
    }

    /// Components per vertex record.
    pub closed spec fn stride(&self) -> int {
        self.stride as int
    }

    /// The buffer holds exactly `stride` components for each counted vertex.
    pub open spec fn wf(&self) -> bool {
        &&& self.stride() >= 1
        &&& self.floats().len() == self.count() * self.stride()
    }

    /// Empty batch for records of `stride` components.
    pub fn new(stride: usize) -> (b: VertexBatch<T>)
        requires
            stride >= 1,
        ensures
            b.wf(),
            b.stride() == stride,
            b.count() == 0,
            b.floats() == Seq::<T>::empty(),
    {
        let b = VertexBatch { data: Vec::new(), vertex_count: 0usize, stride };
        proof {
            assert(b.floats() =~= Seq::<T>::empty());
        }
        b
    }

    /// Truncate the buffer and reset the vertex count to zero.
    pub fn clear(&mut self)
        requires
            old(self).wf(),
        ensures
            final(self).wf(),
            final(self).stride() == old(self).stride(),
            final(self).count() == 0,
            final(self).floats() == Seq::<T>::empty(),
    {
        self.data.clear();
        self.vertex_count = 0;
        proof {
            assert(self.floats() =~= Seq::<T>::empty());
        }
    }

    /// Append one vertex record, in the given component order.
    pub fn push_vertex(&mut self, record: &Vec<T>)
        requires
            old(self).wf(),
            record@.len() == old(self).stride(),
        ensures
            final(self).wf(),
            final(self).stride() == old(self).stride(),
            final(self).count() == old(self).count() + 1,
            final(self).floats() == old(self).floats() + record@,
    {
        let n = record.len();
        let mut i: usize = 0;
        proof {
            assert(self.data@ =~= old(self).data@ + record@.take(0));
        }
        while i < n
            invariant
                i <= n,
                n == record@.len(),
                self.stride == old(self).stride,
                self.vertex_count == old(self).vertex_count,
                self.data@ == old(self).data@ + record@.take(i as int),
            decreases n - i,
        {
            self.data.push(record[i]);
            i = i + 1;
            proof {
                assert(self.data@ =~= old(self).data@ + record@.take(i as int));
            }
        }
        proof {
            assert(self.data@ =~= old(self).data@ + record@);
        }
        let total = self.data.len();
        proof {
            let count = self.vertex_count as int;
            let stride = self.stride as int;
            assert(count < usize::MAX) by (nonlinear_arith)
                requires
                    count * stride + stride == total as int,
                    stride >= 1,
                    total <= usize::MAX,
                    count >= 0,
            ;
        }
        self.vertex_count = self.vertex_count + 1;
        proof {
            assert(self.vertex_count as int * self.stride as int == (self.vertex_count as int - 1)
                * self.stride as int + self.stride as int) by (nonlinear_arith);
        }
    }

    /// The number of vertex records appended since the last clear.
    pub fn vertex_count(&self) -> (n: usize)
        ensures
            n == self.count(),
    {
        self.vertex_count
    }

    /// The interleaved component buffer, for upload.
    pub fn vertices(&self) -> (v: &Vec<T>)
        ensures
            v@ == self.floats(),
    {
        &self.data
    }
}

} // verus!
