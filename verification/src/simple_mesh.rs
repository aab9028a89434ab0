//! Triangle soup built from polygonal faces by fan triangulation.

use crate::geometry::{Triangle3, Vec3};
use vstd::prelude::*;

verus! {

/// The fan triangulation of a polygon given by its corners in order: one
/// triangle per corner from the third on, each anchored at the first corner.
/// Fewer than three corners yield no triangles.
pub open spec fn fan_triangles<T>(v: Seq<Vec3<T>>) -> Seq<Triangle3<T>> {
    if v.len() < 2 {
        Seq::empty()
    } else {
        Seq::new((v.len() - 2) as nat, |i: int| Triangle3 { a: v[0], b: v[i + 1], c: v[i + 2] })
    }
}

/// A mesh as a flat list of triangles.
pub struct SimpleMesh<T> {
    pub triangles: Vec<Triangle3<T>>,
}

impl<T: Copy> SimpleMesh<T> {
    /// Empty mesh.
    pub fn new() -> (m: SimpleMesh<T>)
        ensures
            m.triangles@ == Seq::<Triangle3<T>>::empty(),
    {
        let m = SimpleMesh { triangles: Vec::new() };
        proof {
            assert(m.triangles@ =~= Seq::<Triangle3<T>>::empty());
        }
        m
    }

    /// Append the fan triangulation of a polygonal face given by its corners
    /// in order.
    pub fn add_face(&mut self, vertices: Vec<Vec3<T>>)
        ensures
            final(self).triangles@ == old(self).triangles@ + fan_triangles(vertices@),
    {
        let n = vertices.len();
        let mut i: usize = 2;
        proof {
            assert(self.triangles@ =~= old(self).triangles@ + fan_triangles(vertices@).take(0));
        }
        while i < n
            invariant
                2 <= i,
                n == vertices@.len(),
                i <= n || (i == 2 && n < 2),
                self.triangles@ == old(self).triangles@ + fan_triangles(vertices@).take(
                    if i <= n {
                        i - 2
                    } else {
                        0
                    },
                ),
            decreases n - i,
        {
            self.triangles.push(
                Triangle3 { a: vertices[0], b: vertices[i - 1], c: vertices[i] },
            );
            i = i + 1;
            proof {
                assert(self.triangles@ =~= old(self).triangles@ + fan_triangles(vertices@).take(
                    i - 2,
                ));
            }
        }
        proof {
            assert(fan_triangles(vertices@).take(
                if i <= n {
                    i - 2
                } else {
                    0
                },
            ) =~= fan_triangles(vertices@));
        }
    }
}

} // verus!
