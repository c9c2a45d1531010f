//! Assembles indexed triangle meshes from triangles and quads.

use vstd::prelude::*;

verus! {

/// Vertices and triangle indices gathered so far.
pub struct MeshBuilder<T: Copy> {
    vertices: Vec<T>,
    indices: Vec<u32>,
    indices_used: u32,
}

/// Every index names one of the `n` vertices.
pub open spec fn indices_in_bounds(indices: Seq<u32>, n: nat) -> bool {
    forall|i: int| 0 <= i < indices.len() ==> (#[trigger] indices[i] as nat) < n
}

/// The three indices of a triangle whose first vertex is at `base`.
pub open spec fn triangle_indices(base: u32) -> Seq<u32> {
    seq![base, (base + 1) as u32, (base + 2) as u32]
}

/// The six indices of a quad whose first vertex is at `base`: two
/// triangles sharing the diagonal from its first to its third vertex.
pub open spec fn quad_indices(base: u32) -> Seq<u32> {
    seq![base, (base + 1) as u32, (base + 2) as u32, (base + 2) as u32, (base + 3) as u32, base]
}

impl<T: Copy> MeshBuilder<T> {
    /// The vertices pushed so far, in order.
    pub closed spec fn vertices(&self) -> Seq<T> {
        self.vertices@
    }

    /// The triangle indices pushed so far, in order.
    pub closed spec fn indices(&self) -> Seq<u32> {
        self.indices@
    }

    /// The vertex counter matches the vertices, and every index names one
    /// of them.
    pub closed spec fn wf(&self) -> bool {
        &&& self.indices_used as nat == self.vertices@.len()
        &&& indices_in_bounds(self.indices@, self.vertices@.len())
    }

    pub fn new() -> (r: MeshBuilder<T>)
        ensures
            r.wf(),
            r.vertices() == Seq::<T>::empty(),
            r.indices() == Seq::<u32>::empty(),
    {
        MeshBuilder { vertices: Vec::new(), indices: Vec::new(), indices_used: 0 }
    }

    /// Number of vertices pushed so far.
    pub fn vertex_count(&self) -> (r: usize)
        ensures
            r == self.vertices().len(),
    {
        self.vertices.len()
    }

    /// Appends three vertices and one triangle over them.
    pub fn push_triangle(&mut self, vertices: &[T; 3])
        requires
            old(self).wf(),
            old(self).vertices().len() + 3 <= u32::MAX,
        ensures
            final(self).wf(),
            final(self).vertices() == old(self).vertices() + vertices@,
            final(self).indices() == old(self).indices() + triangle_indices(
                old(self).vertices().len() as u32,
            ),
    {
        let ghost old_vertices = self.vertices@;
        let ghost old_indices = self.indices@;
        let base = self.indices_used;
        self.vertices.push(vertices[0]);
        self.vertices.push(vertices[1]);
        self.vertices.push(vertices[2]);
        self.indices.push(base);
        self.indices.push(base + 1);
        self.indices.push(base + 2);
        self.indices_used = base + 3;
        proof {
            assert(self.vertices@ =~= old_vertices + vertices@);
            assert(self.indices@ =~= old_indices + triangle_indices(base));
            assert forall|i: int| 0 <= i < self.indices@.len() implies
                (#[trigger] self.indices@[i] as nat) < self.vertices@.len() by {
                if i < old_indices.len() {
                    assert(self.indices@[i] == old_indices[i]);
                }
            }
        }
    }

    /// Appends four vertices and the two triangles of the quad they bound.
    pub fn push_quad(&mut self, vertices: &[T; 4])
        requires
            old(self).wf(),
            old(self).vertices().len() + 4 <= u32::MAX,
        ensures
            final(self).wf(),
            final(self).vertices() == old(self).vertices() + vertices@,
            final(self).indices() == old(self).indices() + quad_indices(
                old(self).vertices().len() as u32,
            ),
    {
        let ghost old_vertices = self.vertices@;
        let ghost old_indices = self.indices@;
        let base = self.indices_used;
        self.vertices.push(vertices[0]);
        self.vertices.push(vertices[1]);
        self.vertices.push(vertices[2]);
        self.vertices.push(vertices[3]);
        self.indices.push(base);
        self.indices.push(base + 1);
        self.indices.push(base + 2);
        self.indices.push(base + 2);
        self.indices.push(base + 3);
        self.indices.push(base);
        self.indices_used = base + 4;
        proof {
            assert(self.vertices@ =~= old_vertices + vertices@);
            assert(self.indices@ =~= old_indices + quad_indices(base));
            assert forall|i: int| 0 <= i < self.indices@.len() implies
                (#[trigger] self.indices@[i] as nat) < self.vertices@.len() by {
                if i < old_indices.len() {
                    assert(self.indices@[i] == old_indices[i]);
                }
            }
        }
    }

    /// Hands out the vertices and the indices, ready to be uploaded.
    pub fn build(self) -> (r: (Vec<T>, Vec<u32>))
        requires
            self.wf(),
        ensures
            r.0@ == self.vertices(),
            r.1@ == self.indices(),
            indices_in_bounds(r.1@, r.0@.len()),
    {
        (self.vertices, self.indices)
    }
}

} // verus!
