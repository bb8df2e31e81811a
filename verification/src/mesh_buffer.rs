//! The brick template: one triangle mesh, checked once when it is built.

use glam::{Vec2, Vec3};
use vstd::prelude::*;

verus! {

/// What a template holds, as sequences.
pub struct MeshData {
    pub positions: Seq<Vec3>,
    pub normals: Seq<Vec3>,
    pub tex_coord: Seq<Vec2>,
    pub indices: Seq<u32>,
}

impl MeshData {
    /// Number of vertices of the template.
    pub open spec fn vertex_count(self) -> nat {
        self.positions.len()
    }

    /// Number of triangle indices of the template.
    pub open spec fn index_count(self) -> nat {
        self.indices.len()
    }

    /// Positions, normals and texture coordinates are parallel.
    pub open spec fn is_parallel(self) -> bool {
        &&& self.normals.len() == self.positions.len()
        &&& self.tex_coord.len() == self.positions.len()
    }

    /// The index at offset `k` names a vertex of the template.
    pub open spec fn index_in_range(self, k: int) -> bool {
        (self.indices[k] as int) < self.positions.len()
    }

    /// The per-vertex sequences are parallel and every index names a vertex.
    pub open spec fn is_valid(self) -> bool {
        &&& self.is_parallel()
        &&& forall|k: int| 0 <= k < self.indices.len() ==> self.index_in_range(k)
    }

    /// The brick that merged vertex `j` belongs to, when copies of this mesh
    /// stand one after another.
    pub open spec fn vertex_owner(self, j: int) -> int {
        j / self.vertex_count() as int
    }

    /// The vertex of this mesh that merged vertex `j` is a copy of.
    pub open spec fn vertex_source(self, j: int) -> int {
        j % self.vertex_count() as int
    }

    /// The brick that merged index `k` belongs to.
    pub open spec fn index_owner(self, k: int) -> int {
        k / self.index_count() as int
    }

    /// The index of this mesh that merged index `k` is a copy of.
    pub open spec fn index_source(self, k: int) -> int {
        k % self.index_count() as int
    }

    /// The largest number of vertices a merged buffer may have: a vertex is
    /// addressed by a 32-bit index.
    pub open spec fn vertex_limit() -> int {
        0x1_0000_0000
    }

    /// `instance_count` copies of the template can be addressed by 32-bit
    /// indices.
    pub open spec fn can_hold(self, instance_count: nat) -> bool {
        instance_count * self.vertex_count() <= Self::vertex_limit()
    }
}

/// The mesh made of four sequences.
pub open spec fn mesh_data(
    positions: Seq<Vec3>,
    normals: Seq<Vec3>,
    tex_coord: Seq<Vec2>,
    indices: Seq<u32>,
) -> MeshData {
    MeshData { positions, normals, tex_coord, indices }
}

/// Why a template was refused.
#[derive(Debug, Clone, Copy, PartialEq, Eq, Structural)]
pub enum MeshBufferError {
    /// Positions, normals and texture coordinates differ in length.
    MismatchedLengths,
    /// The index at offset `at` names no vertex; no earlier index does so.
    IndexOutOfRange { at: usize },
}

/// An immutable triangle mesh: parallel per-vertex attributes and a flat list
/// of indices into them.
#[derive(Debug)]
pub struct MeshBuffer {
    positions: Vec<Vec3>,
    normals: Vec<Vec3>,
    tex_coord: Vec<Vec2>,
    indices: Vec<u32>,
}

impl View for MeshBuffer {
    type V = MeshData;

    closed spec fn view(&self) -> MeshData {
        MeshData {
            positions: self.positions@,
            normals: self.normals@,
            tex_coord: self.tex_coord@,
            indices: self.indices@,
        }
    }
}

/// A vector with the same elements in the same order.
fn copy_of<T: Copy>(source: &Vec<T>) -> (copy: Vec<T>)
    ensures
        copy@ == source@,
{
    let mut copy: Vec<T> = Vec::new();
    let mut i: usize = 0;
    while i < source.len()
        invariant
            i <= source@.len(),
            copy@ == source@.take(i as int),
        decreases source@.len() - i,
    {
        copy.push(source[i]);
        i = i + 1;
    }
    copy
}

impl Clone for MeshBuffer {
    /// A second mesh with the same contents.
    fn clone(&self) -> (copy: Self)
        ensures
            copy@ == self@,
    {
        proof {
            use_type_invariant(self);
        }
        MeshBuffer {
            positions: copy_of(&self.positions),
            normals: copy_of(&self.normals),
            tex_coord: copy_of(&self.tex_coord),
            indices: copy_of(&self.indices),
        }
    }
}

impl MeshBuffer {
    #[verifier::type_invariant]
    spec fn well_formed(self) -> bool {
        self@.is_valid()
    }

    /// Builds a template from its four arrays. They are refused where the
    /// per-vertex arrays differ in length, and otherwise where an index names
    /// no vertex; the error then gives the offset of the first such index.
    pub fn new(
        positions: Vec<Vec3>,
        normals: Vec<Vec3>,
        tex_coord: Vec<Vec2>,
        indices: Vec<u32>,
    ) -> (made: Result<MeshBuffer, MeshBufferError>)
        ensures
            made is Ok <==> mesh_data(positions@, normals@, tex_coord@, indices@).is_valid(),
            match made {
                Ok(mesh) => mesh@ == mesh_data(positions@, normals@, tex_coord@, indices@),
                Err(MeshBufferError::MismatchedLengths) => !mesh_data(
                    positions@,
                    normals@,
                    tex_coord@,
                    indices@,
                ).is_parallel(),
                Err(MeshBufferError::IndexOutOfRange { at }) => {
                    let data = mesh_data(positions@, normals@, tex_coord@, indices@);
                    &&& data.is_parallel()
                    &&& at < data.indices.len()
                    &&& !data.index_in_range(at as int)
                    &&& forall|k: int| 0 <= k < at ==> data.index_in_range(k)
                },
            },
    {
        let ghost data = mesh_data(positions@, normals@, tex_coord@, indices@);
        if normals.len() != positions.len() || tex_coord.len() != positions.len() {
            return Err(MeshBufferError::MismatchedLengths);
        }
        let vertex_count: usize = positions.len();
        let mut k: usize = 0;
        while k < indices.len()
            invariant
                k <= indices@.len(),
                vertex_count == positions@.len(),
                data == mesh_data(positions@, normals@, tex_coord@, indices@),
                data.is_parallel(),
                forall|j: int| 0 <= j < k ==> data.index_in_range(j),
            decreases indices@.len() - k,
        {
            if indices[k] as usize >= vertex_count {
                assert(!data.index_in_range(k as int));
                return Err(MeshBufferError::IndexOutOfRange { at: k });
            }
            k = k + 1;
        }
        Ok(MeshBuffer { positions, normals, tex_coord, indices })
    }

    /// Number of vertices. Every mesh is valid, and says so here.
    pub fn vertex_count(&self) -> (n: usize)
        ensures
            n == self@.vertex_count(),
            self@.is_valid(),
    {
        proof {
            use_type_invariant(self);
        }
        self.positions.len()
    }

    /// Number of indices. Every mesh is valid, and says so here.
    pub fn index_count(&self) -> (n: usize)
        ensures
            n == self@.index_count(),
            self@.is_valid(),
    {
        proof {
            use_type_invariant(self);
        }
        self.indices.len()
    }

    /// Position of vertex `v`.
    pub fn position(&self, v: usize) -> (p: Vec3)
        requires
            v < self@.vertex_count(),
        ensures
            p == self@.positions[v as int],
    {
        self.positions[v]
    }

    /// Normal of vertex `v`.
    pub fn normal(&self, v: usize) -> (n: Vec3)
        requires
            v < self@.vertex_count(),
        ensures
            n == self@.normals[v as int],
    {
        proof {
            use_type_invariant(self);
        }
        self.normals[v]
    }

    /// Texture coordinate of vertex `v`.
    pub fn tex_coord(&self, v: usize) -> (uv: Vec2)
        requires
            v < self@.vertex_count(),
        ensures
            uv == self@.tex_coord[v as int],
    {
        proof {
            use_type_invariant(self);
        }
        self.tex_coord[v]
    }

    /// The index at offset `k`; it names a vertex of this mesh.
    pub fn index(&self, k: usize) -> (index: u32)
        requires
            k < self@.index_count(),
        ensures
            index == self@.indices[k as int],
            (index as int) < self@.vertex_count(),
    {
        proof {
            use_type_invariant(self);
            assert(self@.index_in_range(k as int));
        }
        self.indices[k]
    }

    /// Whether `instance_count` copies of this mesh can be addressed by
    /// 32-bit indices.
    pub fn can_hold(&self, instance_count: usize) -> (fits: bool)
        ensures
            fits == self@.can_hold(instance_count as nat),
    {
        let vertex_count: usize = self.positions.len();
        if vertex_count == 0 {
            assert(instance_count * 0 == 0);
            return true;
        }
        let most: u64 = 0x1_0000_0000 / (vertex_count as u64);
        assert((instance_count <= 0x1_0000_0000int / (vertex_count as int)) == (instance_count
            * vertex_count <= 0x1_0000_0000int)) by (nonlinear_arith)
            requires
                vertex_count > 0,
        ;
        instance_count as u64 <= most
    }
}

} // verus!
