//! Merging placed bricks into one vertex and index buffer.

use crate::blocks::{lemma_block_bounds, lemma_slot};
use crate::brick::Brick;
use crate::math::{affine_of, rotated, transformed};
use crate::mesh_buffer::{MeshBuffer, MeshData};
use glam::{Mat4, Vec2, Vec3};
use vstd::prelude::*;

verus! {

/// What a merged buffer holds, as sequences.
pub struct InstanceData {
    pub positions: Seq<Vec3>,
    pub normals: Seq<Vec3>,
    pub tex_coord: Seq<Vec2>,
    pub indices: Seq<u32>,
    pub instance_ids: Seq<u32>,
}

/// The merged buffer: every brick's copy of the template, one after another.
#[derive(Debug)]
pub struct InstanceBuffer {
    pub positions: Vec<Vec3>,
    pub normals: Vec<Vec3>,
    pub tex_coord: Vec<Vec2>,
    pub indices: Vec<u32>,
    pub instance_ids: Vec<u32>,
}

impl View for InstanceBuffer {
    type V = InstanceData;

    open spec fn view(&self) -> InstanceData {
        InstanceData {
            positions: self.positions@,
            normals: self.normals@,
            tex_coord: self.tex_coord@,
            indices: self.indices@,
            instance_ids: self.instance_ids@,
        }
    }
}

/// World position of merged vertex `j`: its template vertex scaled, rotated
/// and translated, in this order, as its brick says.
pub open spec fn baked_position(template: MeshData, bricks: Seq<Brick>, j: int) -> Vec3 {
    let brick = bricks[template.vertex_owner(j)];
    transformed(
        affine_of(brick.scale, brick.rotation, brick.position),
        template.positions[template.vertex_source(j)],
    )
}

/// World normal of merged vertex `j`: the template normal rotated as its
/// brick is. The brick's scale is left out of it.
pub open spec fn baked_normal(template: MeshData, bricks: Seq<Brick>, j: int) -> Vec3 {
    rotated(
        bricks[template.vertex_owner(j)].rotation,
        template.normals[template.vertex_source(j)],
    )
}

/// Texture coordinate of merged vertex `j`: that of its template vertex.
pub open spec fn baked_tex_coord(template: MeshData, j: int) -> Vec2 {
    template.tex_coord[template.vertex_source(j)]
}

/// Instance id of merged vertex `j`: the number of its brick.
pub open spec fn baked_instance_id(template: MeshData, j: int) -> int {
    template.vertex_owner(j)
}

/// Merged index `k`: its template index moved into the vertex block of its
/// brick, that is, raised by the brick's number times the template's vertex
/// count.
pub open spec fn baked_index(template: MeshData, k: int) -> int {
    template.indices[template.index_source(k)] + template.index_owner(k)
        * template.vertex_count()
}

/// The first `vertices` vertices and the first `indices` indices of `merged`
/// are those of the buffer that `bricks` make of `template`, and `merged`
/// holds no more.
pub open spec fn is_bake_prefix(
    template: MeshData,
    bricks: Seq<Brick>,
    merged: InstanceData,
    vertices: int,
    indices: int,
) -> bool {
    &&& merged.positions.len() == vertices
    &&& merged.normals.len() == vertices
    &&& merged.tex_coord.len() == vertices
    &&& merged.instance_ids.len() == vertices
    &&& merged.indices.len() == indices
    &&& forall|j: int|
        0 <= j < vertices ==> #[trigger] merged.positions[j] == baked_position(template, bricks, j)
    &&& forall|j: int|
        0 <= j < vertices ==> #[trigger] merged.normals[j] == baked_normal(template, bricks, j)
    &&& forall|j: int|
        0 <= j < vertices ==> #[trigger] merged.tex_coord[j] == baked_tex_coord(template, j)
    &&& forall|j: int|
        0 <= j < vertices ==> #[trigger] merged.instance_ids[j] as int == baked_instance_id(
            template,
            j,
        )
    &&& forall|k: int|
        0 <= k < indices ==> #[trigger] merged.indices[k] as int == baked_index(template, k)
}

/// `merged` is the buffer that `bricks` make of `template`: one copy of the
/// template's vertices and indices for each brick, in the bricks' order.
pub open spec fn is_bake(template: MeshData, bricks: Seq<Brick>, merged: InstanceData) -> bool {
    is_bake_prefix(
        template,
        bricks,
        merged,
        (bricks.len() * template.vertex_count()) as int,
        (bricks.len() * template.index_count()) as int,
    )
}

/// Merges one copy of `template` per brick into a single buffer.
///
/// Each brick contributes the template's vertices, placed by the brick's
/// scale, rotation and position, with normals rotated only, texture
/// coordinates unchanged and the brick's number as instance id; and the
/// template's indices, moved into the brick's own block of vertices.
pub fn bake(template: &MeshBuffer, bricks: &Vec<Brick>) -> (merged: InstanceBuffer)
    requires
        template@.can_hold(bricks@.len()),
    ensures
        template@.is_valid(),
        is_bake(template@, bricks@, merged@),
{
    let vertex_count: usize = template.vertex_count();
    let index_count: usize = template.index_count();
    let mut merged = InstanceBuffer {
        positions: Vec::new(),
        normals: Vec::new(),
        tex_coord: Vec::new(),
        indices: Vec::new(),
        instance_ids: Vec::new(),
    };
    let mut i: usize = 0;
    assert(0 * template@.vertex_count() == 0 && 0 * template@.index_count() == 0);
    while i < bricks.len()
        invariant
            i <= bricks@.len(),
            vertex_count == template@.vertex_count(),
            index_count == template@.index_count(),
            template@.can_hold(bricks@.len()),
            is_bake_prefix(
                template@,
                bricks@,
                merged@,
                (i * vertex_count) as int,
                (i * index_count) as int,
            ),
        decreases bricks@.len() - i,
    {
        let brick: Brick = bricks[i];
        let placement: Mat4 = Mat4::from_scale_rotation_translation(
            brick.scale,
            brick.rotation,
            brick.position,
        );
        let ghost vertex_base: int = i * vertex_count;
        let ghost index_base: int = i * index_count;
        proof {
            lemma_block_bounds(i as int, bricks@.len() as int, vertex_count as int);
            lemma_block_bounds(i as int, bricks@.len() as int, index_count as int);
        }
        let mut v: usize = 0;
        while v < vertex_count
            invariant
                v <= vertex_count,
                i < bricks@.len(),
                vertex_count == template@.vertex_count(),
                vertex_base == i * vertex_count,
                0 <= vertex_base,
                vertex_base + vertex_count <= MeshData::vertex_limit(),
                brick == bricks@[i as int],
                placement == affine_of(brick.scale, brick.rotation, brick.position),
                is_bake_prefix(template@, bricks@, merged@, vertex_base + v, index_base),
            decreases vertex_count - v,
        {
            proof {
                lemma_slot(i as int, v as int, vertex_count as int);
                assert(i <= vertex_base) by (nonlinear_arith)
                    requires
                        vertex_base == i * vertex_count,
                        vertex_count >= 1,
                ;
            }
            merged.positions.push(placement.transform_point3(template.position(v)));
            merged.normals.push(brick.rotation.mul_vec3(template.normal(v)));
            merged.tex_coord.push(template.tex_coord(v));
            merged.instance_ids.push(i as u32);
            v = v + 1;
        }
        let offset: u64 = (i as u64) * (vertex_count as u64);
        let mut k: usize = 0;
        while k < index_count
            invariant
                k <= index_count,
                vertex_count == template@.vertex_count(),
                index_count == template@.index_count(),
                offset == vertex_base,
                index_base == i * index_count,
                vertex_base == i * vertex_count,
                0 <= vertex_base,
                vertex_base + vertex_count <= MeshData::vertex_limit(),
                is_bake_prefix(
                    template@,
                    bricks@,
                    merged@,
                    vertex_base + vertex_count,
                    index_base + k,
                ),
            decreases index_count - k,
        {
            proof {
                lemma_slot(i as int, k as int, index_count as int);
            }
            let index: u32 = template.index(k);
            merged.indices.push((index as u64 + offset) as u32);
            k = k + 1;
        }
        i = i + 1;
    }
    merged
}

} // verus!
