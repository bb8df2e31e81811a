//! What holds of every merged buffer.

use crate::brick::Brick;
use crate::blocks::{
    in_block, lemma_block_bounds, lemma_block_of, lemma_instance_below, lemma_slot,
};
use crate::instance_buffer::{is_bake, InstanceData};
use crate::mesh_buffer::MeshData;
use vstd::arithmetic::div_mod::lemma_fundamental_div_mod_converse;
use vstd::prelude::*;
use vstd::set_lib::{lemma_int_range, set_int_range};

verus! {

/// Baking is a function of the template and the bricks: two buffers baked
/// from the same template and the same bricks are equal in every entry.
pub proof fn lemma_bake_is_deterministic(
    template: MeshData,
    bricks: Seq<Brick>,
    first: InstanceData,
    second: InstanceData,
)
    requires
        is_bake(template, bricks, first),
        is_bake(template, bricks, second),
    ensures
        first == second,
{
    assert(first.positions =~= second.positions);
    assert(first.normals =~= second.normals);
    assert(first.tex_coord =~= second.tex_coord);
    assert(first.instance_ids =~= second.instance_ids) by {
        assert forall|j: int| 0 <= j < first.instance_ids.len() implies first.instance_ids[j]
            == second.instance_ids[j] by {
            assert(first.instance_ids[j] as int == second.instance_ids[j] as int);
        }
    }
    assert(first.indices =~= second.indices) by {
        assert forall|k: int| 0 <= k < first.indices.len() implies first.indices[k]
            == second.indices[k] by {
            assert(first.indices[k] as int == second.indices[k] as int);
        }
    }
}

/// No bricks, no geometry: the buffer baked from an empty brick sequence has
/// no vertex and no index, whatever the template.
pub proof fn lemma_bake_of_nothing(template: MeshData, merged: InstanceData)
    requires
        is_bake(template, Seq::<Brick>::empty(), merged),
    ensures
        merged.positions.len() == 0,
        merged.normals.len() == 0,
        merged.tex_coord.len() == 0,
        merged.instance_ids.len() == 0,
        merged.indices.len() == 0,
{
    assert(0 * template.vertex_count() == 0 && 0 * template.index_count() == 0);
}

/// Every merged index points into the vertex block of the instance whose
/// index block it stands in, and into no other instance's block.
pub proof fn lemma_index_locality(
    template: MeshData,
    bricks: Seq<Brick>,
    merged: InstanceData,
    k: int,
)
    requires
        template.is_valid(),
        is_bake(template, bricks, merged),
        0 <= k < merged.indices.len(),
    ensures
        0 <= template.index_owner(k) < bricks.len(),
        in_block(
            merged.indices[k] as int,
            template.index_owner(k),
            template.vertex_count() as int,
        ),
        forall|i: int|
            in_block(merged.indices[k] as int, i, template.vertex_count() as int) ==> i
                == template.index_owner(k),
{
    let per_instance = template.index_count() as int;
    let vertex_count = template.vertex_count() as int;
    lemma_instance_below(k, bricks.len() as int, per_instance);
    lemma_block_of(k, per_instance);
    let i = k / per_instance;
    let local = k % per_instance;
    assert(template.index_in_range(local));
    let target = merged.indices[k] as int;
    assert(target == template.indices[local] + i * vertex_count);
    lemma_slot(i, template.indices[local] as int, vertex_count);
    lemma_block_of(target, vertex_count);
}

/// The three corners of merged triangle `triangle` lie in the vertex block of
/// instance `i`.
pub open spec fn triangle_in_block(indices: Seq<u32>, triangle: int, i: int, count: int) -> bool {
    &&& in_block(indices[3 * triangle] as int, i, count)
    &&& in_block(indices[3 * triangle + 1] as int, i, count)
    &&& in_block(indices[3 * triangle + 2] as int, i, count)
}

/// When the template's indices form whole triangles, so do those of every
/// instance: the three corners of a merged triangle lie in the vertex block
/// of one instance, and of that instance only.
pub proof fn lemma_triangle_locality(
    template: MeshData,
    bricks: Seq<Brick>,
    merged: InstanceData,
    triangle: int,
)
    requires
        template.is_valid(),
        template.index_count() % 3 == 0,
        is_bake(template, bricks, merged),
        0 <= triangle,
        3 * triangle + 2 < merged.indices.len(),
    ensures
        0 <= template.index_owner(3 * triangle) < bricks.len(),
        triangle_in_block(
            merged.indices,
            triangle,
            template.index_owner(3 * triangle),
            template.vertex_count() as int,
        ),
        forall|i: int|
            triangle_in_block(merged.indices, triangle, i, template.vertex_count() as int) ==> i
                == template.index_owner(3 * triangle),
{
    let per_instance = template.index_count() as int;
    let first = 3 * triangle;
    lemma_index_locality(template, bricks, merged, first);
    lemma_index_locality(template, bricks, merged, first + 1);
    lemma_index_locality(template, bricks, merged, first + 2);
    lemma_block_of(first, per_instance);
    let i = first / per_instance;
    let local = first % per_instance;
    let third = per_instance / 3;
    assert(local == 3 * (triangle - third * i)) by (nonlinear_arith)
        requires
            3 * triangle == i * per_instance + local,
            per_instance == 3 * third,
    ;
    lemma_fundamental_div_mod_converse(first + 1, per_instance, i, local + 1);
    lemma_fundamental_div_mod_converse(first + 2, per_instance, i, local + 2);
}

/// The merged vertices that carry instance id `id`.
pub open spec fn slots_with_id(instance_ids: Seq<u32>, id: int) -> Set<int> {
    Set::new(|j: int| 0 <= j < instance_ids.len() && instance_ids[j] as int == id)
}

/// Every instance id in a merged buffer is the number of one of the bricks.
pub proof fn lemma_instance_ids_below_count(
    template: MeshData,
    bricks: Seq<Brick>,
    merged: InstanceData,
    j: int,
)
    requires
        is_bake(template, bricks, merged),
        0 <= j < merged.instance_ids.len(),
    ensures
        0 <= (merged.instance_ids[j] as int) < bricks.len(),
{
    lemma_instance_below(j, bricks.len() as int, template.vertex_count() as int);
}

/// Each brick's number is the instance id of exactly the vertices of its own
/// block, which are as many as the template has vertices.
pub proof fn lemma_instance_id_coverage(
    template: MeshData,
    bricks: Seq<Brick>,
    merged: InstanceData,
    i: int,
)
    requires
        is_bake(template, bricks, merged),
        0 <= i < bricks.len(),
    ensures
        slots_with_id(merged.instance_ids, i) == set_int_range(
            i * template.vertex_count(),
            i * template.vertex_count() + template.vertex_count(),
        ),
        slots_with_id(merged.instance_ids, i).finite(),
        slots_with_id(merged.instance_ids, i).len() == template.vertex_count(),
{
    let vertex_count = template.vertex_count() as int;
    let low = i * vertex_count;
    lemma_block_bounds(i, bricks.len() as int, vertex_count);
    assert forall|j: int|
        slots_with_id(merged.instance_ids, i).contains(j) == set_int_range(
            low,
            low + vertex_count,
        ).contains(j) by {
        if 0 <= j < merged.instance_ids.len() {
            lemma_instance_below(j, bricks.len() as int, vertex_count);
            lemma_block_of(j, vertex_count);
            assert(merged.instance_ids[j] as int == j / vertex_count);
            assert(in_block(j, i, vertex_count) == (low <= j < low + vertex_count));
        }
    }
    assert(slots_with_id(merged.instance_ids, i) =~= set_int_range(low, low + vertex_count));
    lemma_int_range(low, low + vertex_count);
}

} // verus!
