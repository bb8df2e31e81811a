//! A wall: a brick template, the bricks placed last, and the buffer baked
//! from them.

use crate::brick::Brick;
use crate::instance_buffer::{bake, is_bake, InstanceBuffer, InstanceData};
use crate::instance_laws::lemma_bake_is_deterministic;
use crate::mesh_buffer::{MeshBuffer, MeshData};
use vstd::prelude::*;

verus! {

/// What a wall holds, as sequences.
pub struct WallData {
    pub template: MeshData,
    pub bricks: Seq<Brick>,
    pub merged: InstanceData,
}

impl WallData {
    /// The template is valid, and the merged buffer is the one that the
    /// bricks make of it.
    pub open spec fn is_baked(self) -> bool {
        self.template.is_valid() && is_bake(self.template, self.bricks, self.merged)
    }
}

/// Two baked walls of the same template and the same bricks hold the same
/// merged buffer, however often and in whatever order they were updated
/// before.
pub proof fn lemma_equal_bricks_make_equal_walls(first: WallData, second: WallData)
    requires
        first.is_baked(),
        second.is_baked(),
        first.template == second.template,
        first.bricks == second.bricks,
    ensures
        first == second,
{
    lemma_bake_is_deterministic(first.template, first.bricks, first.merged, second.merged);
}

/// A brick wall kept as one merged mesh. The buffer is rebuilt from scratch
/// whenever the bricks change; nothing of the previous buffer survives.
#[derive(Debug)]
pub struct InstancedWall {
    mesh_buffer: MeshBuffer,
    bricks: Vec<Brick>,
    instances: InstanceBuffer,
}

impl View for InstancedWall {
    type V = WallData;

    closed spec fn view(&self) -> WallData {
        WallData { template: self.mesh_buffer@, bricks: self.bricks@, merged: self.instances@ }
    }
}

impl InstancedWall {
    /// A wall of `bricks`, each a copy of `mesh_buffer`, baked at once.
    pub fn new(bricks: Vec<Brick>, mesh_buffer: MeshBuffer) -> (wall: Self)
        requires
            mesh_buffer@.can_hold(bricks@.len()),
        ensures
            wall@.template == mesh_buffer@,
            wall@.bricks == bricks@,
            wall@.is_baked(),
    {
        let instances: InstanceBuffer = bake(&mesh_buffer, &bricks);
        InstancedWall { mesh_buffer, bricks, instances }
    }

    /// Replaces the bricks and bakes the buffer anew. The template stays.
    pub fn update(&mut self, bricks: Vec<Brick>)
        requires
            old(self)@.template.can_hold(bricks@.len()),
        ensures
            final(self)@.template == old(self)@.template,
            final(self)@.bricks == bricks@,
            final(self)@.is_baked(),
    {
        let instances: InstanceBuffer = bake(&self.mesh_buffer, &bricks);
        self.instances = instances;
        self.bricks = bricks;
    }

    /// The brick template of this wall.
    pub fn mesh_buffer(&self) -> (template: &MeshBuffer)
        ensures
            template@ == self@.template,
    {
        &self.mesh_buffer
    }

    /// The bricks placed last.
    pub fn bricks(&self) -> (bricks: &Vec<Brick>)
        ensures
            bricks@ == self@.bricks,
    {
        &self.bricks
    }

    /// The merged buffer, ready to be handed to a renderer.
    pub fn buffer(&self) -> (merged: &InstanceBuffer)
        ensures
            merged@ == self@.merged,
    {
        &self.instances
    }
}

} // verus!
