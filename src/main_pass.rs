use vstd::prelude::*;

use crate::handles::{BindGroupHandle, BufferHandle, PipelineHandle};
use crate::render_object::{index_ranges_fit, PassType, RenderObject};

verus! {

/// One command recorded into a render pass.
#[derive(Clone, Copy, Debug, PartialEq, Eq, Structural)]
pub enum PassCommand {
    SetPipeline(PipelineHandle),
    SetBindGroup { slot: u32, group: BindGroupHandle },
    SetVertexBuffer { slot: u32, buffer: BufferHandle },
    /// Binds an index buffer of 16-bit indices.
    SetIndexBuffer(BufferHandle),
    /// Draws the indices `first_index..end_index` for instances `0..instances`;
    /// for a mesh that is `start_index..start_index + num_indices`.
    DrawIndexed { first_index: u32, end_index: u32, base_vertex: i32, instances: u32 },
}

/// What a pass needs from the frame besides the objects.
#[derive(Clone, Copy, Debug, PartialEq, Eq, Structural)]
pub struct FrameData {
    pub global_bind_group: BindGroupHandle,
}

/// The draw call made for one object.
pub open spec fn draw_command(object: RenderObject) -> PassCommand {
    PassCommand::DrawIndexed {
        first_index: object.mesh.start_index,
        end_index: (object.mesh.start_index + object.mesh.num_indices) as u32,
        base_vertex: 0,
        instances: object.instances_len,
    }
}

/// The commands recorded for one object: its pipeline, the global bind group
/// at slot 0 and its material's at slot 1, its mesh vertices at slot 0 and
/// its instance transforms at slot 1, its indices, then one draw.
pub open spec fn object_commands(object: RenderObject, global: BindGroupHandle) -> Seq<PassCommand> {
    seq![
        PassCommand::SetPipeline(object.material.shader.pipeline),
        PassCommand::SetBindGroup { slot: 0, group: global },
        PassCommand::SetBindGroup { slot: 1, group: object.material.bind_group },
        PassCommand::SetVertexBuffer { slot: 0, buffer: object.mesh.vertices },
        PassCommand::SetVertexBuffer { slot: 1, buffer: object.instances },
        PassCommand::SetIndexBuffer(object.mesh.indices),
        draw_command(object),
    ]
}

/// The commands for `objects`, one block per object, in list order.
pub open spec fn pass_commands(objects: Seq<RenderObject>, global: BindGroupHandle) -> Seq<PassCommand>
    decreases objects.len(),
{
    if objects.len() == 0 {
        seq![]
    } else {
        pass_commands(objects.drop_last(), global) + object_commands(objects.last(), global)
    }
}

/// The number of commands recorded for each object.
pub const COMMANDS_PER_OBJECT: usize = 7;

/// The pass that clears the color target and draws the opaque objects.
#[derive(Clone, Copy, Debug, PartialEq, Eq, Structural)]
pub struct MainRenderPass {}

impl MainRenderPass {
    pub fn new() -> (r: MainRenderPass)
        ensures
            r == (MainRenderPass {}),
    {
        MainRenderPass {}
    }

    /// The pass classification this pass draws.
    pub fn pass_type(&self) -> (r: PassType)
        ensures
            r == PassType::Opaque,
    {
        PassType::Opaque
    }

    /// Records the commands that draw `objects` in the given order; no
    /// sorting by material or depth is done.
    pub fn record(&self, data: &FrameData, objects: &[RenderObject]) -> (r: Vec<PassCommand>)
        requires
            index_ranges_fit(objects@),
        ensures
            r@ == pass_commands(objects@, data.global_bind_group),
    {
        let global = data.global_bind_group;
        let mut commands: Vec<PassCommand> = Vec::new();
        let mut i: usize = 0;
        while i < objects.len()
            invariant
                i <= objects@.len(),
                index_ranges_fit(objects@),
                commands@ == pass_commands(objects@.take(i as int), global),
            decreases objects@.len() - i,
        {
            let object = objects[i];
            assert(crate::resources::index_range_fits(objects@[i as int].mesh));
            commands.push(PassCommand::SetPipeline(object.material.shader.pipeline));
            commands.push(PassCommand::SetBindGroup { slot: 0, group: global });
            commands.push(PassCommand::SetBindGroup { slot: 1, group: object.material.bind_group });
            commands.push(PassCommand::SetVertexBuffer { slot: 0, buffer: object.mesh.vertices });
            commands.push(PassCommand::SetVertexBuffer { slot: 1, buffer: object.instances });
            commands.push(PassCommand::SetIndexBuffer(object.mesh.indices));
            commands.push(PassCommand::DrawIndexed {
                first_index: object.mesh.start_index,
                end_index: object.mesh.start_index + object.mesh.num_indices,
                base_vertex: 0,
                instances: object.instances_len,
            });
            proof {
                assert(objects@.take(i + 1).drop_last() =~= objects@.take(i as int));
            }
            assert(commands@ =~= pass_commands(objects@.take(i + 1), global));
            i += 1;
        }
        assert(objects@.take(objects@.len() as int) =~= objects@);
        commands
    }
}

} // verus!
