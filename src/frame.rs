use vstd::prelude::*;
use crate::geometry::INDEX_COUNT;

verus! {

/// What asking the surface for its next presentable texture gave.
#[derive(Clone, Copy, Debug, PartialEq, Eq, Structural)]
pub enum AcquireOutcome {
    /// A texture to draw into and present.
    Acquired,
    /// The surface was invalidated and must be configured again.
    Lost,
    /// The GPU is out of memory; nothing more can be rendered.
    OutOfMemory,
    /// The surface changed under the renderer; this frame is dropped.
    Outdated,
    /// No texture came in time; this frame is dropped.
    Timeout,
}

/// The color a frame is cleared to before drawing.
#[derive(Clone, Copy, Debug, PartialEq, Eq, Structural)]
pub enum Background {
    OpaqueBlue,
}

#[derive(Clone, Copy, Debug, PartialEq, Eq, Structural)]
pub enum IndexFormat {
    Uint16,
}

/// One step of recording the frame's render pass, in order.
#[derive(Clone, Copy, Debug, PartialEq, Eq, Structural)]
pub enum PassCommand {
    /// Begin the pass over the acquired texture, clearing it and storing the result.
    Begin { clear: Background },
    SetPipeline,
    SetBindGroup { slot: u32 },
    SetVertexBuffer { slot: u32 },
    SetIndexBuffer { format: IndexFormat },
    DrawIndexed { first_index: u32, index_count: u32, base_vertex: i32, first_instance: u32, instance_count: u32 },
}

/// What the GPU layer does with one frame.
#[derive(Clone, Copy, Debug, PartialEq, Eq, Structural)]
pub enum FrameAction {
    /// Record the frame's pass commands, submit them, present the texture.
    Draw,
    /// Present nothing; configure the surface again at this extent.
    Reconfigure { width: u32, height: u32 },
    /// Present nothing and end the process.
    Terminate,
    /// Present nothing; go on with the next frame.
    Skip,
}

/// The single indexed draw of a frame: all six indices, one instance.
pub open spec fn spec_draw() -> PassCommand {
    PassCommand::DrawIndexed {
        first_index: 0,
        index_count: INDEX_COUNT,
        base_vertex: 0,
        first_instance: 0,
        instance_count: 1,
    }
}

/// The pass recorded for every drawn frame.
pub open spec fn spec_frame_commands() -> Seq<PassCommand> {
    seq![
        PassCommand::Begin { clear: Background::OpaqueBlue },
        PassCommand::SetPipeline,
        PassCommand::SetBindGroup { slot: 0 },
        PassCommand::SetVertexBuffer { slot: 0 },
        PassCommand::SetIndexBuffer { format: IndexFormat::Uint16 },
        spec_draw(),
    ]
}

/// How many draw calls a command list holds.
pub open spec fn draw_count(cmds: Seq<PassCommand>) -> nat
    decreases cmds.len(),
{
    if cmds.len() == 0 {
        0
    } else {
        let rest = draw_count(cmds.drop_last());
        if cmds.last() is DrawIndexed {
            rest + 1
        } else {
            rest
        }
    }
}

/// The commands that record one frame's render pass.
pub fn frame_commands() -> (r: Vec<PassCommand>)
    ensures
        r@ == spec_frame_commands(),
{
    let r = vec![
        PassCommand::Begin { clear: Background::OpaqueBlue },
        PassCommand::SetPipeline,
        PassCommand::SetBindGroup { slot: 0 },
        PassCommand::SetVertexBuffer { slot: 0 },
        PassCommand::SetIndexBuffer { format: IndexFormat::Uint16 },
        PassCommand::DrawIndexed {
            first_index: 0,
            index_count: INDEX_COUNT,
            base_vertex: 0,
            first_instance: 0,
            instance_count: 1,
        },
    ];
    assert(r@ =~= spec_frame_commands());
    r
}

/// A drawn frame issues exactly one draw call, over six indices and one
/// instance, and it is the pass's last command.
pub proof fn lemma_one_draw_per_frame()
    ensures
        draw_count(spec_frame_commands()) == 1,
        spec_frame_commands().last() == spec_draw(),
        spec_draw()->index_count == 6,
        spec_draw()->instance_count == 1,
{
    let c = spec_frame_commands();
    assert(c.drop_last().drop_last().drop_last().drop_last().drop_last().drop_last() =~= Seq::<PassCommand>::empty());
    reveal_with_fuel(draw_count, 7);
}

} // verus!
