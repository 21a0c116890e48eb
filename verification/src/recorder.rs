//! The commands of one frame: a render pass of two subpasses, the content
//! layer in the first and the overlay in the second.

use vstd::prelude::*;
use crate::swapchain::Extent;

verus! {

/// A colour with its four channels in thousandths of full intensity.
#[derive(Clone, Copy, Debug, PartialEq, Eq, Structural)]
pub struct ClearColor {
    pub red: u16,
    pub green: u16,
    pub blue: u16,
    pub alpha: u16,
}

/// The colour every frame is cleared to: a dark grey at four fifths opacity.
pub open spec fn spec_clear_color() -> ClearColor {
    ClearColor { red: 100, green: 100, blue: 100, alpha: 800 }
}

/// The colour every frame is cleared to.
#[verifier::when_used_as_spec(spec_clear_color)]
pub fn clear_color() -> (color: ClearColor)
    ensures
        color == spec_clear_color(),
{
    ClearColor { red: 100, green: 100, blue: 100, alpha: 800 }
}

/// What a frame is recorded from.
#[derive(Clone, Copy, Debug, PartialEq, Eq, Structural)]
pub struct FramePlan {
    /// The acquired image, whose view is the framebuffer's one attachment.
    pub image: usize,
    /// The extent of the chain's images: viewport of the content layer and
    /// size of the overlay.
    pub extent: Extent,
    /// The number of vertices of the content geometry.
    pub vertex_count: u32,
}

/// One command of a frame's primary command buffer.
#[derive(Clone, Copy, Debug, PartialEq, Eq, Structural)]
pub enum RenderCommand {
    /// Begin the render pass on the framebuffer of `image`, clearing it to
    /// `clear`; the subpasses take secondary command buffers.
    BeginRenderPass { image: usize, clear: ClearColor },
    /// Execute a freshly built secondary buffer that binds the content
    /// pipeline, sets the viewport to `viewport` from the origin with the
    /// full depth range, binds the content geometry and draws
    /// `vertex_count` vertices in `instance_count` instances.
    ExecuteContent { viewport: Extent, vertex_count: u32, instance_count: u32 },
    /// Move on to the next subpass.
    NextSubpass,
    /// Execute the secondary buffer that the overlay supplies for `extent`.
    ExecuteOverlay { extent: Extent },
    /// End the render pass.
    EndRenderPass,
}

/// The commands of the frame planned by `plan`, in order.
pub open spec fn frame_commands(plan: FramePlan) -> Seq<RenderCommand> {
    seq![
        RenderCommand::BeginRenderPass { image: plan.image, clear: spec_clear_color() },
        RenderCommand::ExecuteContent {
            viewport: plan.extent,
            vertex_count: plan.vertex_count,
            instance_count: 1,
        },
        RenderCommand::NextSubpass,
        RenderCommand::ExecuteOverlay { extent: plan.extent },
        RenderCommand::EndRenderPass,
    ]
}

/// The number of `NextSubpass` commands among the first `upto` commands: the
/// subpass that the command at `upto` runs in.
pub open spec fn subpass_at(commands: Seq<RenderCommand>, upto: int) -> nat
    decreases upto,
{
    if upto <= 0 || upto > commands.len() {
        0
    } else if commands[upto - 1] is NextSubpass {
        subpass_at(commands, upto - 1) + 1
    } else {
        subpass_at(commands, upto - 1)
    }
}

/// The number of subpass sections of a command list that holds a render
/// pass.
pub open spec fn subpass_sections(commands: Seq<RenderCommand>) -> nat {
    subpass_at(commands, commands.len() as int) + 1
}

/// Builds the primary command list of the frame planned by `plan`.
pub fn record(plan: FramePlan) -> (commands: Vec<RenderCommand>)
    ensures
        commands@ == frame_commands(plan),
{
    let mut commands: Vec<RenderCommand> = Vec::new();
    commands.push(RenderCommand::BeginRenderPass { image: plan.image, clear: clear_color() });
    commands.push(
        RenderCommand::ExecuteContent {
            viewport: plan.extent,
            vertex_count: plan.vertex_count,
            instance_count: 1,
        },
    );
    commands.push(RenderCommand::NextSubpass);
    commands.push(RenderCommand::ExecuteOverlay { extent: plan.extent });
    commands.push(RenderCommand::EndRenderPass);
    assert(commands@ =~= frame_commands(plan));
    commands
}

/// Every frame has exactly two subpass sections: the content layer is
/// executed in the first, the overlay in the second, both at the plan's
/// extent, between the begin and the end of one render pass on the plan's
/// image.
pub proof fn lemma_frame_has_two_subpasses(plan: FramePlan)
    ensures
        frame_commands(plan).len() == 5,
        subpass_sections(frame_commands(plan)) == 2,
        frame_commands(plan)[0] == (RenderCommand::BeginRenderPass {
            image: plan.image,
            clear: spec_clear_color(),
        }),
        frame_commands(plan)[1] is ExecuteContent,
        frame_commands(plan)[1]->viewport == plan.extent,
        subpass_at(frame_commands(plan), 1) == 0,
        frame_commands(plan)[3] == (RenderCommand::ExecuteOverlay { extent: plan.extent }),
        subpass_at(frame_commands(plan), 3) == 1,
        frame_commands(plan)[4] is EndRenderPass,
{
    let commands = frame_commands(plan);
    reveal_with_fuel(subpass_at, 6);
    assert(subpass_at(commands, 0) == 0);
    assert(subpass_at(commands, 1) == 0);
    assert(subpass_at(commands, 2) == 0);
    assert(subpass_at(commands, 3) == 1);
    assert(subpass_at(commands, 4) == 1);
    assert(subpass_at(commands, 5) == 1);
}

} // verus!
