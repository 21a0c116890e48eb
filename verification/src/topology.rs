//! The render topology: one colour attachment, cleared on load and kept on
//! store, drawn to by two subpasses in order, and the pipeline of the first.

use vstd::prelude::*;

verus! {

/// What happens to an attachment when the render pass begins.
#[derive(Clone, Copy, Debug, PartialEq, Eq, Structural)]
pub enum LoadOp {
    Load,
    Clear,
    DontCare,
}

/// What happens to an attachment when the render pass ends.
#[derive(Clone, Copy, Debug, PartialEq, Eq, Structural)]
pub enum StoreOp {
    Store,
    DontCare,
}

/// The subpass that draws the content layer.
pub const CONTENT_SUBPASS: u32 = 0;

/// The subpass that draws the overlay.
pub const OVERLAY_SUBPASS: u32 = 1;

/// The description of the render pass. Every subpass draws to the one colour
/// attachment and reads no input and no depth.
#[derive(Clone, Copy, Debug, PartialEq, Eq, Structural)]
pub struct RenderPassDesc {
    /// The format of the colour attachment: that of the chain's images.
    pub format: u32,
    /// The samples per pixel of the colour attachment.
    pub samples: u32,
    pub load: LoadOp,
    pub store: StoreOp,
    /// The number of subpasses, which run in order.
    pub subpass_count: u32,
}

/// The description of the graphics pipeline that draws the content layer.
#[derive(Clone, Copy, Debug, PartialEq, Eq, Structural)]
pub struct PipelineDesc {
    /// The subpass the pipeline is bound to.
    pub subpass: u32,
    /// Whether the viewport is set while recording, not when the pipeline is
    /// built.
    pub dynamic_viewport: bool,
}

/// The render pass for images of `format`: cleared, stored, one sample per
/// pixel, two subpasses.
pub open spec fn render_pass_for(format: u32) -> RenderPassDesc {
    RenderPassDesc {
        format,
        samples: 1,
        load: LoadOp::Clear,
        store: StoreOp::Store,
        subpass_count: 2,
    }
}

impl RenderPassDesc {
    /// The subpass `id` of this render pass, if it has that many.
    pub open spec fn spec_subpass(self, id: u32) -> Option<u32> {
        if id < self.subpass_count {
            Some(id)
        } else {
            None
        }
    }

    /// The subpass `id` of this render pass, if it has that many.
    #[verifier::when_used_as_spec(spec_subpass)]
    pub fn subpass(self, id: u32) -> (found: Option<u32>)
        ensures
            found == self.spec_subpass(id),
    {
        if id < self.subpass_count {
            Some(id)
        } else {
            None
        }
    }
}

/// Describes the render pass for images of `format`.
pub fn create_render_pass(format: u32) -> (render_pass: RenderPassDesc)
    ensures
        render_pass == render_pass_for(format),
        render_pass.subpass(CONTENT_SUBPASS) == Some(CONTENT_SUBPASS),
        render_pass.subpass(OVERLAY_SUBPASS) == Some(OVERLAY_SUBPASS),
{
    RenderPassDesc {
        format,
        samples: 1,
        load: LoadOp::Clear,
        store: StoreOp::Store,
        subpass_count: 2,
    }
}

/// Describes the pipeline of the content layer: bound to the first subpass
/// of `render_pass`, with a dynamic viewport. A render pass without a subpass
/// has no pipeline; the caller does not ask for one.
pub fn create_pipeline(render_pass: RenderPassDesc) -> (pipeline: PipelineDesc)
    requires
        render_pass.subpass_count > 0,
    ensures
        pipeline == (PipelineDesc { subpass: CONTENT_SUBPASS, dynamic_viewport: true }),
        render_pass.subpass(pipeline.subpass) == Some(pipeline.subpass),
{
    PipelineDesc { subpass: render_pass.subpass(CONTENT_SUBPASS).unwrap(), dynamic_viewport: true }
}

} // verus!
