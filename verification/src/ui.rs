//! Frames that show the overlay alone.

use vstd::prelude::*;
use crate::frame::FrameAction;
use crate::frame::FrameEvent;
use crate::frame::RenderError;
use crate::renderer::FrameLayers;
use crate::renderer::SimpleGuiRenderer;
use crate::renderer::Step;

verus! {

/// Takes one step of a frame on which the overlay alone is drawn, straight
/// onto the acquired image: such a frame is not recorded, it goes to the
/// queue as soon as its image is there, behind the join with the kept token.
/// In everything else it is scheduled as a composed frame is. A fatal event
/// is not taken: the program ends on it.
pub fn draw(data: &mut SimpleGuiRenderer, event: FrameEvent) -> (next: Result<
    FrameAction,
    RenderError,
>)
    requires
        old(data)@.admits(event),
    ensures
        old(data)@.wf(),
        final(data)@.wf(),
        old(data)@.step(event, FrameLayers::OverlayOnly) == (Step {
            state: final(data)@,
            output: next,
        }),
{
    data.step(event, FrameLayers::OverlayOnly)
}

} // verus!
