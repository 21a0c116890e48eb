//! The vocabulary of one frame: completion tokens, the phases a frame passes
//! through, what the platform reports back, and what the scheduler asks for.

use vstd::prelude::*;
use crate::swapchain::Extent;
use crate::swapchain::SwapchainInfo;
use crate::recorder::FramePlan;

verus! {

/// Stands for the eventual completion of work handed to the queue.
#[derive(Clone, Copy, Debug, PartialEq, Eq, Structural)]
pub enum CompletionToken {
    /// Nothing is outstanding: waiting on this token returns at once.
    Ready,
    /// Completes when the frame submitted and presented on `image` has
    /// finished on the device.
    Frame { image: usize },
}

impl CompletionToken {
    /// Whether waiting on the token can block.
    pub open spec fn spec_may_block(self) -> bool {
        self is Frame
    }

    /// Whether waiting on the token can block.
    #[verifier::when_used_as_spec(spec_may_block)]
    pub fn may_block(self) -> (blocks: bool)
        ensures
            blocks == self.spec_may_block(),
    {
        match self {
            CompletionToken::Ready => false,
            CompletionToken::Frame { .. } => true,
        }
    }
}

/// Where the scheduler stands within a frame.
#[derive(Clone, Copy, Debug, PartialEq, Eq, Structural)]
pub enum FramePhase {
    /// Between frames.
    Idle,
    /// A rebuild of the chain has been asked for.
    NeedsRecreate,
    /// The next presentable image has been asked for.
    Acquiring,
    /// Commands are being recorded for `image`.
    Recording { image: usize },
    /// The recorded commands for `image` are being handed to the queue.
    Submitting { image: usize },
    /// Presentation of `image` has been asked for.
    Presenting { image: usize },
}

impl FramePhase {
    /// Whether a frame's work has been handed to the queue and its outcome is
    /// still awaited.
    pub open spec fn in_submission(self) -> bool {
        self is Submitting || self is Presenting
    }

    /// The image the phase works on, if it works on one.
    pub open spec fn image(self) -> Option<usize> {
        match self {
            FramePhase::Recording { image } => Some(image),
            FramePhase::Submitting { image } => Some(image),
            FramePhase::Presenting { image } => Some(image),
            _ => None,
        }
    }
}

/// How a rebuild of the chain ended.
#[derive(Clone, Copy, Debug, PartialEq, Eq, Structural)]
pub enum RecreateReply {
    /// A new chain stands in place of the old one, with `image_count` images
    /// of `image_extent`.
    Rebuilt { image_count: usize, image_extent: Extent },
    /// The platform does not support the requested extent; the old chain
    /// stays.
    ExtentNotSupported,
    /// The rebuild failed for any other reason, which is fatal.
    Failed,
}

/// How the request for the next presentable image ended.
#[derive(Clone, Copy, Debug, PartialEq, Eq, Structural)]
pub enum AcquireReply {
    /// Image `image` is available; `suboptimal` tells that it no longer
    /// matches the surface exactly.
    Ready { image: usize, suboptimal: bool },
    /// The chain is stale and must be rebuilt before further use.
    OutOfDate,
    /// Any other platform failure, which is fatal.
    Failed,
}

/// How presentation ended.
#[derive(Clone, Copy, Debug, PartialEq, Eq, Structural)]
pub enum PresentReply {
    /// Submission and presentation were flushed to the queue.
    Flushed,
    /// The chain is stale and must be rebuilt before further use.
    OutOfDate,
    /// Any other failure.
    Failed,
}

/// What the scheduler is told.
#[derive(Clone, Copy, Debug, PartialEq, Eq, Structural)]
pub enum FrameEvent {
    /// A redraw is asked for; the surface currently measures
    /// `surface_extent`.
    RedrawRequested { surface_extent: Extent },
    /// The rebuild that was asked for has ended.
    Recreated(RecreateReply),
    /// The request for an image has ended.
    Acquired(AcquireReply),
    /// Recording has ended; `built` tells whether a command buffer came of
    /// it. That none did is fatal.
    Recorded { built: bool },
    /// Submission has ended; `accepted` tells whether the queue took the
    /// work. That it did not is fatal.
    Submitted { accepted: bool },
    /// Presentation has ended.
    Presented(PresentReply),
}

impl FrameEvent {
    /// Whether the event reports a condition that nothing recovers from: a
    /// rebuild or an acquisition that failed for a reason of its own, a
    /// command buffer that was not built, work that the queue did not take.
    /// A stale chain, an unsupported extent and a failed presentation are
    /// none.
    pub open spec fn spec_is_fatal(self) -> bool {
        match self {
            FrameEvent::Recreated(reply) => reply is Failed,
            FrameEvent::Acquired(reply) => reply is Failed,
            FrameEvent::Recorded { built } => !built,
            FrameEvent::Submitted { accepted } => !accepted,
            _ => false,
        }
    }

    /// Whether the event reports a condition that nothing recovers from.
    #[verifier::when_used_as_spec(spec_is_fatal)]
    pub fn is_fatal(self) -> (fatal: bool)
        ensures
            fatal == self.spec_is_fatal(),
    {
        match self {
            FrameEvent::Recreated(RecreateReply::Failed) => true,
            FrameEvent::Acquired(AcquireReply::Failed) => true,
            FrameEvent::Recorded { built } => !built,
            FrameEvent::Submitted { accepted } => !accepted,
            _ => false,
        }
    }
}

/// What the scheduler asks for next.
#[derive(Clone, Copy, Debug, PartialEq, Eq, Structural)]
pub enum FrameAction {
    /// Rebuild the chain from this description, then report `Recreated`.
    RecreateSwapchain(SwapchainInfo),
    /// Ask for the next presentable image without a timeout, then report
    /// `Acquired`.
    AcquireImage,
    /// Record the frame's commands as planned, then report `Recorded`.
    Record(FramePlan),
    /// Join `after` with the availability of `image`, hand the recorded
    /// commands to the queue behind that join, then report `Submitted`.
    Submit { image: usize, after: CompletionToken },
    /// Join `after` with the availability of `image`, let the overlay draw
    /// onto the image behind that join, then report `Submitted`.
    DrawOverlay { image: usize, after: CompletionToken },
    /// Ask for presentation of `image`, then report `Presented`.
    Present { image: usize },
    /// The frame is on its way. `token` is now in flight; block on it before
    /// going on where `wait` is set.
    Finished { token: CompletionToken, wait: bool },
    /// The frame was abandoned before anything was recorded.
    Skipped,
    /// The frame was submitted but not presented; `stale` tells whether the
    /// chain was reported stale.
    Dropped { stale: bool },
}

impl FrameAction {
    /// Whether the action hands a frame's work to the queue.
    pub open spec fn submits(self) -> bool {
        self is Submit || self is DrawOverlay
    }
}

/// Why the scheduler refused an event.
#[derive(Clone, Copy, Debug, PartialEq, Eq, Structural)]
pub enum RenderError {
    /// The event does not answer what was last asked for.
    UnexpectedEvent,
}

} // verus!
