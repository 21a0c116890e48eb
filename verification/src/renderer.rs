//! The frame scheduler: which step follows which, when the chain is rebuilt,
//! and which completion token a frame waits on.

use vstd::prelude::*;
use crate::frame::AcquireReply;
use crate::frame::CompletionToken;
use crate::frame::FrameAction;
use crate::frame::FrameEvent;
use crate::frame::FramePhase;
use crate::frame::PresentReply;
use crate::frame::RecreateReply;
use crate::frame::RenderError;
use crate::recorder::FramePlan;
use crate::swapchain::create_swap_chain;
use crate::swapchain::Extent;
use crate::swapchain::PresentMode;
use crate::swapchain::SurfaceCapabilities;
use crate::swapchain::SwapchainInfo;
use crate::topology::create_render_pass;
use crate::topology::render_pass_for;
use crate::topology::RenderPassDesc;
use crate::topology::OVERLAY_SUBPASS;

verus! {

/// Which layers a frame is made of.
#[derive(Clone, Copy, Debug, PartialEq, Eq, Structural)]
pub enum FrameLayers {
    /// The content layer in the first subpass, the overlay in the second.
    ContentAndOverlay,
    /// The overlay alone, drawn straight onto the image.
    OverlayOnly,
}

/// What the scheduler knows between two steps.
pub struct RendererState {
    /// The description of the chain that stands.
    pub swap_chain: SwapchainInfo,
    /// The number of images, and image views, of that chain.
    pub image_count: nat,
    /// Whether the chain is to be rebuilt before the next image is acquired.
    pub recreate_swapchain: bool,
    /// The token of the frame submitted last, until the next frame joins it.
    pub previous_frame_end: Option<CompletionToken>,
    /// Where the scheduler stands within the frame.
    pub phase: FramePhase,
    /// The number of vertices of the content geometry.
    pub vertex_count: u32,
    /// Whether the caller is to block on each frame's token right after
    /// presenting it.
    pub wait_after_present: bool,
    /// The render pass that every frame is recorded in.
    pub render_pass: RenderPassDesc,
}

/// A step of the scheduler: the state it leads to and what it answers.
pub struct Step {
    pub state: RendererState,
    pub output: Result<FrameAction, RenderError>,
}

impl RendererState {
    /// The number of completion tokens alive: the one kept for the next
    /// frame, and the one that a frame handed to the queue has joined.
    pub open spec fn live_tokens(self) -> nat {
        let kept: nat = if self.previous_frame_end is Some { 1 } else { 0 };
        let joined: nat = if self.phase.in_submission() { 1 } else { 0 };
        kept + joined
    }

    /// The state is consistent: exactly one token is alive; the image being
    /// worked on belongs to the chain; a rebuild is under way only while one
    /// is pending; and the render pass is the one for the chain's format.
    pub open spec fn wf(self) -> bool {
        &&& self.image_count <= usize::MAX
        &&& self.live_tokens() == 1
        &&& self.phase.image() is Some ==> self.phase.image()->Some_0 < self.image_count
        &&& self.phase is NeedsRecreate ==> self.recreate_swapchain
        &&& self.render_pass == render_pass_for(self.swap_chain.image_format)
    }

    /// Whether the scheduler takes `event`: it reports no fatal condition,
    /// and an image that it reports belongs to the chain. Any other event
    /// ends the program before it reaches the scheduler.
    pub open spec fn admits(self, event: FrameEvent) -> bool {
        &&& !event.is_fatal()
        &&& event matches FrameEvent::Acquired(AcquireReply::Ready { image, .. }) ==> image
            < self.image_count
    }

    /// Whether `event` answers what the scheduler last asked for.
    pub open spec fn expects(self, event: FrameEvent) -> bool {
        match (self.phase, event) {
            (FramePhase::Idle, FrameEvent::RedrawRequested { .. }) => true,
            (FramePhase::NeedsRecreate, FrameEvent::Recreated(_)) => true,
            (FramePhase::Acquiring, FrameEvent::Acquired(_)) => true,
            (FramePhase::Recording { .. }, FrameEvent::Recorded { .. }) => true,
            (FramePhase::Submitting { .. }, FrameEvent::Submitted { .. }) => true,
            (FramePhase::Presenting { .. }, FrameEvent::Presented(_)) => true,
            _ => false,
        }
    }

    /// The plan of a frame on `image` with the chain as it stands.
    pub open spec fn plan(self, image: usize) -> FramePlan {
        FramePlan { image, extent: self.swap_chain.image_extent, vertex_count: self.vertex_count }
    }

    /// A redraw request between frames: rebuild first where a rebuild is
    /// pending, else acquire.
    pub open spec fn on_redraw(self, surface_extent: Extent) -> Step {
        if self.recreate_swapchain {
            Step {
                state: RendererState { phase: FramePhase::NeedsRecreate, ..self },
                output: Ok(
                    FrameAction::RecreateSwapchain(self.swap_chain.with_extent(surface_extent)),
                ),
            }
        } else {
            Step {
                state: RendererState { phase: FramePhase::Acquiring, ..self },
                output: Ok(FrameAction::AcquireImage),
            }
        }
    }

    /// The end of a rebuild. A new chain differs from the old one in extent
    /// and image views alone and clears the pending rebuild; an unsupported
    /// extent leaves everything as it was, the rebuild still pending. Either
    /// way the frame goes on to acquire.
    pub open spec fn on_recreated(self, reply: RecreateReply) -> Step
        recommends
            !(reply is Failed),
    {
        match reply {
            RecreateReply::Rebuilt { image_count, image_extent } => Step {
                state: RendererState {
                    swap_chain: self.swap_chain.with_extent(image_extent),
                    image_count: image_count as nat,
                    recreate_swapchain: false,
                    phase: FramePhase::Acquiring,
                    ..self
                },
                output: Ok(FrameAction::AcquireImage),
            },
            RecreateReply::ExtentNotSupported => Step {
                state: RendererState { phase: FramePhase::Acquiring, ..self },
                output: Ok(FrameAction::AcquireImage),
            },
            RecreateReply::Failed => self.refused(),
        }
    }

    /// The end of an acquisition. A usable image is recorded for, or, with
    /// the overlay alone, drawn onto behind the join with the kept token; a
    /// sub-optimal one marks the chain for a rebuild before the next frame. A
    /// stale chain marks it likewise and abandons the frame.
    pub open spec fn on_acquired(self, reply: AcquireReply, layers: FrameLayers) -> Step
        recommends
            !(reply is Failed),
            reply matches AcquireReply::Ready { image, .. } ==> image < self.image_count,
    {
        match reply {
            AcquireReply::Ready { image, suboptimal } => {
                let marked = RendererState {
                    recreate_swapchain: self.recreate_swapchain || suboptimal,
                    ..self
                };
                match layers {
                    FrameLayers::ContentAndOverlay => Step {
                        state: RendererState { phase: FramePhase::Recording { image }, ..marked },
                        output: Ok(FrameAction::Record(self.plan(image))),
                    },
                    FrameLayers::OverlayOnly => Step {
                        state: RendererState {
                            phase: FramePhase::Submitting { image },
                            previous_frame_end: None,
                            ..marked
                        },
                        output: Ok(
                            FrameAction::DrawOverlay {
                                image,
                                after: self.previous_frame_end->Some_0,
                            },
                        ),
                    },
                }
            },
            AcquireReply::OutOfDate => Step {
                state: RendererState {
                    recreate_swapchain: true,
                    phase: FramePhase::Idle,
                    ..self
                },
                output: Ok(FrameAction::Skipped),
            },
            AcquireReply::Failed => self.refused(),
        }
    }

    /// The end of recording for `image`: the kept token is taken and joined
    /// by the submission.
    pub open spec fn on_recorded(self, image: usize) -> Step {
        Step {
            state: RendererState {
                phase: FramePhase::Submitting { image },
                previous_frame_end: None,
                ..self
            },
            output: Ok(FrameAction::Submit { image, after: self.previous_frame_end->Some_0 }),
        }
    }

    /// The end of submission for `image`: presentation follows.
    pub open spec fn on_submitted(self, image: usize) -> Step {
        Step {
            state: RendererState { phase: FramePhase::Presenting { image }, ..self },
            output: Ok(FrameAction::Present { image }),
        }
    }

    /// The end of presentation for `image`. On success the frame's own token
    /// is kept for the next frame. On any failure a token that is already
    /// complete is kept in its place; a stale chain is marked for a rebuild
    /// as well.
    pub open spec fn on_presented(self, image: usize, reply: PresentReply) -> Step {
        match reply {
            PresentReply::Flushed => Step {
                state: RendererState {
                    previous_frame_end: Some(CompletionToken::Frame { image }),
                    phase: FramePhase::Idle,
                    ..self
                },
                output: Ok(
                    FrameAction::Finished {
                        token: CompletionToken::Frame { image },
                        wait: self.wait_after_present,
                    },
                ),
            },
            PresentReply::OutOfDate => Step {
                state: RendererState {
                    recreate_swapchain: true,
                    previous_frame_end: Some(CompletionToken::Ready),
                    phase: FramePhase::Idle,
                    ..self
                },
                output: Ok(FrameAction::Dropped { stale: true }),
            },
            PresentReply::Failed => Step {
                state: RendererState {
                    previous_frame_end: Some(CompletionToken::Ready),
                    phase: FramePhase::Idle,
                    ..self
                },
                output: Ok(FrameAction::Dropped { stale: false }),
            },
        }
    }

    /// An event that does not answer what was last asked for changes
    /// nothing.
    pub open spec fn refused(self) -> Step {
        Step { state: self, output: Err(RenderError::UnexpectedEvent) }
    }

    /// One step of the scheduler on `event`, for a frame made of `layers`.
    /// An event that the scheduler does not admit never reaches it; here it
    /// counts as not taken.
    pub open spec fn step(self, event: FrameEvent, layers: FrameLayers) -> Step
        recommends
            self.admits(event),
    {
        if !self.admits(event) {
            self.refused()
        } else {
            match (self.phase, event) {
                (
                    FramePhase::Idle,
                    FrameEvent::RedrawRequested { surface_extent },
                ) => self.on_redraw(surface_extent),
                (FramePhase::NeedsRecreate, FrameEvent::Recreated(reply)) => self.on_recreated(
                    reply,
                ),
                (FramePhase::Acquiring, FrameEvent::Acquired(reply)) => self.on_acquired(
                    reply,
                    layers,
                ),
                (FramePhase::Recording { image }, FrameEvent::Recorded { .. }) => self.on_recorded(
                    image,
                ),
                (
                    FramePhase::Submitting { image },
                    FrameEvent::Submitted { .. },
                ) => self.on_submitted(image),
                (
                    FramePhase::Presenting { image },
                    FrameEvent::Presented(reply),
                ) => self.on_presented(image, reply),
                _ => self.refused(),
            }
        }
    }
}

/// The number of vertices of the content geometry.
pub const CONTENT_VERTEX_COUNT: u32 = 3;

/// The state a renderer starts in: the chain as created, no rebuild pending,
/// a token that is already complete, between frames.
pub open spec fn initial_state(swap_chain: SwapchainInfo, image_count: nat) -> RendererState {
    RendererState {
        swap_chain,
        image_count,
        recreate_swapchain: false,
        previous_frame_end: Some(CompletionToken::Ready),
        phase: FramePhase::Idle,
        vertex_count: CONTENT_VERTEX_COUNT,
        wait_after_present: true,
        render_pass: render_pass_for(swap_chain.image_format),
    }
}

/// The scheduler of a renderer that composes a content layer and an overlay
/// onto the images of a swapchain, one frame at a time.
pub struct SimpleGuiRenderer {
    swap_chain: SwapchainInfo,
    image_count: usize,
    recreate_swapchain: bool,
    previous_frame_end: Option<CompletionToken>,
    phase: FramePhase,
    vertex_count: u32,
    wait_after_present: bool,
    render_pass: RenderPassDesc,
}

impl View for SimpleGuiRenderer {
    type V = RendererState;

    closed spec fn view(&self) -> RendererState {
        RendererState {
            swap_chain: self.swap_chain,
            image_count: self.image_count as nat,
            recreate_swapchain: self.recreate_swapchain,
            previous_frame_end: self.previous_frame_end,
            phase: self.phase,
            vertex_count: self.vertex_count,
            wait_after_present: self.wait_after_present,
            render_pass: self.render_pass,
        }
    }
}

impl SimpleGuiRenderer {
    #[verifier::type_invariant]
    spec fn inv(self) -> bool {
        self@.wf()
    }

    /// Sets up the scheduler for a chain on `surface` whose images measure
    /// `inner_size`, the inner size of the window in physical pixels, and of
    /// which the platform made `image_count`. The chain presents first in,
    /// first out. A surface that cannot carry such a chain, and a chain
    /// without an image, are fatal: the caller ends the program on them and
    /// does not call; `SurfaceCapabilities::can_create` tells of the first.
    pub fn new(inner_size: [u32; 2], surface: &SurfaceCapabilities, image_count: usize) -> (made:
        SimpleGuiRenderer)
        requires
            surface.spec_can_create(PresentMode::Fifo),
            image_count > 0,
        ensures
            made@ == initial_state(
                surface.chain(
                    Extent { width: inner_size[0], height: inner_size[1] },
                    PresentMode::Fifo,
                ),
                image_count as nat,
            ),
            made@.wf(),
    {
        let extent = Extent::new(inner_size[0], inner_size[1]);
        let swap_chain = create_swap_chain(surface, extent, PresentMode::Fifo);
        SimpleGuiRenderer {
            swap_chain,
            image_count,
            recreate_swapchain: false,
            previous_frame_end: Some(CompletionToken::Ready),
            phase: FramePhase::Idle,
            vertex_count: CONTENT_VERTEX_COUNT,
            wait_after_present: true,
            render_pass: create_render_pass(swap_chain.image_format),
        }
    }

    /// Notes that the surface changed size or scale: the chain is rebuilt
    /// before the next image is acquired.
    pub fn resize(&mut self)
        ensures
            final(self)@ == (RendererState { recreate_swapchain: true, ..old(self)@ }),
            final(self)@.wf(),
    {
        proof {
            use_type_invariant(&*self);
        }
        self.recreate_swapchain = true;
    }

    /// The subpass that the overlay draws in.
    pub fn gui_pass(&self) -> (subpass: u32)
        ensures
            subpass == OVERLAY_SUBPASS,
            self@.render_pass.subpass(OVERLAY_SUBPASS) == Some(subpass),
    {
        proof {
            use_type_invariant(self);
        }
        self.render_pass.subpass(OVERLAY_SUBPASS).unwrap()
    }

    /// The description of the chain that stands.
    pub fn swap_chain(&self) -> (info: SwapchainInfo)
        ensures
            info == self@.swap_chain,
            self@.wf(),
    {
        proof {
            use_type_invariant(self);
        }
        self.swap_chain
    }

    /// The number of images of the chain that stands.
    pub fn image_count(&self) -> (count: usize)
        ensures
            count == self@.image_count,
            self@.wf(),
    {
        proof {
            use_type_invariant(self);
        }
        self.image_count
    }

    /// Whether the chain is rebuilt before the next image is acquired.
    pub fn needs_recreate(&self) -> (pending: bool)
        ensures
            pending == self@.recreate_swapchain,
    {
        self.recreate_swapchain
    }

    /// The token that the next frame joins; `None` while a frame that joined
    /// it is with the queue.
    pub fn previous_frame_end(&self) -> (token: Option<CompletionToken>)
        ensures
            token == self@.previous_frame_end,
            self@.wf(),
    {
        proof {
            use_type_invariant(self);
        }
        self.previous_frame_end
    }

    /// Where the scheduler stands within the frame.
    pub fn phase(&self) -> (phase: FramePhase)
        ensures
            phase == self@.phase,
            self@.wf(),
    {
        proof {
            use_type_invariant(self);
        }
        self.phase
    }

    /// The render pass that every frame is recorded in.
    pub fn render_pass(&self) -> (render_pass: RenderPassDesc)
        ensures
            render_pass == self@.render_pass,
            render_pass == render_pass_for(self@.swap_chain.image_format),
    {
        proof {
            use_type_invariant(self);
        }
        self.render_pass
    }

    /// Whether the caller blocks on each frame's token right after
    /// presenting it.
    pub fn waits_after_present(&self) -> (wait: bool)
        ensures
            wait == self@.wait_after_present,
    {
        self.wait_after_present
    }

    /// Sets whether the caller is to block on each frame's token right after
    /// presenting it. Without the wait, the next frame's join is all that
    /// orders two frames.
    pub fn set_wait_after_present(&mut self, wait: bool)
        ensures
            final(self)@ == (RendererState { wait_after_present: wait, ..old(self)@ }),
            final(self)@.wf(),
    {
        proof {
            use_type_invariant(&*self);
        }
        self.wait_after_present = wait;
    }

    /// Whether the scheduler takes `event`: it reports no fatal condition,
    /// and an image that it reports belongs to the chain. The caller asks
    /// before every step and ends the program where the answer is no.
    pub fn admits(&self, event: FrameEvent) -> (admitted: bool)
        ensures
            admitted == self@.admits(event),
    {
        if event.is_fatal() {
            return false;
        }
        match event {
            FrameEvent::Acquired(AcquireReply::Ready { image, .. }) => image < self.image_count,
            _ => true,
        }
    }

    /// Takes one step of a frame that composes the content layer and the
    /// overlay: `event` is what the platform reported of the step asked for
    /// last, the result is what to do next. An event that answers nothing
    /// asked for is refused and changes nothing. A fatal event is not taken:
    /// the program ends on it.
    pub fn render(&mut self, event: FrameEvent) -> (next: Result<FrameAction, RenderError>)
        requires
            old(self)@.admits(event),
        ensures
            old(self)@.wf(),
            final(self)@.wf(),
            old(self)@.step(event, FrameLayers::ContentAndOverlay) == (Step {
                state: final(self)@,
                output: next,
            }),
    {
        self.step(event, FrameLayers::ContentAndOverlay)
    }

    /// Takes one step of a frame made of `layers`.
    pub fn step(&mut self, event: FrameEvent, layers: FrameLayers) -> (next: Result<
        FrameAction,
        RenderError,
    >)
        requires
            old(self)@.admits(event),
        ensures
            old(self)@.wf(),
            final(self)@.wf(),
            old(self)@.step(event, layers) == (Step { state: final(self)@, output: next }),
    {
        proof {
            use_type_invariant(&*self);
        }
        match (self.phase, event) {
            (FramePhase::Idle, FrameEvent::RedrawRequested { surface_extent }) => {
                if self.recreate_swapchain {
                    self.phase = FramePhase::NeedsRecreate;
                    Ok(FrameAction::RecreateSwapchain(self.swap_chain.with_extent(surface_extent)))
                } else {
                    self.phase = FramePhase::Acquiring;
                    Ok(FrameAction::AcquireImage)
                }
            },
            (
                FramePhase::NeedsRecreate,
                FrameEvent::Recreated(RecreateReply::Rebuilt { image_count, image_extent }),
            ) => {
                self.recreate_swapchain(image_count, image_extent);
                Ok(FrameAction::AcquireImage)
            },
            (
                FramePhase::NeedsRecreate,
                FrameEvent::Recreated(RecreateReply::ExtentNotSupported),
            ) => {
                self.phase = FramePhase::Acquiring;
                Ok(FrameAction::AcquireImage)
            },
            (
                FramePhase::Acquiring,
                FrameEvent::Acquired(AcquireReply::Ready { image, suboptimal }),
            ) => { Ok(self.acquired(image, suboptimal, layers)) },
            (FramePhase::Acquiring, FrameEvent::Acquired(AcquireReply::OutOfDate)) => {
                self.recreate_swapchain = true;
                self.phase = FramePhase::Idle;
                Ok(FrameAction::Skipped)
            },
            (FramePhase::Recording { image }, FrameEvent::Recorded { built: true }) => {
                let after = self.take_token(image);
                Ok(FrameAction::Submit { image, after })
            },
            (FramePhase::Submitting { image }, FrameEvent::Submitted { accepted: true }) => {
                self.phase = FramePhase::Presenting { image };
                Ok(FrameAction::Present { image })
            },
            (FramePhase::Presenting { image }, FrameEvent::Presented(reply)) => {
                Ok(self.finish(reply, image))
            },
            _ => Err(RenderError::UnexpectedEvent),
        }
    }

    /// Hands out the kept token to the frame on `image`, which joins it and
    /// goes to the queue.
    fn take_token(&mut self, image: usize) -> (after: CompletionToken)
        requires
            old(self).previous_frame_end is Some,
            !old(self).phase.in_submission(),
            image < old(self).image_count,
        ensures
            Some(after) == old(self)@.previous_frame_end,
            final(self)@ == (RendererState {
                phase: FramePhase::Submitting { image },
                previous_frame_end: None,
                ..old(self)@
            }),
    {
        proof {
            use_type_invariant(&*self);
        }
        let after = self.previous_frame_end.unwrap();
        *self = SimpleGuiRenderer {
            swap_chain: self.swap_chain,
            image_count: self.image_count,
            recreate_swapchain: self.recreate_swapchain,
            previous_frame_end: None,
            phase: FramePhase::Submitting { image },
            vertex_count: self.vertex_count,
            wait_after_present: self.wait_after_present,
            render_pass: self.render_pass,
        };
        after
    }

    /// Takes in the chain that was rebuilt: it replaces the old one and
    /// clears the pending rebuild.
    fn recreate_swapchain(&mut self, image_count: usize, image_extent: Extent)
        requires
            old(self).phase is NeedsRecreate,
        ensures
            old(self)@.on_recreated(RecreateReply::Rebuilt { image_count, image_extent }).state
                == final(self)@,
    {
        proof {
            use_type_invariant(&*self);
        }
        *self = SimpleGuiRenderer {
            swap_chain: self.swap_chain.with_extent(image_extent),
            image_count,
            recreate_swapchain: false,
            previous_frame_end: self.previous_frame_end,
            phase: FramePhase::Acquiring,
            vertex_count: self.vertex_count,
            wait_after_present: self.wait_after_present,
            render_pass: self.render_pass,
        };
    }

    /// Takes in the image that was acquired and plans the frame on it.
    fn acquired(&mut self, image: usize, suboptimal: bool, layers: FrameLayers) -> (next:
        FrameAction)
        requires
            old(self).phase is Acquiring,
            image < old(self).image_count,
        ensures
            old(self)@.on_acquired(AcquireReply::Ready { image, suboptimal }, layers) == (Step {
                state: final(self)@,
                output: Ok::<FrameAction, RenderError>(next),
            }),
    {
        proof {
            use_type_invariant(&*self);
        }
        let plan = FramePlan {
            image,
            extent: self.swap_chain.image_extent,
            vertex_count: self.vertex_count,
        };
        if suboptimal {
            self.recreate_swapchain = true;
        }
        match layers {
            FrameLayers::ContentAndOverlay => {
                self.phase = FramePhase::Recording { image };
                FrameAction::Record(plan)
            },
            FrameLayers::OverlayOnly => {
                let after = self.take_token(image);
                FrameAction::DrawOverlay { image, after }
            },
        }
    }

    /// Takes in how the presentation of `image` ended and settles which
    /// token the next frame joins.
    fn finish(&mut self, reply: PresentReply, image: usize) -> (next: FrameAction)
        requires
            old(self).phase == (FramePhase::Presenting { image }),
        ensures
            old(self)@.on_presented(image, reply) == (Step {
                state: final(self)@,
                output: Ok::<FrameAction, RenderError>(next),
            }),
    {
        proof {
            use_type_invariant(&*self);
        }
        let (token, stale, next) = match reply {
            PresentReply::Flushed => {
                let token = CompletionToken::Frame { image };
                (token, false, FrameAction::Finished { token, wait: self.wait_after_present })
            },
            PresentReply::OutOfDate => (
                CompletionToken::Ready,
                true,
                FrameAction::Dropped { stale: true },
            ),
            PresentReply::Failed => (
                CompletionToken::Ready,
                false,
                FrameAction::Dropped { stale: false },
            ),
        };
        *self = SimpleGuiRenderer {
            swap_chain: self.swap_chain,
            image_count: self.image_count,
            recreate_swapchain: self.recreate_swapchain || stale,
            previous_frame_end: Some(token),
            phase: FramePhase::Idle,
            vertex_count: self.vertex_count,
            wait_after_present: self.wait_after_present,
            render_pass: self.render_pass,
        };
        next
    }
}

} // verus!
