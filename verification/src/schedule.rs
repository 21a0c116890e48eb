//! What holds of the scheduler over whole sequences of events.

use vstd::prelude::*;
use crate::frame::AcquireReply;
use crate::frame::FrameAction;
use crate::frame::FrameEvent;
use crate::frame::FramePhase;
use crate::frame::PresentReply;
use crate::frame::RecreateReply;
use crate::frame::RenderError;
use crate::renderer::FrameLayers;
use crate::renderer::RendererState;
use crate::swapchain::Extent;

verus! {

/// The state that the scheduler reaches from `start` by taking `events` in
/// order, each as a step of a frame made of `layers`. An event that the
/// scheduler does not admit at its turn is not taken.
pub open spec fn run(start: RendererState, events: Seq<FrameEvent>, layers: FrameLayers)
    -> RendererState
    decreases events.len(),
{
    if events.len() == 0 {
        start
    } else {
        run(start, events.drop_last(), layers).step(events.last(), layers).state
    }
}

/// What the scheduler answers to each of `events` on that way.
pub open spec fn answers(start: RendererState, events: Seq<FrameEvent>, layers: FrameLayers) -> Seq<
    Result<FrameAction, RenderError>,
>
    decreases events.len(),
{
    if events.len() == 0 {
        Seq::empty()
    } else {
        answers(start, events.drop_last(), layers).push(
            run(start, events.drop_last(), layers).step(events.last(), layers).output,
        )
    }
}

/// Whether an answer hands a frame's work to the queue.
pub open spec fn is_submission(answer: Result<FrameAction, RenderError>) -> bool {
    answer is Ok && answer->Ok_0.submits()
}

/// The number of answers that hand a frame's work to the queue.
pub open spec fn submissions(answers: Seq<Result<FrameAction, RenderError>>) -> nat
    decreases answers.len(),
{
    if answers.len() == 0 {
        0
    } else {
        submissions(answers.drop_last()) + if is_submission(answers.last()) {
            1nat
        } else {
            0nat
        }
    }
}

/// Whether an event reports a presentable image.
pub open spec fn is_image(event: FrameEvent) -> bool {
    event matches FrameEvent::Acquired(reply) && reply is Ready
}

/// The number of events that report a presentable image.
pub open spec fn images_acquired(events: Seq<FrameEvent>) -> nat
    decreases events.len(),
{
    if events.len() == 0 {
        0
    } else {
        images_acquired(events.drop_last()) + if is_image(events.last()) {
            1nat
        } else {
            0nat
        }
    }
}

/// The number of events that report the end of a presentation.
pub open spec fn presentations(events: Seq<FrameEvent>) -> nat
    decreases events.len(),
{
    if events.len() == 0 {
        0
    } else {
        presentations(events.drop_last()) + if events.last() is Presented {
            1nat
        } else {
            0nat
        }
    }
}

/// Whether the scheduler can pass from `from` to `to` in one step: a frame
/// goes from idle through acquiring, recording, submitting and presenting
/// back to idle, on one image throughout; a pending rebuild comes before
/// acquiring; acquiring may abandon the frame; and a frame without a content
/// layer skips recording.
pub open spec fn may_follow(from: FramePhase, to: FramePhase) -> bool {
    match from {
        FramePhase::Idle => to is NeedsRecreate || to is Acquiring,
        FramePhase::NeedsRecreate => to is Acquiring,
        FramePhase::Acquiring => to is Recording || to is Submitting || to is Idle,
        FramePhase::Recording { image } => to == (FramePhase::Submitting { image }),
        FramePhase::Submitting { image } => to == (FramePhase::Presenting { image }),
        FramePhase::Presenting { .. } => to is Idle,
    }
}

/// An event that answers what was asked for moves the scheduler along the
/// order of the phases and is answered by an action; any other event is
/// refused and leaves the state as it was. The platform is asked to rebuild
/// only while a rebuild is pending.
pub proof fn lemma_phases_follow_in_order(
    state: RendererState,
    event: FrameEvent,
    layers: FrameLayers,
)
    requires
        state.wf(),
        state.admits(event),
    ensures
        state.expects(event) ==> may_follow(state.phase, state.step(event, layers).state.phase)
            && state.step(event, layers).output is Ok,
        !state.expects(event) ==> state.step(event, layers) == state.refused(),
        state.step(event, layers).output matches Ok(FrameAction::RecreateSwapchain(_))
            ==> state.recreate_swapchain,
{
}

/// A step leads from a consistent state to a consistent state.
pub proof fn lemma_step_keeps_consistency(
    state: RendererState,
    event: FrameEvent,
    layers: FrameLayers,
)
    requires
        state.wf(),
    ensures
        state.step(event, layers).state.wf(),
        state.step(event, layers).state.live_tokens() <= 1,
{
}

/// Whatever the platform reports and in whatever order, at most one
/// completion token is alive after every event: the scheduler never keeps a
/// token for the next frame while a frame that joined one is still with the
/// queue.
pub proof fn lemma_one_token_in_flight(
    start: RendererState,
    events: Seq<FrameEvent>,
    layers: FrameLayers,
)
    requires
        start.wf(),
    ensures
        run(start, events, layers).wf(),
        forall|n: int|
            0 <= n <= events.len() ==> (#[trigger] run(
                start,
                events.subrange(0, n),
                layers,
            )).live_tokens() <= 1,
    decreases events.len(),
{
    if events.len() == 0 {
        assert forall|n: int| 0 <= n <= events.len() implies (#[trigger] run(
            start,
            events.subrange(0, n),
            layers,
        )).live_tokens() <= 1 by {
            assert(events.subrange(0, n) =~= events);
        }
    } else {
        let before = events.drop_last();
        lemma_one_token_in_flight(start, before, layers);
        lemma_step_keeps_consistency(run(start, before, layers), events.last(), layers);
        assert forall|n: int| 0 <= n <= events.len() implies (#[trigger] run(
            start,
            events.subrange(0, n),
            layers,
        )).live_tokens() <= 1 by {
            if n == events.len() {
                assert(events.subrange(0, n) =~= events);
            } else {
                assert(events.subrange(0, n) =~= before.subrange(0, n));
            }
        }
    }
}

/// A step that hands a frame to the queue takes the kept token with it: the
/// frame waits on exactly the token that the frame before it left, and no
/// token is kept until that frame's presentation has ended.
pub proof fn lemma_submission_joins_kept_token(
    state: RendererState,
    event: FrameEvent,
    layers: FrameLayers,
)
    requires
        state.wf(),
        is_submission(state.step(event, layers).output),
    ensures
        !state.phase.in_submission(),
        state.previous_frame_end is Some,
        match state.step(event, layers).output->Ok_0 {
            FrameAction::Submit { image, after } => {
                &&& state.previous_frame_end == Some(after)
                &&& state.step(event, layers).state.phase == (FramePhase::Submitting { image })
            },
            FrameAction::DrawOverlay { image, after } => {
                &&& state.previous_frame_end == Some(after)
                &&& state.step(event, layers).state.phase == (FramePhase::Submitting { image })
            },
            _ => false,
        },
        state.step(event, layers).state.previous_frame_end is None,
{
}

/// Between two submissions a presentation ends: starting with no frame at
/// the queue, the scheduler hands over at most one frame more than
/// presentations have ended.
pub proof fn lemma_frames_do_not_overlap(
    start: RendererState,
    events: Seq<FrameEvent>,
    layers: FrameLayers,
)
    requires
        start.wf(),
        !start.phase.in_submission(),
    ensures
        submissions(answers(start, events, layers)) <= presentations(events) + 1,
        !run(start, events, layers).phase.in_submission() ==> submissions(
            answers(start, events, layers),
        ) <= presentations(events),
    decreases events.len(),
{
    if events.len() > 0 {
        let before = events.drop_last();
        lemma_frames_do_not_overlap(start, before, layers);
        lemma_one_token_in_flight(start, before, layers);
        assert(answers(start, events, layers).drop_last() =~= answers(start, before, layers));
    }
}

/// No frame reaches the queue without an image: the scheduler hands over at
/// most as many frames as images were reported, so that a cycle whose
/// acquisition is answered by a stale chain submits nothing.
pub proof fn lemma_submissions_need_images(
    start: RendererState,
    events: Seq<FrameEvent>,
    layers: FrameLayers,
)
    requires
        start.wf(),
        !(start.phase is Recording),
    ensures
        submissions(answers(start, events, layers)) + (if run(
            start,
            events,
            layers,
        ).phase is Recording {
            1nat
        } else {
            0nat
        }) <= images_acquired(events),
    decreases events.len(),
{
    if events.len() > 0 {
        let before = events.drop_last();
        lemma_submissions_need_images(start, before, layers);
        assert(answers(start, events, layers).drop_last() =~= answers(start, before, layers));
    }
}

/// A stale chain reported on acquisition abandons the frame: nothing is
/// recorded or submitted, the kept token stays, a rebuild is pending, and
/// the scheduler is between frames again.
pub proof fn lemma_stale_acquire_abandons_frame(state: RendererState, layers: FrameLayers)
    requires
        state.wf(),
        state.phase is Acquiring,
    ensures
        state.step(FrameEvent::Acquired(AcquireReply::OutOfDate), layers).output == Ok::<
            FrameAction,
            RenderError,
        >(FrameAction::Skipped),
        !is_submission(state.step(FrameEvent::Acquired(AcquireReply::OutOfDate), layers).output),
        state.step(FrameEvent::Acquired(AcquireReply::OutOfDate), layers).state == (RendererState {
            recreate_swapchain: true,
            phase: FramePhase::Idle,
            ..state
        }),
{
}

/// A rebuild changes the extent of the chain and nothing else of its
/// description: image count, format, colour space, composite alpha and
/// presentation mode stay as they were, and so does the render pass. The chain then holds as
/// many images as the platform reports of it.
pub proof fn lemma_rebuild_changes_extent_alone(
    state: RendererState,
    image_count: usize,
    image_extent: Extent,
    layers: FrameLayers,
)
    requires
        state.wf(),
        state.phase is NeedsRecreate,
    ensures
        ({
            let rebuilt = state.step(
                FrameEvent::Recreated(RecreateReply::Rebuilt { image_count, image_extent }),
                layers,
            ).state;
            &&& rebuilt.swap_chain.min_image_count == state.swap_chain.min_image_count
            &&& rebuilt.swap_chain.image_format == state.swap_chain.image_format
            &&& rebuilt.swap_chain.image_color_space == state.swap_chain.image_color_space
            &&& rebuilt.swap_chain.composite_alpha == state.swap_chain.composite_alpha
            &&& rebuilt.swap_chain.present_mode == state.swap_chain.present_mode
            &&& rebuilt.swap_chain.image_extent == image_extent
            &&& rebuilt.image_count == image_count
            &&& !rebuilt.recreate_swapchain
            &&& rebuilt.previous_frame_end == state.previous_frame_end
            &&& rebuilt.render_pass == state.render_pass
            &&& rebuilt.wf()
        }),
{
}

/// Over any sequence of events the chain keeps the image count, format,
/// colour space, composite alpha and presentation mode it was created with:
/// it differs
/// from the one it started with in extent at most.
pub proof fn lemma_chain_keeps_its_description(
    start: RendererState,
    events: Seq<FrameEvent>,
    layers: FrameLayers,
)
    ensures
        run(start, events, layers).swap_chain == start.swap_chain.with_extent(
            run(start, events, layers).swap_chain.image_extent,
        ),
        run(start, events, layers).vertex_count == start.vertex_count,
        run(start, events, layers).wait_after_present == start.wait_after_present,
    decreases events.len(),
{
    if events.len() > 0 {
        lemma_chain_keeps_its_description(start, events.drop_last(), layers);
    }
}

/// An extent that the platform does not support leaves the chain, its
/// images and the kept token as they were and the rebuild pending; the
/// frame goes on to acquire from the chain that stands, and the next redraw
/// asks for the rebuild again.
pub proof fn lemma_unsupported_extent_keeps_chain(
    state: RendererState,
    surface_extent: Extent,
    layers: FrameLayers,
)
    requires
        state.wf(),
        state.phase is NeedsRecreate,
    ensures
        ({
            let kept = state.step(
                FrameEvent::Recreated(RecreateReply::ExtentNotSupported),
                layers,
            );
            &&& kept.output == Ok::<FrameAction, RenderError>(FrameAction::AcquireImage)
            &&& kept.state == (RendererState { phase: FramePhase::Acquiring, ..state })
            &&& kept.state.recreate_swapchain
            &&& kept.state.wf()
            &&& (RendererState { phase: FramePhase::Idle, ..kept.state }).step(
                FrameEvent::RedrawRequested { surface_extent },
                layers,
            ).output == Ok::<FrameAction, RenderError>(
                FrameAction::RecreateSwapchain(state.swap_chain.with_extent(surface_extent)),
            )
        }),
{
}

/// A presentation that fails, by a stale chain or otherwise, leaves a token
/// that is already complete for the next frame, never the failed frame's
/// own; a stale chain is marked for a rebuild as well.
pub proof fn lemma_failed_present_resets_token(
    state: RendererState,
    reply: PresentReply,
    layers: FrameLayers,
)
    requires
        state.wf(),
        state.phase is Presenting,
        !(reply is Flushed),
    ensures
        ({
            let after = state.step(FrameEvent::Presented(reply), layers);
            &&& after.state.previous_frame_end == Some(crate::frame::CompletionToken::Ready)
            &&& !after.state.previous_frame_end->Some_0.may_block()
            &&& after.state.phase is Idle
            &&& after.state.recreate_swapchain == (state.recreate_swapchain || reply is OutOfDate)
            &&& after.output == Ok::<FrameAction, RenderError>(
                FrameAction::Dropped { stale: reply is OutOfDate },
            )
        }),
{
}

} // verus!
