use r_liv::frame::AcquireReply;
use r_liv::frame::CompletionToken;
use r_liv::frame::FrameAction;
use r_liv::frame::FrameEvent;
use r_liv::frame::FramePhase;
use r_liv::frame::PresentReply;
use r_liv::frame::RecreateReply;
use r_liv::frame::RenderError;
use r_liv::recorder::record;
use r_liv::recorder::FramePlan;
use r_liv::recorder::RenderCommand;
use r_liv::renderer::FrameLayers;
use r_liv::renderer::SimpleGuiRenderer;
use r_liv::renderer::CONTENT_VERTEX_COUNT;
use r_liv::swapchain::CompositeAlpha;
use r_liv::swapchain::Extent;
use r_liv::swapchain::PresentMode;
use r_liv::swapchain::SupportedCompositeAlpha;
use r_liv::swapchain::SurfaceCapabilities;
use r_liv::swapchain::SwapchainInfo;
use r_liv::topology::create_render_pass;
use r_liv::ui::draw;
use r_liv::window::handle_event;
use r_liv::window::Key;
use r_liv::window::Reaction;
use r_liv::window::WindowEvent;

fn surface() -> SurfaceCapabilities {
    SurfaceCapabilities {
        min_image_count: 2,
        formats: vec![50, 44],
        supported_composite_alpha: SupportedCompositeAlpha {
            opaque: true,
            pre_multiplied: false,
            post_multiplied: false,
            inherit: true,
        },
        present_modes: vec![PresentMode::Fifo, PresentMode::Immediate],
    }
}

fn renderer() -> SimpleGuiRenderer {
    SimpleGuiRenderer::new([1280, 720], &surface(), 2)
}

fn redraw(width: u32, height: u32) -> FrameEvent {
    FrameEvent::RedrawRequested { surface_extent: Extent::new(width, height) }
}

fn ready(image: usize) -> FrameEvent {
    FrameEvent::Acquired(AcquireReply::Ready { image, suboptimal: false })
}

fn is_submission(answer: &Result<FrameAction, RenderError>) -> bool {
    matches!(
        answer,
        Ok(FrameAction::Submit { .. }) | Ok(FrameAction::DrawOverlay { .. })
    )
}

fn live_tokens(renderer: &SimpleGuiRenderer) -> usize {
    let kept = if renderer.previous_frame_end().is_some() { 1 } else { 0 };
    let joined = match renderer.phase() {
        FramePhase::Submitting { .. } | FramePhase::Presenting { .. } => 1,
        _ => 0,
    };
    kept + joined
}

/// Drives one whole frame on `image` and returns the last answer.
fn whole_frame(
    renderer: &mut SimpleGuiRenderer,
    image: usize,
    present: PresentReply,
) -> Result<FrameAction, RenderError> {
    assert_eq!(renderer.render(redraw(1280, 720)), Ok(FrameAction::AcquireImage));
    assert!(matches!(renderer.render(ready(image)), Ok(FrameAction::Record(_))));
    assert!(matches!(
        renderer.render(FrameEvent::Recorded { built: true }),
        Ok(FrameAction::Submit { .. })
    ));
    assert_eq!(
        renderer.render(FrameEvent::Submitted { accepted: true }),
        Ok(FrameAction::Present { image })
    );
    renderer.render(FrameEvent::Presented(present))
}

#[test]
fn new_renderer_is_idle_with_a_complete_token() {
    let renderer = renderer();
    assert_eq!(renderer.phase(), FramePhase::Idle);
    assert_eq!(renderer.previous_frame_end(), Some(CompletionToken::Ready));
    assert!(!renderer.needs_recreate());
    assert!(renderer.waits_after_present());
    assert_eq!(renderer.image_count(), 2);
    assert_eq!(
        renderer.swap_chain(),
        SwapchainInfo {
            min_image_count: 2,
            image_format: 50,
            image_color_space: 0,
            image_extent: Extent { width: 1280, height: 720 },
            composite_alpha: CompositeAlpha::Opaque,
            present_mode: PresentMode::Fifo,
        }
    );
    assert_eq!(renderer.render_pass(), create_render_pass(50));
    assert_eq!(renderer.gui_pass(), 1);
    assert_eq!(CONTENT_VERTEX_COUNT, 3);
}

#[test]
fn new_renderer_takes_the_inner_size_as_the_extent_of_the_chain() {
    let renderer = SimpleGuiRenderer::new([1920, 1080], &surface(), 3);
    assert_eq!(renderer.swap_chain().image_extent, Extent::new(1920, 1080));
    assert_eq!(renderer.swap_chain().present_mode, PresentMode::Fifo);
    assert_eq!(renderer.image_count(), 3);
    assert!(surface().can_create(PresentMode::Fifo));
}

#[test]
fn first_frame_at_startup_extent_is_recorded_submitted_and_presented() {
    let mut renderer = renderer();
    assert_eq!(renderer.render(redraw(1280, 720)), Ok(FrameAction::AcquireImage));
    assert_eq!(renderer.phase(), FramePhase::Acquiring);

    let plan = FramePlan {
        image: 0,
        extent: Extent { width: 1280, height: 720 },
        vertex_count: 3,
    };
    assert_eq!(renderer.render(ready(0)), Ok(FrameAction::Record(plan)));
    assert_eq!(renderer.phase(), FramePhase::Recording { image: 0 });

    let commands = record(plan);
    let sections = 1 + commands
        .iter()
        .filter(|command| matches!(command, RenderCommand::NextSubpass))
        .count();
    assert_eq!(sections, 2);
    assert!(matches!(commands[1], RenderCommand::ExecuteContent { .. }));
    assert!(matches!(commands[3], RenderCommand::ExecuteOverlay { .. }));

    assert_eq!(
        renderer.render(FrameEvent::Recorded { built: true }),
        Ok(FrameAction::Submit { image: 0, after: CompletionToken::Ready })
    );
    assert_eq!(renderer.phase(), FramePhase::Submitting { image: 0 });
    assert_eq!(renderer.previous_frame_end(), None);

    assert_eq!(
        renderer.render(FrameEvent::Submitted { accepted: true }),
        Ok(FrameAction::Present { image: 0 })
    );
    assert_eq!(renderer.phase(), FramePhase::Presenting { image: 0 });

    assert_eq!(
        renderer.render(FrameEvent::Presented(PresentReply::Flushed)),
        Ok(FrameAction::Finished { token: CompletionToken::Frame { image: 0 }, wait: true })
    );
    assert_eq!(renderer.phase(), FramePhase::Idle);
    assert_eq!(
        renderer.previous_frame_end(),
        Some(CompletionToken::Frame { image: 0 })
    );
    assert!(!renderer.needs_recreate());
}

#[test]
fn resize_rebuilds_the_chain_before_the_next_acquire() {
    let mut renderer = renderer();
    assert_eq!(
        whole_frame(&mut renderer, 0, PresentReply::Flushed),
        Ok(FrameAction::Finished { token: CompletionToken::Frame { image: 0 }, wait: true })
    );

    assert_eq!(handle_event(&mut renderer, WindowEvent::Resized), Reaction::Continue);
    assert!(renderer.needs_recreate());

    let wanted = SwapchainInfo {
        min_image_count: 2,
        image_format: 50,
        image_color_space: 0,
        image_extent: Extent { width: 800, height: 600 },
        composite_alpha: CompositeAlpha::Opaque,
        present_mode: PresentMode::Fifo,
    };
    assert_eq!(
        renderer.render(redraw(800, 600)),
        Ok(FrameAction::RecreateSwapchain(wanted))
    );
    assert_eq!(renderer.phase(), FramePhase::NeedsRecreate);

    let rebuilt = RecreateReply::Rebuilt { image_count: 3, image_extent: Extent::new(800, 600) };
    assert_eq!(
        renderer.render(FrameEvent::Recreated(rebuilt)),
        Ok(FrameAction::AcquireImage)
    );
    assert!(!renderer.needs_recreate());
    assert_eq!(renderer.swap_chain(), wanted);
    assert_eq!(renderer.image_count(), 3);

    let plan = FramePlan {
        image: 2,
        extent: Extent { width: 800, height: 600 },
        vertex_count: 3,
    };
    assert_eq!(renderer.render(ready(2)), Ok(FrameAction::Record(plan)));
    assert_eq!(
        record(plan)[1],
        RenderCommand::ExecuteContent {
            viewport: Extent { width: 800, height: 600 },
            vertex_count: 3,
            instance_count: 1,
        }
    );
    assert_eq!(
        renderer.render(FrameEvent::Recorded { built: true }),
        Ok(FrameAction::Submit { image: 2, after: CompletionToken::Frame { image: 0 } })
    );
    assert_eq!(
        renderer.render(FrameEvent::Submitted { accepted: true }),
        Ok(FrameAction::Present { image: 2 })
    );
    assert_eq!(
        renderer.render(FrameEvent::Presented(PresentReply::Flushed)),
        Ok(FrameAction::Finished { token: CompletionToken::Frame { image: 2 }, wait: true })
    );

    // The frame after is still drawn at the new extent, without a rebuild.
    assert_eq!(renderer.render(redraw(800, 600)), Ok(FrameAction::AcquireImage));
    assert_eq!(
        renderer.render(ready(1)),
        Ok(FrameAction::Record(FramePlan {
            image: 1,
            extent: Extent { width: 800, height: 600 },
            vertex_count: 3,
        }))
    );
}

#[test]
fn two_stale_acquires_submit_nothing_and_the_third_cycle_succeeds() {
    let mut renderer = renderer();
    let mut answers = Vec::new();

    // First cycle: the chain is stale.
    answers.push(renderer.render(redraw(1000, 700)));
    assert_eq!(answers[0], Ok(FrameAction::AcquireImage));
    answers.push(renderer.render(FrameEvent::Acquired(AcquireReply::OutOfDate)));
    assert_eq!(answers[1], Ok(FrameAction::Skipped));
    assert_eq!(renderer.phase(), FramePhase::Idle);
    assert!(renderer.needs_recreate());

    // Second cycle: rebuilt, but the window has moved on and it is stale again.
    answers.push(renderer.render(redraw(900, 650)));
    assert!(matches!(answers[2], Ok(FrameAction::RecreateSwapchain(_))));
    let rebuilt = RecreateReply::Rebuilt { image_count: 2, image_extent: Extent::new(900, 650) };
    answers.push(renderer.render(FrameEvent::Recreated(rebuilt)));
    assert_eq!(answers[3], Ok(FrameAction::AcquireImage));
    answers.push(renderer.render(FrameEvent::Acquired(AcquireReply::OutOfDate)));
    assert_eq!(answers[4], Ok(FrameAction::Skipped));
    assert!(renderer.needs_recreate());

    assert_eq!(answers.iter().filter(|answer| is_submission(answer)).count(), 0);
    assert_eq!(renderer.previous_frame_end(), Some(CompletionToken::Ready));

    // Third cycle: the extent is stable.
    assert!(matches!(
        renderer.render(redraw(800, 600)),
        Ok(FrameAction::RecreateSwapchain(_))
    ));
    let rebuilt = RecreateReply::Rebuilt { image_count: 2, image_extent: Extent::new(800, 600) };
    assert_eq!(
        renderer.render(FrameEvent::Recreated(rebuilt)),
        Ok(FrameAction::AcquireImage)
    );
    assert!(matches!(renderer.render(ready(1)), Ok(FrameAction::Record(_))));
    assert_eq!(
        renderer.render(FrameEvent::Recorded { built: true }),
        Ok(FrameAction::Submit { image: 1, after: CompletionToken::Ready })
    );
    assert_eq!(
        renderer.render(FrameEvent::Submitted { accepted: true }),
        Ok(FrameAction::Present { image: 1 })
    );
    assert_eq!(
        renderer.render(FrameEvent::Presented(PresentReply::Flushed)),
        Ok(FrameAction::Finished { token: CompletionToken::Frame { image: 1 }, wait: true })
    );
    assert!(!renderer.needs_recreate());
    assert_eq!(renderer.swap_chain().image_extent, Extent::new(800, 600));
}

#[test]
fn stale_present_resets_the_token() {
    let mut renderer = renderer();
    assert_eq!(
        whole_frame(&mut renderer, 0, PresentReply::Flushed),
        Ok(FrameAction::Finished { token: CompletionToken::Frame { image: 0 }, wait: true })
    );
    assert_eq!(
        whole_frame(&mut renderer, 1, PresentReply::OutOfDate),
        Ok(FrameAction::Dropped { stale: true })
    );
    assert_eq!(renderer.previous_frame_end(), Some(CompletionToken::Ready));
    assert!(!CompletionToken::Ready.may_block());
    assert!(CompletionToken::Frame { image: 1 }.may_block());
    assert!(renderer.needs_recreate());
    assert_eq!(renderer.phase(), FramePhase::Idle);

    // The next frame joins the complete token, not the dropped frame's.
    assert!(matches!(
        renderer.render(redraw(1280, 720)),
        Ok(FrameAction::RecreateSwapchain(_))
    ));
    let rebuilt = RecreateReply::Rebuilt { image_count: 2, image_extent: Extent::new(1280, 720) };
    assert_eq!(
        renderer.render(FrameEvent::Recreated(rebuilt)),
        Ok(FrameAction::AcquireImage)
    );
    assert!(matches!(renderer.render(ready(0)), Ok(FrameAction::Record(_))));
    assert_eq!(
        renderer.render(FrameEvent::Recorded { built: true }),
        Ok(FrameAction::Submit { image: 0, after: CompletionToken::Ready })
    );
}

#[test]
fn failed_present_drops_the_frame_without_a_rebuild() {
    let mut renderer = renderer();
    assert_eq!(
        whole_frame(&mut renderer, 1, PresentReply::Failed),
        Ok(FrameAction::Dropped { stale: false })
    );
    assert_eq!(renderer.previous_frame_end(), Some(CompletionToken::Ready));
    assert!(!renderer.needs_recreate());
    assert_eq!(renderer.phase(), FramePhase::Idle);
    assert_eq!(renderer.render(redraw(1280, 720)), Ok(FrameAction::AcquireImage));
}

#[test]
fn suboptimal_image_is_used_and_the_chain_rebuilt_for_the_next_frame() {
    let mut renderer = renderer();
    assert_eq!(renderer.render(redraw(1280, 720)), Ok(FrameAction::AcquireImage));
    let event = FrameEvent::Acquired(AcquireReply::Ready { image: 1, suboptimal: true });
    assert!(matches!(renderer.render(event), Ok(FrameAction::Record(_))));
    assert!(renderer.needs_recreate());
    assert!(matches!(
        renderer.render(FrameEvent::Recorded { built: true }),
        Ok(FrameAction::Submit { image: 1, .. })
    ));
    assert!(renderer.render(FrameEvent::Submitted { accepted: true }).is_ok());
    assert!(renderer.render(FrameEvent::Presented(PresentReply::Flushed)).is_ok());
    assert!(renderer.needs_recreate());
    assert!(matches!(
        renderer.render(redraw(1024, 768)),
        Ok(FrameAction::RecreateSwapchain(info)) if info.image_extent == Extent::new(1024, 768)
    ));
}

#[test]
fn unsupported_extent_keeps_the_chain_and_retries_on_the_next_redraw() {
    let mut renderer = renderer();
    let before = renderer.swap_chain();
    renderer.resize();
    assert!(matches!(
        renderer.render(redraw(0, 0)),
        Ok(FrameAction::RecreateSwapchain(info)) if info == before.with_extent(Extent::new(0, 0))
    ));
    assert_eq!(
        renderer.render(FrameEvent::Recreated(RecreateReply::ExtentNotSupported)),
        Ok(FrameAction::AcquireImage)
    );
    assert_eq!(renderer.swap_chain(), before);
    assert_eq!(renderer.image_count(), 2);
    assert_eq!(renderer.previous_frame_end(), Some(CompletionToken::Ready));
    assert!(renderer.needs_recreate());
    assert_eq!(renderer.phase(), FramePhase::Acquiring);

    // The old chain still serves a frame.
    assert_eq!(
        renderer.render(ready(0)),
        Ok(FrameAction::Record(FramePlan {
            image: 0,
            extent: Extent { width: 1280, height: 720 },
            vertex_count: 3,
        }))
    );
    assert!(renderer.render(FrameEvent::Recorded { built: true }).is_ok());
    assert!(renderer.render(FrameEvent::Submitted { accepted: true }).is_ok());
    assert!(renderer.render(FrameEvent::Presented(PresentReply::Flushed)).is_ok());

    // Unsupported once more: nothing changes again.
    assert!(matches!(
        renderer.render(redraw(0, 0)),
        Ok(FrameAction::RecreateSwapchain(_))
    ));
    assert_eq!(
        renderer.render(FrameEvent::Recreated(RecreateReply::ExtentNotSupported)),
        Ok(FrameAction::AcquireImage)
    );
    assert_eq!(renderer.swap_chain(), before);
    assert!(renderer.needs_recreate());

    // A valid extent is taken at the next retry.
    assert_eq!(
        renderer.render(FrameEvent::Acquired(AcquireReply::OutOfDate)),
        Ok(FrameAction::Skipped)
    );
    assert!(matches!(
        renderer.render(redraw(640, 480)),
        Ok(FrameAction::RecreateSwapchain(info)) if info.image_extent == Extent::new(640, 480)
    ));
    let rebuilt = RecreateReply::Rebuilt { image_count: 2, image_extent: Extent::new(640, 480) };
    assert_eq!(
        renderer.render(FrameEvent::Recreated(rebuilt)),
        Ok(FrameAction::AcquireImage)
    );
    assert!(!renderer.needs_recreate());
    assert_eq!(renderer.swap_chain(), before.with_extent(Extent::new(640, 480)));
}

#[test]
fn rebuild_keeps_image_count_and_format_of_the_description() {
    let mut renderer = renderer();
    let created = renderer.swap_chain();
    for (width, height) in [(800u32, 600u32), (1920, 1080), (1, 1)] {
        renderer.resize();
        assert!(renderer.render(redraw(width, height)).is_ok());
        let rebuilt = RecreateReply::Rebuilt {
            image_count: 2,
            image_extent: Extent::new(width, height),
        };
        assert!(renderer.render(FrameEvent::Recreated(rebuilt)).is_ok());
        let now = renderer.swap_chain();
        assert_eq!(now.min_image_count, created.min_image_count);
        assert_eq!(now.image_format, created.image_format);
        assert_eq!(now.composite_alpha, created.composite_alpha);
        assert_eq!(now.present_mode, created.present_mode);
        assert_eq!(now.image_extent, Extent::new(width, height));
        assert_eq!(renderer.image_count(), 2);
        assert_eq!(
            renderer.render(FrameEvent::Acquired(AcquireReply::OutOfDate)),
            Ok(FrameAction::Skipped)
        );
    }
}

#[test]
fn at_most_one_token_is_alive_after_every_event() {
    let events = [
        redraw(1280, 720),
        FrameEvent::Acquired(AcquireReply::OutOfDate),
        redraw(800, 600),
        FrameEvent::Recreated(RecreateReply::ExtentNotSupported),
        ready(1),
        FrameEvent::Presented(PresentReply::Flushed),
        FrameEvent::Recorded { built: true },
        redraw(800, 600),
        FrameEvent::Submitted { accepted: true },
        FrameEvent::Presented(PresentReply::Failed),
        redraw(800, 600),
        FrameEvent::Recreated(RecreateReply::Rebuilt {
            image_count: 3,
            image_extent: Extent::new(800, 600),
        }),
        FrameEvent::Acquired(AcquireReply::Ready { image: 2, suboptimal: true }),
        FrameEvent::Recorded { built: true },
        FrameEvent::Submitted { accepted: true },
        FrameEvent::Presented(PresentReply::Flushed),
    ];
    for layers in [FrameLayers::ContentAndOverlay, FrameLayers::OverlayOnly] {
        let mut renderer = renderer();
        let mut submitted = 0;
        let mut presented = 0;
        let mut images = 0;
        assert_eq!(live_tokens(&renderer), 1);
        for event in events {
            assert!(renderer.admits(event));
            let answer = renderer.step(event, layers);
            if is_submission(&answer) {
                submitted += 1;
            }
            if matches!(event, FrameEvent::Presented(_)) {
                presented += 1;
            }
            if matches!(event, FrameEvent::Acquired(AcquireReply::Ready { .. })) {
                images += 1;
            }
            assert_eq!(live_tokens(&renderer), 1);
            assert!(submitted <= presented + 1);
            assert!(submitted <= images);
        }
        assert_eq!(submitted, 2);
    }
}

#[test]
fn submission_takes_the_kept_token() {
    let mut renderer = renderer();
    assert!(whole_frame(&mut renderer, 1, PresentReply::Flushed).is_ok());
    let kept = renderer.previous_frame_end();
    assert_eq!(kept, Some(CompletionToken::Frame { image: 1 }));
    assert!(renderer.render(redraw(1280, 720)).is_ok());
    assert!(renderer.render(ready(0)).is_ok());
    assert_eq!(renderer.previous_frame_end(), kept);
    assert_eq!(
        renderer.render(FrameEvent::Recorded { built: true }),
        Ok(FrameAction::Submit { image: 0, after: CompletionToken::Frame { image: 1 } })
    );
    assert_eq!(renderer.previous_frame_end(), None);
}

#[test]
fn fatal_events_are_not_admitted() {
    let fatal = [
        FrameEvent::Acquired(AcquireReply::Failed),
        FrameEvent::Recreated(RecreateReply::Failed),
        FrameEvent::Recorded { built: false },
        FrameEvent::Submitted { accepted: false },
    ];
    let mut renderer = renderer();
    for event in fatal {
        assert!(event.is_fatal());
        assert!(!renderer.admits(event));
    }
    assert!(renderer.render(redraw(1280, 720)).is_ok());
    for event in fatal {
        assert!(!renderer.admits(event));
    }
    assert_eq!(renderer.phase(), FramePhase::Acquiring);
}

#[test]
fn recoverable_events_are_admitted() {
    let events = [
        redraw(1280, 720),
        redraw(0, 0),
        FrameEvent::Acquired(AcquireReply::OutOfDate),
        FrameEvent::Acquired(AcquireReply::Ready { image: 1, suboptimal: true }),
        FrameEvent::Recreated(RecreateReply::ExtentNotSupported),
        FrameEvent::Recreated(RecreateReply::Rebuilt {
            image_count: 2,
            image_extent: Extent::new(800, 600),
        }),
        FrameEvent::Recorded { built: true },
        FrameEvent::Submitted { accepted: true },
        FrameEvent::Presented(PresentReply::Flushed),
        FrameEvent::Presented(PresentReply::OutOfDate),
        FrameEvent::Presented(PresentReply::Failed),
    ];
    let renderer = renderer();
    for event in events {
        assert!(!event.is_fatal());
        assert!(renderer.admits(event));
    }
}

#[test]
fn image_outside_the_chain_is_not_admitted() {
    let mut renderer = renderer();
    assert!(renderer.admits(ready(0)));
    assert!(renderer.admits(ready(1)));
    assert!(!renderer.admits(ready(2)));
    assert!(!renderer.admits(ready(usize::MAX)));

    renderer.resize();
    assert!(renderer.render(redraw(800, 600)).is_ok());
    let rebuilt = RecreateReply::Rebuilt { image_count: 3, image_extent: Extent::new(800, 600) };
    assert!(renderer.render(FrameEvent::Recreated(rebuilt)).is_ok());
    assert!(renderer.admits(ready(2)));
    assert!(!renderer.admits(ready(3)));
}

#[test]
fn unexpected_event_changes_nothing() {
    let mut renderer = renderer();
    assert_eq!(renderer.render(ready(0)), Err(RenderError::UnexpectedEvent));
    assert_eq!(
        renderer.render(FrameEvent::Presented(PresentReply::Flushed)),
        Err(RenderError::UnexpectedEvent)
    );
    assert_eq!(renderer.phase(), FramePhase::Idle);
    assert_eq!(renderer.previous_frame_end(), Some(CompletionToken::Ready));
    assert!(!renderer.needs_recreate());
    assert!(renderer.render(redraw(1280, 720)).is_ok());
    assert_eq!(renderer.render(redraw(1280, 720)), Err(RenderError::UnexpectedEvent));
    assert_eq!(renderer.phase(), FramePhase::Acquiring);
}

#[test]
fn wait_after_present_can_be_switched_off() {
    let mut renderer = renderer();
    renderer.set_wait_after_present(false);
    assert!(!renderer.waits_after_present());
    assert_eq!(
        whole_frame(&mut renderer, 0, PresentReply::Flushed),
        Ok(FrameAction::Finished { token: CompletionToken::Frame { image: 0 }, wait: false })
    );
    renderer.set_wait_after_present(true);
    assert_eq!(
        whole_frame(&mut renderer, 1, PresentReply::Flushed),
        Ok(FrameAction::Finished { token: CompletionToken::Frame { image: 1 }, wait: true })
    );
}

#[test]
fn overlay_only_frame_goes_to_the_queue_once_its_image_is_there() {
    let mut renderer = renderer();
    assert_eq!(draw(&mut renderer, redraw(1280, 720)), Ok(FrameAction::AcquireImage));
    assert_eq!(
        draw(&mut renderer, ready(1)),
        Ok(FrameAction::DrawOverlay { image: 1, after: CompletionToken::Ready })
    );
    assert_eq!(renderer.phase(), FramePhase::Submitting { image: 1 });
    assert_eq!(renderer.previous_frame_end(), None);
    assert_eq!(
        draw(&mut renderer, FrameEvent::Submitted { accepted: true }),
        Ok(FrameAction::Present { image: 1 })
    );
    assert_eq!(
        draw(&mut renderer, FrameEvent::Presented(PresentReply::Flushed)),
        Ok(FrameAction::Finished { token: CompletionToken::Frame { image: 1 }, wait: true })
    );

    renderer.resize();
    assert!(matches!(
        draw(&mut renderer, redraw(800, 600)),
        Ok(FrameAction::RecreateSwapchain(_))
    ));
    assert_eq!(
        draw(&mut renderer, FrameEvent::Recreated(RecreateReply::ExtentNotSupported)),
        Ok(FrameAction::AcquireImage)
    );
    assert_eq!(
        draw(&mut renderer, FrameEvent::Acquired(AcquireReply::OutOfDate)),
        Ok(FrameAction::Skipped)
    );
    assert_eq!(
        renderer.previous_frame_end(),
        Some(CompletionToken::Frame { image: 1 })
    );
}

#[test]
fn window_events_lead_to_their_reactions() {
    let mut renderer = renderer();
    assert_eq!(
        handle_event(&mut renderer, WindowEvent::RedrawRequested),
        Reaction::RenderFrame
    );
    assert_eq!(
        handle_event(&mut renderer, WindowEvent::MainEventsCleared),
        Reaction::RequestRedraw
    );
    assert_eq!(
        handle_event(&mut renderer, WindowEvent::KeyPressed(Key::Left)),
        Reaction::Continue
    );
    assert_eq!(
        handle_event(&mut renderer, WindowEvent::KeyPressed(Key::Other)),
        Reaction::Continue
    );
    assert_eq!(handle_event(&mut renderer, WindowEvent::Other), Reaction::Continue);
    assert!(!renderer.needs_recreate());
    assert_eq!(
        handle_event(&mut renderer, WindowEvent::ScaleFactorChanged),
        Reaction::Continue
    );
    assert!(renderer.needs_recreate());
    assert_eq!(
        handle_event(&mut renderer, WindowEvent::CloseRequested),
        Reaction::Exit
    );
    assert_eq!(
        handle_event(&mut renderer, WindowEvent::KeyPressed(Key::Escape)),
        Reaction::Exit
    );
    assert!(renderer.needs_recreate());
    assert_eq!(renderer.phase(), FramePhase::Idle);
}
