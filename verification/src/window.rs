//! The window around the renderer: its title, and what its events lead to.

use vstd::prelude::*;
use vstd::string::StringExecFns;
use crate::renderer::RendererState;
use crate::renderer::SimpleGuiRenderer;
use crate::utils::file_stem_of;
use crate::utils::get_file_stem;

verus! {

/// The size of the window at startup, in logical pixels.
pub const WINDOW_WIDTH: u32 = 1280;

/// The size of the window at startup, in logical pixels.
pub const WINDOW_HEIGHT: u32 = 720;

/// A key of the keyboard, as far as the window reacts to it.
#[derive(Clone, Copy, Debug, PartialEq, Eq, Structural)]
pub enum Key {
    Escape,
    Left,
    Other,
}

/// An event of the window, as far as the window reacts to it.
#[derive(Clone, Copy, Debug, PartialEq, Eq, Structural)]
pub enum WindowEvent {
    /// The window was asked to draw itself.
    RedrawRequested,
    /// The client area changed size.
    Resized,
    /// The scale factor of the window changed.
    ScaleFactorChanged,
    /// The user asked to close the window.
    CloseRequested,
    /// A key went down.
    KeyPressed(Key),
    /// All pending events have been handled.
    MainEventsCleared,
    /// Anything else.
    Other,
}

/// What the event loop does after an event.
#[derive(Clone, Copy, Debug, PartialEq, Eq, Structural)]
pub enum Reaction {
    /// Go on with the next event.
    Continue,
    /// Drive one frame through the scheduler.
    RenderFrame,
    /// Ask the window for a redraw.
    RequestRedraw,
    /// Leave the loop.
    Exit,
}

/// What `event` leads to: a redraw request renders a frame, a closed window
/// and the escape key end the loop, a drained event queue asks for the next
/// redraw, anything else goes on.
pub open spec fn reaction_to(event: WindowEvent) -> Reaction {
    match event {
        WindowEvent::RedrawRequested => Reaction::RenderFrame,
        WindowEvent::CloseRequested => Reaction::Exit,
        WindowEvent::KeyPressed(Key::Escape) => Reaction::Exit,
        WindowEvent::MainEventsCleared => Reaction::RequestRedraw,
        _ => Reaction::Continue,
    }
}

/// Whether `event` changes the geometry of the surface.
pub open spec fn changes_geometry(event: WindowEvent) -> bool {
    event is Resized || event is ScaleFactorChanged
}

/// Takes in an event of the window: a change of size or scale marks the
/// chain of `renderer` for a rebuild, and the result tells the event loop how
/// to go on.
pub fn handle_event(renderer: &mut SimpleGuiRenderer, event: WindowEvent) -> (reaction: Reaction)
    ensures
        reaction == reaction_to(event),
        final(renderer)@ == (RendererState {
            recreate_swapchain: old(renderer)@.recreate_swapchain || changes_geometry(event),
            ..old(renderer)@
        }),
{
    match event {
        WindowEvent::RedrawRequested => Reaction::RenderFrame,
        WindowEvent::Resized => {
            renderer.resize();
            Reaction::Continue
        },
        WindowEvent::ScaleFactorChanged => {
            renderer.resize();
            Reaction::Continue
        },
        WindowEvent::CloseRequested => Reaction::Exit,
        WindowEvent::KeyPressed(key) => match key {
            Key::Escape => Reaction::Exit,
            _ => Reaction::Continue,
        },
        WindowEvent::MainEventsCleared => Reaction::RequestRedraw,
        WindowEvent::Other => Reaction::Continue,
    }
}

/// The title of the window that shows the file at `filename`: the viewer's
/// name, a bar, and the stem of the file's name.
pub fn window_title(filename: &str) -> (title: String)
    ensures
        title@ == "R-Liv | "@ + file_stem_of(filename@),
{
    let stem = get_file_stem(filename);
    String::from_str("R-Liv | ").concat(stem.as_str())
}

} // verus!
