//! Input mapping: from discrete backend events to presentation commands.
//!
//! The presentation loop polls the backend for events and maps each one to a
//! command with the fixed key bindings of the show: Escape and Q quit, N and
//! Space advance, P and Backspace go back, F toggles fullscreen. The mapping
//! decides; performing a command — navigating, recreating the surface,
//! leaving the loop — is the loop's part.

use vstd::prelude::*;

verus! {

/// The keys the presentation distinguishes; every unbound key is `Other`.
#[derive(Clone, Copy, PartialEq, Eq, Structural, Debug)]
pub enum Key {
    Escape,
    Q,
    N,
    Space,
    P,
    Backspace,
    F,
    Other,
}

/// One discrete event the backend reports.
#[derive(Clone, Copy, PartialEq, Eq, Structural, Debug)]
pub enum InputEvent {
    /// The window was asked to close.
    Closed,
    /// A key went down.
    KeyPressed { code: Key },
    /// The surface was resized; layout follows the size fed into the next
    /// update, so the event itself carries no command.
    Resized { width: u32, height: u32 },
}

/// What the loop is to do with one event.
#[derive(Clone, Copy, PartialEq, Eq, Structural, Debug)]
pub enum Command {
    /// Leave the loop; the only normal termination.
    Quit,
    /// Advance to the next slide, saturating at the last.
    NextSlide,
    /// Go back to the previous slide, saturating at the first.
    PreviousSlide,
    /// Rebuild the surface in the other display mode.
    ToggleFullscreen,
}

/// The fixed key bindings: the command an event maps to, if any.
pub open spec fn spec_command_for(event: InputEvent) -> Option<Command> {
    match event {
        InputEvent::Closed => Some(Command::Quit),
        InputEvent::KeyPressed { code } => match code {
            Key::Escape => Some(Command::Quit),
            Key::Q => Some(Command::Quit),
            Key::N => Some(Command::NextSlide),
            Key::Space => Some(Command::NextSlide),
            Key::P => Some(Command::PreviousSlide),
            Key::Backspace => Some(Command::PreviousSlide),
            Key::F => Some(Command::ToggleFullscreen),
            Key::Other => None,
        },
        InputEvent::Resized { .. } => None,
    }
}

/// Maps one event to its command under the fixed key bindings, or to nothing
/// for an unbound event.
pub fn command_for(event: &InputEvent) -> (r: Option<Command>)
    ensures
        r == spec_command_for(*event),
{
    match event {
        InputEvent::Closed => Some(Command::Quit),
        InputEvent::KeyPressed { code } => match code {
            Key::Escape => Some(Command::Quit),
            Key::Q => Some(Command::Quit),
            Key::N => Some(Command::NextSlide),
            Key::Space => Some(Command::NextSlide),
            Key::P => Some(Command::PreviousSlide),
            Key::Backspace => Some(Command::PreviousSlide),
            Key::F => Some(Command::ToggleFullscreen),
            Key::Other => None,
        },
        InputEvent::Resized { .. } => None,
    }
}

/// The surface configuration a display-mode change rebuilds the window with.
#[derive(Clone, Copy, PartialEq, Eq, Structural, Debug)]
pub struct DisplayMode {
    /// The surface width, in pixels.
    pub width: u32,
    /// The surface height, in pixels.
    pub height: u32,
    /// Whether the surface covers the whole screen.
    pub fullscreen: bool,
}

/// Picks the surface configuration for a display mode: the desktop resolution
/// when fullscreen, the windowed resolution otherwise. Rebuilding the surface
/// never touches the fonts, images or shaders the elements borrow — those are
/// independent of the surface — but it does change the size fed into every
/// following update, which is why positions are recomputed each frame instead
/// of cached.
pub fn display_mode(fullscreen: bool, windowed: (u32, u32), desktop: (u32, u32)) -> (m:
    DisplayMode)
    ensures
        m.fullscreen == fullscreen,
        fullscreen ==> (m.width, m.height) == desktop,
        !fullscreen ==> (m.width, m.height) == windowed,
{
    if fullscreen {
        DisplayMode { width: desktop.0, height: desktop.1, fullscreen: true }
    } else {
        DisplayMode { width: windowed.0, height: windowed.1, fullscreen: false }
    }
}

} // verus!
