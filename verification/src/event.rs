//! Plain-value forms of the window events the coordinator and its workers
//! exchange.

use vstd::prelude::*;

verus! {

/// Identity of a native window. The windowing system gives it to one live
/// window at a time.
pub type WindowId = u64;

/// Size of a window's drawable area in physical pixels.
#[derive(Clone, Copy, Debug, PartialEq, Eq, Structural)]
pub struct PhysicalSize {
    pub width: u32,
    pub height: u32,
}

/// Whether a key went down or came up.
#[derive(Clone, Copy, Debug, PartialEq, Eq, Structural)]
pub enum ElementState {
    Pressed,
    Released,
}

/// Physical key of a keyboard event, as far as the coordinator tells keys
/// apart: the key that opens a new window, and every other key.
#[derive(Clone, Copy, Debug, PartialEq, Eq, Structural)]
pub enum KeyCode {
    KeyN,
    Other,
}

/// A window-tagged event as the windowing system delivers it.
#[derive(Clone, Copy, Debug, PartialEq, Eq, Structural)]
pub enum WindowEvent {
    /// The user asked to close the window.
    CloseRequested,
    /// A key changed state while the window had focus.
    KeyboardInput { state: ElementState, key: KeyCode },
    /// The drawable area changed to the given size.
    Resized(PhysicalSize),
    /// The window's contents must be drawn again.
    RedrawRequested,
    /// Any event the coordinator and the workers do not act on.
    Other,
}

/// What travels from the coordinator to a worker.
#[derive(Clone, Copy, Debug, PartialEq, Eq, Structural)]
pub enum ChildEvent {
    WindowEvent(WindowEvent),
}

impl WindowEvent {
    /// True for the key press that asks for a new window.
    pub open spec fn is_new_window_command(self) -> bool {
        self == (WindowEvent::KeyboardInput { state: ElementState::Pressed, key: KeyCode::KeyN })
    }
}

} // verus!
