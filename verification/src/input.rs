//! Keyboard input as the camera sees it: keys, movement commands and the
//! table that maps one to the other.

use vstd::prelude::*;

verus! {

/// The keys that the scene reacts to. Every other key is `Other`.
#[derive(Clone, Copy, Debug, PartialEq, Eq, Structural)]
pub enum Key {
    Space,
    LShift,
    W,
    A,
    S,
    D,
    Up,
    Down,
    Left,
    Right,
    Escape,
    Other,
}

/// A camera movement that a held key asks for.
#[derive(Clone, Copy, Debug, PartialEq, Eq, Structural)]
pub enum Command {
    MoveUp,
    MoveDown,
    Forward,
    Backward,
    Left,
    Right,
}

/// The movement bound to each key, `None` for a key without one.
pub open spec fn spec_command_for_key(key: Key) -> Option<Command> {
    match key {
        Key::Space => Some(Command::MoveUp),
        Key::LShift => Some(Command::MoveDown),
        Key::W | Key::Up => Some(Command::Forward),
        Key::A | Key::Left => Some(Command::Left),
        Key::S | Key::Down => Some(Command::Backward),
        Key::D | Key::Right => Some(Command::Right),
        Key::Escape | Key::Other => None,
    }
}

/// Looks a key up in the binding table.
pub fn command_for_key(key: Key) -> (cmd: Option<Command>)
    ensures
        cmd == spec_command_for_key(key),
{
    match key {
        Key::Space => Some(Command::MoveUp),
        Key::LShift => Some(Command::MoveDown),
        Key::W | Key::Up => Some(Command::Forward),
        Key::A | Key::Left => Some(Command::Left),
        Key::S | Key::Down => Some(Command::Backward),
        Key::D | Key::Right => Some(Command::Right),
        Key::Escape | Key::Other => None,
    }
}

/// Whether a key went down or came up.
#[derive(Clone, Copy, Debug, PartialEq, Eq, Structural)]
pub enum ElementState {
    Pressed,
    Released,
}

/// What the window reports, as far as the scene reads it.
#[derive(Clone, Copy, Debug, PartialEq, Eq, Structural)]
pub enum WindowEvent {
    /// The user asked to close the window.
    CloseRequested,
    /// A key changed state; `key` is `None` where the platform names none.
    KeyboardInput { state: ElementState, key: Option<Key> },
    /// The window has a new size.
    Resized { width: u32, height: u32 },
    /// The scale factor changed, and with it the size.
    ScaleFactorChanged { width: u32, height: u32 },
    /// Anything else.
    Other,
}

/// What the event loop hands over.
#[derive(Clone, Copy, Debug, PartialEq, Eq, Structural)]
pub enum Event {
    /// An event of the scene's own window.
    Window(WindowEvent),
    /// The window must be drawn again.
    RedrawRequested,
    /// All pending events were delivered.
    MainEventsCleared,
    /// Anything else, events of other windows among it.
    Other,
}

} // verus!
