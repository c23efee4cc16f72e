use vstd::prelude::*;

verus! {

/// The keyboard keys the library reacts to; every other key is `Other`.
#[derive(Clone, Copy, Debug, PartialEq, Eq, Structural)]
pub enum Key {
    W,
    A,
    S,
    D,
    Space,
    Slash,
    Tab,
    Left,
    Right,
    Up,
    Down,
    PageUp,
    PageDown,
    Home,
    End,
    Delete,
    Backspace,
    Enter,
    Escape,
    C,
    V,
    X,
    Y,
    Z,
    LeftControl,
    RightControl,
    LeftShift,
    RightShift,
    LeftAlt,
    RightAlt,
    LeftSuper,
    RightSuper,
    Other,
}

/// What happened to a key or button.
#[derive(Clone, Copy, Debug, PartialEq, Eq, Structural)]
pub enum Action {
    Release,
    Press,
    Repeat,
}

/// One input event of a frame: its source (a key or a mouse button) and action.
#[derive(Clone, Copy, Debug)]
pub struct InputEvent<T> {
    pub source: T,
    pub action: Action,
}

/// Which mouse buttons are held this frame.
#[derive(Clone, Copy, Debug, Default)]
pub struct MouseState {
    pub button1: bool,
    pub button2: bool,
    pub button3: bool,
    pub button4: bool,
    pub button5: bool,
}

/// A press or an auto-repeat: the key is held.
pub open spec fn is_held(action: Action) -> bool {
    action == Action::Press || action == Action::Repeat
}

pub fn held(action: Action) -> (r: bool)
    ensures
        r == is_held(action),
{
    action == Action::Press || action == Action::Repeat
}

} // verus!
