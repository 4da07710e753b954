//! Buttons and keys as the input handlers read them.

use vstd::prelude::*;

verus! {

/// Whether a button or a key is held down.
#[derive(Debug, Copy, Clone, Hash, PartialEq, Eq, Structural)]
pub enum ButtonState {
    Up,
    Down,
}

/// A button of the pointing device.
#[derive(Debug, Copy, Clone, Hash, PartialEq, Eq, Structural)]
pub enum MouseButton {
    Left,
    Middle,
    Right,
    Side,
    Extra,
}

/// The symbol that a key produces. Keys that the engine gives no meaning to
/// are `Other`, with their code.
#[derive(Debug, Copy, Clone, Hash, PartialEq, Eq, Structural)]
pub enum Keysym {
    H,
    M,
    V,
    Other(u32),
}

/// A key of the keyboard.
#[derive(Debug, Copy, Clone, Hash, PartialEq, Eq, Structural)]
pub struct Key {
    pub code: u32,
    pub sym: Option<Keysym>,
}

impl ButtonState {
    pub open spec fn down(self) -> bool {
        self == ButtonState::Down
    }

    pub fn is_down(&self) -> (b: bool)
        ensures
            b == self.down(),
    {
        match self {
            ButtonState::Down => true,
            ButtonState::Up => false,
        }
    }

    pub fn is_up(&self) -> (b: bool)
        ensures
            b == !self.down(),
    {
        match self {
            ButtonState::Down => false,
            ButtonState::Up => true,
        }
    }
}

} // verus!
