//! The events of the window, and who handles which.

use vstd::prelude::*;
use crate::device::{ButtonState, Key, Keysym, MouseButton};
use crate::math::{Extent2, Vec2};
use crate::mouse_cursor::MouseCursor;
use crate::viewport::{ViewportDB, ViewportInputHandler};

verus! {

/// Something that happened to the window. Pointer positions are in whole
/// pixels from the top-left corner of the canvas.
#[derive(Debug, Copy, Clone, PartialEq, Eq, Structural)]
pub enum Event {
    Quit,
    MouseEnter,
    MouseLeave,
    KeyboardFocusGained,
    KeyboardFocusLost,
    MouseMotion(u32, u32),
    MouseMotionRaw(i32, i32),
    MouseScroll(i32, i32),
    MouseScrollRaw(i32, i32),
    MouseButtonPressed(MouseButton),
    MouseButtonReleased(MouseButton),
    MouseButtonPressedRaw(MouseButton),
    MouseButtonReleasedRaw(MouseButton),
    CanvasResized(u32, u32),
    KeyboardKeyPressed(Key),
    KeyboardKeyReleased(Key),
    KeyboardKeyPressedRaw(Key),
    KeyboardKeyReleasedRaw(Key),
    KeyboardTextChar(char),
}

impl Event {
    /// The event is a press of `V` or `H`, which splits a viewport.
    pub open spec fn splits(self) -> bool {
        self matches Event::KeyboardKeyPressed(key) && (key.sym == Some(Keysym::V) || key.sym
            == Some(Keysym::H))
    }

    /// Hands the event to the handler method that is there for its kind:
    /// pointer motion, pointer leaving, button and key presses and releases.
    /// The other kinds mean nothing to the viewports. The new pointer shape
    /// comes back where the handler asks for one.
    pub fn dispatch(
        &self,
        sys: &mut ViewportInputHandler,
        db: &mut ViewportDB,
        canvas_size: Extent2,
    ) -> (cursor: Option<MouseCursor>)
        requires
            old(db).wf(),
            self.splits() ==> old(db)@.highest_id.0 <= u32::MAX - 2,
        ensures
            final(db).wf(),
            cursor is Some <==> self is MouseMotion,
            match *self {
                Event::MouseMotion(x, y) => ViewportInputHandler::moved(
                    *old(db),
                    canvas_size,
                    Vec2 { x, y },
                    *final(db),
                    cursor->0,
                ),
                Event::MouseLeave => ViewportInputHandler::left(*old(db), *final(db)),
                Event::MouseButtonPressed(button) => ViewportInputHandler::clicked(
                    *old(db),
                    button,
                    ButtonState::Down,
                    *final(db),
                ),
                Event::MouseButtonReleased(button) => ViewportInputHandler::clicked(
                    *old(db),
                    button,
                    ButtonState::Up,
                    *final(db),
                ),
                Event::KeyboardKeyPressed(key) => ViewportInputHandler::keyed(
                    *old(db),
                    key,
                    ButtonState::Down,
                    *final(db),
                ),
                Event::KeyboardKeyReleased(key) => ViewportInputHandler::keyed(
                    *old(db),
                    key,
                    ButtonState::Up,
                    *final(db),
                ),
                _ => final(db)@ == old(db)@,
            },
    {
        match *self {
            Event::MouseMotion(x, y) => Some(sys.on_mouse_motion(db, canvas_size, Vec2 { x, y })),
            Event::MouseLeave => {
                sys.on_mouse_leave(db);
                None
            },
            Event::MouseButtonPressed(button) => {
                sys.on_mouse_button(db, button, ButtonState::Down);
                None
            },
            Event::MouseButtonReleased(button) => {
                sys.on_mouse_button(db, button, ButtonState::Up);
                None
            },
            Event::KeyboardKeyPressed(key) => {
                sys.on_key(db, key, ButtonState::Down);
                None
            },
            Event::KeyboardKeyReleased(key) => {
                sys.on_key(db, key, ButtonState::Up);
                None
            },
            _ => None,
        }
    }
}

} // verus!
