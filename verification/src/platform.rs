//! The window system's events, translated into the engine's own and queued
//! until the main loop asks for them.

use std::collections::VecDeque;
use vstd::prelude::*;
use crate::device::{Key, MouseButton};
use crate::event::Event;
use crate::math::Extent2;

verus! {

/// An event as the window system reports it. Positions and sizes are in
/// whole pixels; a text comes as the characters that were typed.
#[derive(Debug, PartialEq, Eq)]
#[allow(inconsistent_fields)]
pub enum DmcEvent {
    Quit,
    WindowCloseRequested,
    WindowResized { size: Extent2 },
    WindowMoved { x: i32, y: i32 },
    MouseEnter,
    MouseLeave,
    KeyboardFocusGained,
    KeyboardFocusLost,
    MouseButtonReleased { button: MouseButton },
    MouseButtonPressed { button: MouseButton },
    MouseButtonReleasedRaw { button: MouseButton },
    MouseButtonPressedRaw { button: MouseButton },
    MouseMotion { x: u32, y: u32 },
    MouseMotionRaw { x: i32, y: i32 },
    MouseScroll { x: i32, y: i32 },
    MouseScrollRaw { x: i32, y: i32 },
    KeyboardKeyReleased { key: Key },
    KeyboardKeyPressed { key: Key, is_repeat: bool },
    KeyboardKeyReleasedRaw { key: Key },
    KeyboardKeyPressedRaw { key: Key },
    KeyboardTextChar { char: char },
    KeyboardTextString { text: Vec<char> },
}

/// The events that wait for the main loop, oldest first.
#[derive(Debug)]
pub struct DmcPlatform {
    pending_events: VecDeque<Event>,
}

impl DmcEvent {
    /// The engine's events for one event of the window system, in order:
    /// none for an event that the engine has no use for, such as a key that
    /// repeats, one for each character of a text, and one otherwise.
    pub open spec fn translated(self) -> Seq<Event> {
        match self {
            DmcEvent::Quit => seq![Event::Quit],
            DmcEvent::WindowCloseRequested => seq![Event::Quit],
            DmcEvent::WindowResized { size } => seq![Event::CanvasResized(size.w, size.h)],
            DmcEvent::WindowMoved { .. } => seq![],
            DmcEvent::MouseEnter => seq![Event::MouseEnter],
            DmcEvent::MouseLeave => seq![Event::MouseLeave],
            DmcEvent::KeyboardFocusGained => seq![Event::KeyboardFocusGained],
            DmcEvent::KeyboardFocusLost => seq![Event::KeyboardFocusLost],
            DmcEvent::MouseButtonReleased { button } => seq![Event::MouseButtonReleased(button)],
            DmcEvent::MouseButtonPressed { button } => seq![Event::MouseButtonPressed(button)],
            DmcEvent::MouseButtonReleasedRaw { button } => seq![
                Event::MouseButtonReleasedRaw(button),
            ],
            DmcEvent::MouseButtonPressedRaw { button } => seq![Event::MouseButtonPressedRaw(button)],
            DmcEvent::MouseMotion { x, y } => seq![Event::MouseMotion(x, y)],
            DmcEvent::MouseMotionRaw { x, y } => seq![Event::MouseMotionRaw(x, y)],
            DmcEvent::MouseScroll { x, y } => seq![Event::MouseScroll(x, y)],
            DmcEvent::MouseScrollRaw { x, y } => seq![Event::MouseScrollRaw(x, y)],
            DmcEvent::KeyboardKeyReleased { key } => seq![Event::KeyboardKeyReleased(key)],
            DmcEvent::KeyboardKeyPressed { key, is_repeat } => if is_repeat {
                seq![]
            } else {
                seq![Event::KeyboardKeyPressed(key)]
            },
            DmcEvent::KeyboardKeyReleasedRaw { key } => seq![Event::KeyboardKeyReleasedRaw(key)],
            DmcEvent::KeyboardKeyPressedRaw { key } => seq![Event::KeyboardKeyPressedRaw(key)],
            DmcEvent::KeyboardTextChar { char } => seq![Event::KeyboardTextChar(char)],
            DmcEvent::KeyboardTextString { text } => text_events(text@),
        }
    }
}

/// One event for each character that was typed, in order.
pub open spec fn text_events(text: Seq<char>) -> Seq<Event>
    decreases text.len(),
{
    if text.len() == 0 {
        Seq::empty()
    } else {
        text_events(text.drop_last()).push(typed(text.last()))
    }
}

/// The event of one character that was typed.
pub open spec fn typed(c: char) -> Event {
    Event::KeyboardTextChar(c)
}

impl DmcPlatform {
    /// The events that wait, oldest first.
    pub closed spec fn pending(&self) -> Seq<Event> {
        self.pending_events@
    }

    /// A platform on which nothing has happened yet.
    pub fn new() -> (platform: Self)
        ensures
            platform.pending() == Seq::<Event>::empty(),
    {
        Self { pending_events: VecDeque::with_capacity(8) }
    }

    /// Takes the oldest event that waits, if any.
    pub fn poll_event(&mut self) -> (event: Option<Event>)
        ensures
            match event {
                Some(e) => old(self).pending().len() > 0 && e == old(self).pending()[0]
                    && final(self).pending() == old(self).pending().subrange(
                    1,
                    old(self).pending().len() as int,
                ),
                None => old(self).pending().len() == 0 && final(self).pending() == old(
                    self,
                ).pending(),
            },
    {
        self.pending_events.pop_front()
    }

    /// Queues the engine's events for one event of the window system.
    pub fn pump_dmc_event(&mut self, ev: DmcEvent)
        ensures
            final(self).pending() == old(self).pending() + ev.translated(),
    {
        let ghost before = self.pending();
        match ev {
            DmcEvent::Quit => self.pending_events.push_back(Event::Quit),
            DmcEvent::WindowCloseRequested => self.pending_events.push_back(Event::Quit),
            DmcEvent::WindowResized { size } => self.pending_events.push_back(
                Event::CanvasResized(size.w, size.h),
            ),
            DmcEvent::MouseEnter => self.pending_events.push_back(Event::MouseEnter),
            DmcEvent::MouseLeave => self.pending_events.push_back(Event::MouseLeave),
            DmcEvent::KeyboardFocusGained => self.pending_events.push_back(
                Event::KeyboardFocusGained,
            ),
            DmcEvent::KeyboardFocusLost => self.pending_events.push_back(Event::KeyboardFocusLost),
            DmcEvent::MouseButtonReleased { button } => self.pending_events.push_back(
                Event::MouseButtonReleased(button),
            ),
            DmcEvent::MouseButtonPressed { button } => self.pending_events.push_back(
                Event::MouseButtonPressed(button),
            ),
            DmcEvent::MouseButtonReleasedRaw { button } => self.pending_events.push_back(
                Event::MouseButtonReleasedRaw(button),
            ),
            DmcEvent::MouseButtonPressedRaw { button } => self.pending_events.push_back(
                Event::MouseButtonPressedRaw(button),
            ),
            DmcEvent::MouseMotion { x, y } => self.pending_events.push_back(
                Event::MouseMotion(x, y),
            ),
            DmcEvent::MouseMotionRaw { x, y } => self.pending_events.push_back(
                Event::MouseMotionRaw(x, y),
            ),
            DmcEvent::MouseScroll { x, y } => self.pending_events.push_back(
                Event::MouseScroll(x, y),
            ),
            DmcEvent::MouseScrollRaw { x, y } => self.pending_events.push_back(
                Event::MouseScrollRaw(x, y),
            ),
            DmcEvent::KeyboardKeyReleased { key } => self.pending_events.push_back(
                Event::KeyboardKeyReleased(key),
            ),
            DmcEvent::KeyboardKeyPressed { key, is_repeat } => {
                if !is_repeat {
                    self.pending_events.push_back(Event::KeyboardKeyPressed(key));
                }
            },
            DmcEvent::KeyboardKeyReleasedRaw { key } => self.pending_events.push_back(
                Event::KeyboardKeyReleasedRaw(key),
            ),
            DmcEvent::KeyboardKeyPressedRaw { key } => self.pending_events.push_back(
                Event::KeyboardKeyPressedRaw(key),
            ),
            DmcEvent::KeyboardTextChar { char } => self.pending_events.push_back(
                Event::KeyboardTextChar(char),
            ),
            DmcEvent::KeyboardTextString { text } => {
                let mut n: usize = 0;
                assert(before + text_events(text@.take(0)) =~= before);
                while n < text.len()
                    invariant
                        n <= text.len(),
                        self.pending() =~= before + text_events(text@.take(n as int)),
                    decreases text.len() - n,
                {
                    let ghost front = text_events(text@.take(n as int));
                    self.pending_events.push_back(Event::KeyboardTextChar(text[n]));
                    assert(text@.take(n + 1).drop_last() =~= text@.take(n as int));
                    assert(text@.take(n + 1).last() == text@[n as int]);
                    assert(text_events(text@.take(n + 1)) == front.push(typed(text@[n as int])));
                    assert(self.pending() =~= before + text_events(text@.take(n + 1)));
                    n += 1;
                }
                assert(text@.take(text@.len() as int) =~= text@);
                return ;
            },
            _ => {},
        }
        assert(self.pending() =~= before + ev.translated());
    }
}

} // verus!
