//! Key codes, window events, and what the game does with each key.

use vstd::prelude::*;
use crate::entities::{PADDLE_STEP};
use crate::geometry::UNITS_PER_PIXEL;

verus! {

/// A keyboard key, as reported by a key-press event.
#[derive(Clone, Copy, Debug, PartialEq, Eq, Structural)]
pub enum Key {
    Escape,
    K,
    J,
    /// Any other key, by its platform code.
    Other(u32),
}

/// An event taken from the window's queue.
#[derive(Clone, Copy, Debug, PartialEq, Eq, Structural)]
pub enum Event {
    /// The user asked to close the window.
    Closed,
    KeyPressed(Key),
    /// Any other kind of event; it is ignored.
    Other,
}

/// What the game does when a key was pressed.
#[derive(Clone, Copy, Debug, PartialEq, Eq, Structural)]
pub enum KeyAction {
    CloseWindow,
    MoveUp,
    MoveDown,
    Ignore,
}

pub open spec fn action_spec(key: Key) -> KeyAction {
    match key {
        Key::Escape => KeyAction::CloseWindow,
        Key::K => KeyAction::MoveUp,
        Key::J => KeyAction::MoveDown,
        Key::Other(_) => KeyAction::Ignore,
    }
}

/// Escape closes the window, K moves the paddle up, J moves it down, and
/// every other key does nothing.
pub fn action_of(key: Key) -> (r: KeyAction)
    ensures
        r == action_spec(key),
{
    match key {
        Key::Escape => KeyAction::CloseWindow,
        Key::K => KeyAction::MoveUp,
        Key::J => KeyAction::MoveDown,
        Key::Other(_) => KeyAction::Ignore,
    }
}

/// One paddle step, in units.
pub open spec fn step_units() -> int {
    PADDLE_STEP * UNITS_PER_PIXEL
}

/// Vertical translation of one key press, in units. Screen y grows
/// downwards, so "up" moves towards y = 0; no key moves a paddle sideways.
pub open spec fn key_dy(key: Key) -> int {
    match action_spec(key) {
        KeyAction::MoveUp => -step_units(),
        KeyAction::MoveDown => step_units(),
        _ => 0,
    }
}

/// Sum of the vertical translations of `keys`, applied in order.
pub open spec fn displacement(keys: Seq<Key>) -> int
    decreases keys.len(),
{
    if keys.len() == 0 {
        0
    } else {
        displacement(keys.drop_last()) + key_dy(keys.last())
    }
}

/// The keys pressed in `events`, in order.
pub open spec fn pressed_keys(events: Seq<Event>) -> Seq<Key>
    decreases events.len(),
{
    if events.len() == 0 {
        Seq::empty()
    } else {
        let rest = pressed_keys(events.drop_last());
        match events.last() {
            Event::KeyPressed(k) => rest.push(k),
            _ => rest,
        }
    }
}

/// How many times `key` occurs in `keys`.
pub open spec fn count_key(keys: Seq<Key>, key: Key) -> nat
    decreases keys.len(),
{
    if keys.len() == 0 {
        0
    } else {
        count_key(keys.drop_last(), key) + if keys.last() == key {
            1nat
        } else {
            0nat
        }
    }
}

} // verus!
