//! Which input events the auto-clicker acts on.

use vstd::prelude::*;

verus! {

/// A button of the pointer.
#[derive(Clone, Copy, Debug, PartialEq, Eq, Structural)]
pub enum PointerButton {
    Left,
    Right,
    Middle,
    /// Any further button, by its number.
    Other(u8),
}

/// A key, as far as the auto-clicker tells keys apart.
#[derive(Clone, Copy, Debug, PartialEq, Eq, Structural)]
pub enum Key {
    Escape,
    Other,
}

/// An event of the global input feed.
#[derive(Clone, Copy, Debug, PartialEq, Eq, Structural)]
pub enum InputEvent {
    KeyPress(Key),
    KeyRelease(Key),
    ButtonPress(PointerButton),
    ButtonRelease(PointerButton),
    /// The pointer moved.
    Motion,
    /// The wheel turned.
    Wheel,
}

/// What an input event asks for.
#[derive(Clone, Copy, Debug, PartialEq, Eq, Structural)]
pub enum Reaction {
    /// Notify the click loop that the anchor has been chosen.
    ChooseAnchor,
    /// Set the cancellation flag to stopped.
    Cancel,
    /// Nothing.
    Ignore,
}

/// The reaction to an input event: pressing the left button chooses the
/// anchor, pressing escape cancels, and nothing else is acted on.
pub fn react(event: InputEvent) -> (reaction: Reaction)
    ensures
        reaction is ChooseAnchor <==> event == InputEvent::ButtonPress(PointerButton::Left),
        reaction is Cancel <==> event == InputEvent::KeyPress(Key::Escape),
{
    match event {
        InputEvent::ButtonPress(PointerButton::Left) => Reaction::ChooseAnchor,
        InputEvent::KeyPress(Key::Escape) => Reaction::Cancel,
        _ => Reaction::Ignore,
    }
}

} // verus!
