//! What a reply does to the custom keyboard shown to the user.

use vstd::prelude::*;

verus! {

/// What a reply does to the keyboard shown to the user.
#[derive(PartialEq, Eq, Structural, Debug, Clone, Copy)]
pub enum Keyboard {
    /// Leaves it as it is.
    Keep,
    /// Removes a custom keyboard.
    Remove,
}

/// The model of a `Keyboard`.
pub enum KeyboardView {
    Keep,
    Remove,
}

impl View for Keyboard {
    type V = KeyboardView;

    open spec fn view(&self) -> KeyboardView {
        match self {
            Keyboard::Keep => KeyboardView::Keep,
            Keyboard::Remove => KeyboardView::Remove,
        }
    }
}

} // verus!
