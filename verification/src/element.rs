//! The runtime contract that derived code is written against.

use vstd::prelude::*;

verus! {

/// An input signal delivered to an element.
#[derive(Clone, Copy, Debug, PartialEq, Eq, Structural)]
pub enum Event {
    Left,
    Right,
    Both,
}

/// Something that can receive an event and can draw itself.
pub trait Element {
    /// Handle an event, updating element state or exiting.
    fn evt(&mut self, evt: Event);

    /// Draw the element.
    fn draw(&self);
}

/// A composite element with an associated descriptor of its current state.
pub trait Menu {
    type State: core::fmt::Debug;
}

} // verus!
