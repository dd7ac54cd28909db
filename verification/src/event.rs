//! Input events, capture status, mouse feedback, and the shell that
//! carries selection messages back to the application.

use vstd::prelude::*;

verus! {

/// The input events the overlay chain routes. The cursor or touch
/// position travels beside the event, as a separate argument.
#[derive(Clone, Copy, Debug, PartialEq, Eq, Structural)]
pub enum Event {
    /// The pointer moved.
    CursorMoved,
    /// The primary mouse button was pressed.
    MousePressed,
    /// A finger touched the screen.
    TouchPressed,
    /// Any event this crate does not interpret.
    Other,
}

/// Whether a surface consumed an event.
#[derive(Clone, Copy, Debug, PartialEq, Eq, Structural)]
pub enum Status {
    /// The event was not handled; it keeps bubbling.
    Ignored,
    /// The event was handled and must not reach further surfaces.
    Captured,
}

/// Mouse-cursor feedback a surface reports.
#[derive(Clone, Copy, Debug, PartialEq, Eq, Structural)]
pub enum Interaction {
    /// No preference: an outer surface may still be consulted.
    Idle,
    /// A pointing-hand cursor.
    Pointer,
}

/// The outbound channel to the application: every selected option is
/// published here, in the order the selections happened.
pub struct Shell {
    /// The published messages, oldest first.
    pub messages: Vec<String>,
}

impl Shell {
    /// An empty shell, ready for one event dispatch.
    pub fn new() -> (s: Shell)
        ensures
            s.messages@ =~= Seq::<String>::empty(),
    {
        Shell { messages: Vec::new() }
    }

    /// Publishes one message to the application.
    pub fn publish(&mut self, message: String)
        ensures
            final(self).messages@ == old(self).messages@.push(message),
    {
        self.messages.push(message);
    }
}

} // verus!
