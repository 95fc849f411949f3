//! Touch input.
use vstd::prelude::*;
use crate::windowing::geometry::Position;

verus! {

/// One contact.
#[derive(Debug, Clone, Copy, PartialEq, Eq, Hash, Structural)]
pub struct TouchId(pub i32);

/// Where a contact is in its life.
#[derive(Debug, Clone, Copy, PartialEq, Eq, Hash, Structural)]
pub enum TouchPhase {
    Started,
    Moved,
    Ended,
    Cancelled,
}

/// One touch event.
#[derive(Debug, Clone, Copy, PartialEq, Eq, Structural)]
pub struct TouchEvent {
    pub id: TouchId,
    pub phase: TouchPhase,
    /// Position in the surface.
    pub position: Position,
}

} // verus!
