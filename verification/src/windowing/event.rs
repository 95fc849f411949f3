//! Window events.
use vstd::prelude::*;
use crate::windowing::geometry::Size;
use crate::windowing::ime::ImeEvent;
use crate::windowing::keyboard::{KeyEvent, Modifiers};
use crate::windowing::pointer::{PointerButton, PointerButtonState, PointerPosition, ScrollEvent};

verus! {

/// An event of one surface.
#[derive(Debug)]
pub enum WindowEvent {
    /// It has a new size.
    Resized(Size),
    /// It has a new scale, in the unit of [`crate::fixed`].
    ScaleFactorChanged { new_scale_factor: i64, suggested_size: Size },
    CloseRequested,
    RedrawRequested,
    Focused,
    Unfocused,
    /// It is hidden, or no longer so.
    Occluded(bool),
    PointerEntered { position: PointerPosition },
    PointerLeft,
    PointerMoved { position: PointerPosition },
    PointerButton { button: PointerButton, state: PointerButtonState, modifiers: Modifiers },
    Scroll(ScrollEvent),
    Key(KeyEvent),
    /// Other modifiers are held.
    ModifiersChanged(Modifiers),
    Ime(ImeEvent),
}

} // verus!
