//! Windows, input and monitors, in the terms the browser uses for them.
pub mod cursor;
pub mod event;
pub mod event_loop;
pub mod geometry;
pub mod ime;
pub mod keyboard;
pub mod output;
pub mod pointer;
pub mod surface;
pub mod touch;
pub mod window;

pub use cursor::CursorIcon;
pub use event::WindowEvent;
pub use geometry::{Position, Size};
pub use ime::ImeEvent;
pub use keyboard::{KeyCode, KeyEvent, KeyState, Modifiers, ScanCode};
pub use output::{OutputId, OutputInfo};
pub use pointer::{
    AxisDirection, AxisSource, PointerButton, PointerButtonState, PointerPosition, ScrollEvent,
};
pub use surface::SurfaceId;
pub use touch::{TouchEvent, TouchId, TouchPhase};
pub use window::{ActivationError, BuildError, ToplevelBuilder};
