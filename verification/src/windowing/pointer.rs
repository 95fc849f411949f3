//! Pointers and scrolling.
//!
//! Scroll amounts are in the unit of [`crate::fixed`].
use vstd::prelude::*;
use crate::fixed;
use crate::fixed::{abs_i64, round_to_i32, times_cut};
use crate::windowing::geometry::Position;

verus! {

/// A pointer button.
#[derive(Debug, Clone, Copy, PartialEq, Eq, Hash, Structural)]
pub enum PointerButton {
    Left,
    Right,
    Middle,
    Back,
    Forward,
    Other(u32),
}

/// Whether a button went down or up.
#[derive(Debug, Clone, Copy, PartialEq, Eq, Hash, Structural)]
pub enum PointerButtonState {
    Pressed,
    Released,
}

/// What a scroll event comes from.
#[derive(Debug, Clone, Copy, PartialEq, Eq, Hash, Structural)]
pub enum AxisSource {
    Wheel,
    Finger,
    Continuous,
    WheelTilt,
}

/// The direction of a scroll event.
#[derive(Debug, Clone, Copy, PartialEq, Eq, Hash, Structural)]
pub enum AxisDirection {
    Vertical,
    Horizontal,
}

/// A scroll event.
#[derive(Debug, Clone, Copy, PartialEq, Eq, Structural)]
pub struct ScrollEvent {
    pub axis: AxisDirection,
    /// Logical pixels, down and right being positive.
    pub delta: i64,
    /// Detents of a wheel, else zero.
    pub discrete_steps: i32,
    /// The same in 1/120 of a detent.
    pub high_res_120: i32,
    pub source: AxisSource,
}

/// A pointer position in a surface, in logical pixels.
#[derive(Debug, Clone, Copy, PartialEq, Eq, Structural)]
pub struct PointerPosition(pub Position);

impl From<Position> for PointerPosition {
    fn from(p: Position) -> (r: Self) {
        PointerPosition(p)
    }
}

impl vstd::std_specs::convert::FromSpecImpl<Position> for PointerPosition {
    open spec fn obeys_from_spec() -> bool {
        true
    }

    open spec fn from_spec(p: Position) -> Self {
        PointerPosition(p)
    }
}

/// A scroll amount as the windowing system reports it.
#[derive(Debug, Clone, Copy, PartialEq, Eq, Structural)]
pub enum ScrollDelta {
    /// Lines of a wheel.
    Lines { dx: i64, dy: i64 },
    /// Pixels of a touchpad.
    Pixels { x: i64, y: i64 },
}

/// Logical pixels that one line scrolls.
pub const PIXELS_PER_LINE: i64 = 20;

/// The direction of the larger part, vertical where they are the same.
pub open spec fn dominant(dx: int, dy: int) -> AxisDirection {
    if fixed::magnitude(dy) >= fixed::magnitude(dx) {
        AxisDirection::Vertical
    } else {
        AxisDirection::Horizontal
    }
}

/// The larger of the two parts, with its direction.
fn dominant_part(dx: i64, dy: i64) -> (r: (AxisDirection, i64))
    ensures
        r.0 == dominant(dx as int, dy as int),
        r.1 == if r.0 == AxisDirection::Vertical { dy } else { dx },
{
    if abs_i64(dy) >= abs_i64(dx) {
        (AxisDirection::Vertical, dy)
    } else {
        (AxisDirection::Horizontal, dx)
    }
}

/// The event of a scroll amount: it is attributed to the larger of its parts.
pub open spec fn scroll_of(delta: ScrollDelta) -> ScrollEvent {
    match delta {
        ScrollDelta::Lines { dx, dy } => {
            let axis = dominant(dx as int, dy as int);
            let lines = if axis == AxisDirection::Vertical { dy } else { dx };
            ScrollEvent {
                axis,
                delta: fixed::cut_to_i64(lines * PIXELS_PER_LINE) as i64,
                discrete_steps: fixed::cut_to_i32(
                    fixed::rounded(lines * 1, fixed::FIXED_ONE as int),
                ) as i32,
                high_res_120: fixed::cut_to_i32(
                    fixed::rounded(lines * 120, fixed::FIXED_ONE as int),
                ) as i32,
                source: AxisSource::Wheel,
            }
        },
        ScrollDelta::Pixels { x, y } => {
            let axis = dominant(x as int, y as int);
            ScrollEvent {
                axis,
                delta: if axis == AxisDirection::Vertical { y } else { x },
                discrete_steps: 0,
                high_res_120: 0,
                source: AxisSource::Finger,
            }
        },
    }
}

/// The event of a scroll amount: it is attributed to the larger of its parts.
pub fn scroll_event_from_winit(delta: ScrollDelta) -> (r: ScrollEvent)
    ensures
        r == scroll_of(delta),
{
    match delta {
        ScrollDelta::Lines { dx, dy } => {
            let (axis, lines) = dominant_part(dx, dy);
            ScrollEvent {
                axis,
                delta: times_cut(lines, PIXELS_PER_LINE),
                discrete_steps: round_to_i32(lines, 1),
                high_res_120: round_to_i32(lines, 120),
                source: AxisSource::Wheel,
            }
        },
        ScrollDelta::Pixels { x, y } => {
            let (axis, val) = dominant_part(x, y);
            ScrollEvent {
                axis,
                delta: val,
                discrete_steps: 0,
                high_res_120: 0,
                source: AxisSource::Finger,
            }
        },
    }
}

/// Law: a scroll amount in one direction is never reported in the other.
pub proof fn law_scroll_keeps_its_axis(d: int)
    requires
        d != 0,
    ensures
        dominant(d, 0) == AxisDirection::Horizontal,
        dominant(0, d) == AxisDirection::Vertical,
{
}

/// Law: a scroll goes along the axis of its larger part, downwards where both are
/// the same, by that part and no other. Pixels of a touchpad are taken as they are;
/// a line of a wheel is twenty pixels.
pub proof fn law_scroll_takes_its_larger_part(dx: i64, dy: i64)
    requires
        -0x400_0000_0000_0000 < dx < 0x400_0000_0000_0000,
        -0x400_0000_0000_0000 < dy < 0x400_0000_0000_0000,
    ensures
        ({
            let p = scroll_of(ScrollDelta::Pixels { x: dx, y: dy });
            let l = scroll_of(ScrollDelta::Lines { dx, dy });
            let down = (if dy < 0 { -dy } else { dy as int }) >= if dx < 0 { -dx } else { dx as int };
            &&& p.axis is Vertical <==> down
            &&& l.axis is Vertical <==> down
            &&& down ==> p.delta == dy && l.delta == dy * 20
            &&& !down ==> p.delta == dx && l.delta == dx * 20
            &&& p.discrete_steps == 0 && p.high_res_120 == 0
            &&& p.source is Finger && l.source is Wheel
        }),
{
}

/// Law: whole lines are counted as that many detents, and as 120 times as many in
/// the fine measure.
pub proof fn law_lines_are_counted(lines: i32)
    requires
        -1_000_000 <= lines <= 1_000_000,
    ensures
        ({
            let amount = (lines * 65_536) as i64;
            let v = scroll_of(ScrollDelta::Lines { dx: 0, dy: amount });
            &&& v.axis is Vertical
            &&& v.discrete_steps == lines
            &&& v.high_res_120 == 120 * lines
        }),
{
    let amount = (lines * 65_536) as i64;
    fixed::law_rounding_is_to_the_nearest(0, 65_536, lines as int);
    fixed::law_rounding_is_to_the_nearest(0, 65_536, 120 * lines);
    assert(amount * 1 == lines * 65_536);
    assert(amount * 120 == (120 * lines) * 65_536);
}

} // verus!
