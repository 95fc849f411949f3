//! From the windowing system's events to the browser's.
use std::collections::HashMap;
use vstd::prelude::*;
use vstd::string::*;
use crate::windowing::event::WindowEvent;
use crate::windowing::geometry::{Position, Size};
use crate::windowing::ime::ImeEvent;
use crate::windowing::keyboard;
use crate::windowing::keyboard::{
    bridge_key_event, KeyCode, KeyState, LogicalKey, Modifiers, PhysicalKey,
};
use crate::windowing::pointer;
use crate::windowing::pointer::{
    scroll_event_from_winit, PointerButton, PointerButtonState, PointerPosition, ScrollDelta,
};
use crate::windowing::surface::SurfaceId;

verus! {

broadcast use vstd::std_specs::hash::group_hash_axioms;

/// The event loop is gone; the event that could not be sent.
#[derive(Debug)]
pub struct SendError<T>(pub T);

impl<T> SendError<T> {
    /// The failure in words.
    pub fn message(&self) -> (r: String)
        ensures
            r@ == "event loop closed"@,
    {
        "event loop closed".to_owned()
    }
}

/// A mouse button as the windowing system reports it.
#[derive(Debug, Clone, Copy, PartialEq, Eq, Structural)]
pub enum RawButton {
    Left,
    Right,
    Middle,
    Back,
    Forward,
    Other(u16),
}

/// The pointer button of a mouse button.
pub open spec fn button_of(b: RawButton) -> PointerButton {
    match b {
        RawButton::Left => PointerButton::Left,
        RawButton::Right => PointerButton::Right,
        RawButton::Middle => PointerButton::Middle,
        RawButton::Back => PointerButton::Back,
        RawButton::Forward => PointerButton::Forward,
        RawButton::Other(n) => PointerButton::Other(n as u32),
    }
}

/// The pointer button of a mouse button.
pub fn mouse_button_from_winit(b: RawButton) -> (r: PointerButton)
    ensures
        r == button_of(b),
{
    match b {
        RawButton::Left => PointerButton::Left,
        RawButton::Right => PointerButton::Right,
        RawButton::Middle => PointerButton::Middle,
        RawButton::Back => PointerButton::Back,
        RawButton::Forward => PointerButton::Forward,
        RawButton::Other(n) => PointerButton::Other(n as u32),
    }
}

/// An event of an input method as the windowing system reports it.
#[derive(Debug)]
pub enum RawIme {
    Enabled,
    Disabled,
    /// The text and the byte range of the caret.
    Preedit { text: String, cursor: Option<(usize, usize)> },
    Commit(String),
}

/// A window event as the windowing system reports it, positions rounded.
#[derive(Debug)]
pub enum RawEvent {
    ModifiersChanged(Modifiers),
    Resized(Size),
    ScaleFactorChanged(i64),
    CloseRequested,
    RedrawRequested,
    Focused(bool),
    Occluded(bool),
    CursorEntered,
    CursorLeft,
    CursorMoved(Position),
    MouseInput { button: RawButton, pressed: bool },
    MouseWheel(ScrollDelta),
    KeyboardInput {
        physical: PhysicalKey,
        logical: LogicalKey,
        text: Option<String>,
        pressed: bool,
        repeat: bool,
    },
    Ime(RawIme),
    /// Anything the browser has no use for.
    Ignored,
}

/// What is remembered between events. Windows are known by the number that the
/// windowing system gives them.
pub struct Bridge {
    pub ids: HashMap<u64, SurfaceId>,
    pub modifiers: Modifiers,
    pub last_cursor_pos: HashMap<u64, Position>,
    pub focused_window: Option<u64>,
    /// When the loop is to wake at the latest.
    pub wait_until: Option<u64>,
}

/// Where a window's pointer was last; the origin where it has not moved yet.
pub open spec fn last_position(m: Map<u64, Position>, window: u64) -> Position {
    if m.dom().contains(window) {
        m[window]
    } else {
        Position { x: 0, y: 0 }
    }
}

/// Whether `out` is what the browser is told of a raw event.
pub open spec fn bridged(
    raw: RawEvent,
    modifiers: Modifiers,
    entered_at: Position,
    out: Option<WindowEvent>,
) -> bool {
    match raw {
        RawEvent::ModifiersChanged(m) => out == Some(WindowEvent::ModifiersChanged(m)),
        RawEvent::Resized(s) => out == Some(WindowEvent::Resized(s)),
        RawEvent::ScaleFactorChanged(f) => out == Some(
            WindowEvent::ScaleFactorChanged {
                new_scale_factor: f,
                suggested_size: Size { width: 0, height: 0 },
            },
        ),
        RawEvent::CloseRequested => out == Some(WindowEvent::CloseRequested),
        RawEvent::RedrawRequested => out == Some(WindowEvent::RedrawRequested),
        RawEvent::Focused(f) => out == Some(
            if f {
                WindowEvent::Focused
            } else {
                WindowEvent::Unfocused
            },
        ),
        RawEvent::Occluded(o) => out == Some(WindowEvent::Occluded(o)),
        RawEvent::CursorEntered => out == Some(
            WindowEvent::PointerEntered { position: PointerPosition(entered_at) },
        ),
        RawEvent::CursorLeft => out == Some(WindowEvent::PointerLeft),
        RawEvent::CursorMoved(p) => out == Some(
            WindowEvent::PointerMoved { position: PointerPosition(p) },
        ),
        RawEvent::MouseInput { button, pressed } => out == Some(
            WindowEvent::PointerButton {
                button: button_of(button),
                state: if pressed {
                    PointerButtonState::Pressed
                } else {
                    PointerButtonState::Released
                },
                modifiers,
            },
        ),
        RawEvent::MouseWheel(d) => out == Some(WindowEvent::Scroll(pointer::scroll_of(d))),
        RawEvent::KeyboardInput { physical, logical, text, pressed, repeat } => {
            &&& out matches Some(WindowEvent::Key(k))
            &&& k.modifiers == modifiers
            &&& k.repeat == repeat
            &&& k.state == if pressed { KeyState::Pressed } else { KeyState::Released }
            &&& k.scancode.0 == match physical {
                PhysicalKey::Code(name) => keyboard::evdev_number(name@),
                PhysicalKey::Unidentified => 0,
            }
            &&& match logical {
                LogicalKey::Named(name) => k.key_code matches KeyCode::Named(n) && n@
                    == keyboard::symbol_name(name@),
                LogicalKey::Character(s) => k.key_code matches KeyCode::Named(n) && n@ == s@,
                LogicalKey::Unidentified => k.key_code == KeyCode::Sym(0),
                LogicalKey::Dead => k.key_code == KeyCode::Sym(0),
            }
            &&& k.text is Some == (text matches Some(t) && keyboard::types_something(t@))
            &&& k.text is Some ==> k.text == text
        },
        RawEvent::Ime(RawIme::Preedit { text, cursor }) => {
            &&& out matches Some(WindowEvent::Ime(ImeEvent::Preedit { text: t, cursor: c }))
            &&& t == text
            &&& c == match cursor {
                Some(range) => Some(range.0 as u32),
                None => None,
            }
        },
        RawEvent::Ime(RawIme::Commit(text)) => out == Some(WindowEvent::Ime(ImeEvent::Commit(text))),
        RawEvent::Ime(RawIme::Enabled) => out is None,
        RawEvent::Ime(RawIme::Disabled) => out is None,
        RawEvent::Ignored => out is None,
    }
}

/// When the loop is to wake, where it is also to wake no later than `deadline`.
pub open spec fn capped(wait: Option<u64>, deadline: u64) -> Option<u64> {
    match wait {
        Some(prev) => Some(if prev <= deadline { prev } else { deadline }),
        None => Some(deadline),
    }
}

/// The modifiers that are held after an event.
pub open spec fn modifiers_after(held: Modifiers, raw: RawEvent) -> Modifiers {
    match raw {
        RawEvent::ModifiersChanged(m) => m,
        _ => held,
    }
}

/// Where the pointers of the windows were last, after an event.
pub open spec fn positions_after(
    m: Map<u64, Position>,
    window: u64,
    raw: RawEvent,
) -> Map<u64, Position> {
    match raw {
        RawEvent::CursorMoved(p) => m.insert(window, p),
        _ => m,
    }
}

/// The window that has the focus after an event.
pub open spec fn focus_after(focused: Option<u64>, window: u64, raw: RawEvent) -> Option<u64> {
    match raw {
        RawEvent::Focused(true) => Some(window),
        RawEvent::Focused(false) => if focused == Some(window) {
            None
        } else {
            focused
        },
        _ => focused,
    }
}

impl Bridge {
    /// Before the first window.
    pub fn new() -> (r: Self)
        ensures
            r.ids@ == Map::<u64, SurfaceId>::empty(),
            r.modifiers == keyboard::modifiers(false, false, false, false),
            r.last_cursor_pos@ == Map::<u64, Position>::empty(),
            r.focused_window is None,
            r.wait_until is None,
    {
        Bridge {
            ids: HashMap::new(),
            modifiers: Modifiers::default(),
            last_cursor_pos: HashMap::new(),
            focused_window: None,
            wait_until: None,
        }
    }

    /// A window was made.
    pub fn register(&mut self, window: u64, id: SurfaceId)
        ensures
            final(self).ids@ == old(self).ids@.insert(window, id),
            final(self).modifiers == old(self).modifiers,
            final(self).last_cursor_pos == old(self).last_cursor_pos,
            final(self).focused_window == old(self).focused_window,
            final(self).wait_until == old(self).wait_until,
    {
        self.ids.insert(window, id);
    }

    /// Wake no later than `deadline`.
    pub fn cap_wait(&mut self, deadline: u64)
        ensures
            final(self).wait_until == capped(old(self).wait_until, deadline),
            final(self).ids == old(self).ids,
            final(self).modifiers == old(self).modifiers,
            final(self).last_cursor_pos == old(self).last_cursor_pos,
            final(self).focused_window == old(self).focused_window,
    {
        self.wait_until = match self.wait_until {
            Some(prev) => Some(if prev <= deadline { prev } else { deadline }),
            None => Some(deadline),
        };
    }

    /// The deadline of the next wait, which is used once.
    pub fn take_wait(&mut self) -> (r: Option<u64>)
        ensures
            r == old(self).wait_until,
            final(self).wait_until is None,
            final(self).ids == old(self).ids,
            final(self).modifiers == old(self).modifiers,
            final(self).last_cursor_pos == old(self).last_cursor_pos,
            final(self).focused_window == old(self).focused_window,
    {
        self.wait_until.take()
    }

    /// An event of a window: the surface it belongs to and what the browser is
    /// told. Nothing of a window that is not ours.
    pub fn window_event(&mut self, window: u64, raw: RawEvent) -> (r: Option<(
        SurfaceId,
        WindowEvent,
    )>)
        ensures
            final(self).ids == old(self).ids,
            final(self).wait_until == old(self).wait_until,
            final(self).modifiers == modifiers_after(old(self).modifiers, raw),
            final(self).last_cursor_pos@ == positions_after(
                old(self).last_cursor_pos@,
                window,
                raw,
            ),
            final(self).focused_window == focus_after(old(self).focused_window, window, raw),
            match r {
                Some((sid, ev)) => {
                    &&& old(self).ids@.dom().contains(window)
                    &&& sid == old(self).ids@[window]
                    &&& bridged(
                        raw,
                        old(self).modifiers,
                        last_position(old(self).last_cursor_pos@, window),
                        Some(ev),
                    )
                },
                None => !old(self).ids@.dom().contains(window) || bridged(
                    raw,
                    old(self).modifiers,
                    last_position(old(self).last_cursor_pos@, window),
                    None,
                ),
            },
    {
        match &raw {
            RawEvent::ModifiersChanged(m) => {
                self.modifiers = *m;
            },
            RawEvent::CursorMoved(p) => {
                self.last_cursor_pos.insert(window, *p);
            },
            RawEvent::Focused(true) => {
                self.focused_window = Some(window);
            },
            RawEvent::Focused(false) => {
                let ours = match self.focused_window {
                    Some(w) => w == window,
                    None => false,
                };
                if ours {
                    self.focused_window = None;
                }
            },
            _ => {},
        }
        let sid: SurfaceId = match self.ids.get(&window) {
            Some(s) => *s,
            None => {
                return None;
            },
        };
        let out = match raw {
            RawEvent::ModifiersChanged(m) => WindowEvent::ModifiersChanged(m),
            RawEvent::Resized(s) => WindowEvent::Resized(s),
            RawEvent::ScaleFactorChanged(f) => WindowEvent::ScaleFactorChanged {
                new_scale_factor: f,
                suggested_size: Size::default(),
            },
            RawEvent::CloseRequested => WindowEvent::CloseRequested,
            RawEvent::RedrawRequested => WindowEvent::RedrawRequested,
            RawEvent::Focused(f) => if f { WindowEvent::Focused } else { WindowEvent::Unfocused },
            RawEvent::Occluded(o) => WindowEvent::Occluded(o),
            RawEvent::CursorEntered => {
                let pos: Position = match self.last_cursor_pos.get(&window) {
                    Some(p) => *p,
                    None => Position::new(0, 0),
                };
                WindowEvent::PointerEntered { position: PointerPosition(pos) }
            },
            RawEvent::CursorLeft => WindowEvent::PointerLeft,
            RawEvent::CursorMoved(p) => WindowEvent::PointerMoved { position: PointerPosition(p) },
            RawEvent::MouseInput { button, pressed } => WindowEvent::PointerButton {
                button: mouse_button_from_winit(button),
                state: if pressed {
                    PointerButtonState::Pressed
                } else {
                    PointerButtonState::Released
                },
                modifiers: self.modifiers,
            },
            RawEvent::MouseWheel(d) => WindowEvent::Scroll(scroll_event_from_winit(d)),
            RawEvent::KeyboardInput { physical, logical, text, pressed, repeat } => {
                WindowEvent::Key(
                    bridge_key_event(&physical, &logical, text, pressed, repeat, self.modifiers),
                )
            },
            RawEvent::Ime(ime) => match ime {
                RawIme::Preedit { text, cursor } => WindowEvent::Ime(
                    ImeEvent::Preedit {
                        text,
                        cursor: match cursor {
                            Some((start, _)) => Some(start as u32),
                            None => None,
                        },
                    },
                ),
                RawIme::Commit(text) => WindowEvent::Ime(ImeEvent::Commit(text)),
                RawIme::Enabled => {
                    return None;
                },
                RawIme::Disabled => {
                    return None;
                },
            },
            RawEvent::Ignored => {
                return None;
            },
        };
        Some((sid, out))
    }
}

/// Law: an event of a window that is not ours is never passed on, and one of
/// ours is passed on unless it is one the browser has no use for.
pub proof fn law_only_useless_events_are_dropped(raw: RawEvent, modifiers: Modifiers, at: Position)
    ensures
        bridged(raw, modifiers, at, None) <==> (raw is Ignored || raw == RawEvent::Ime(
            RawIme::Enabled,
        ) || raw == RawEvent::Ime(RawIme::Disabled)),
{
}

/// Law: the loop wakes at the earliest of the times that were asked for, whatever
/// the order in which they were.
pub proof fn law_loop_wakes_at_the_earliest_deadline(wait: Option<u64>, a: u64, b: u64)
    ensures
        capped(wait, a) is Some,
        capped(wait, a)->0 <= a,
        wait is Some ==> capped(wait, a)->0 <= wait->0,
        capped(wait, a) == Some(a) || capped(wait, a) == wait,
        capped(capped(wait, a), b) == capped(capped(wait, b), a),
{
}

/// Law: modifiers are held as they were last reported; nothing else changes them.
pub proof fn law_modifiers_are_held_until_they_change(held: Modifiers, m: Modifiers, raw: RawEvent)
    ensures
        modifiers_after(held, RawEvent::ModifiersChanged(m)) == m,
        !(raw is ModifiersChanged) ==> modifiers_after(held, raw) == held,
{
}

/// Law: a pointer is where it last moved to in that window; other windows' pointers
/// and other events leave it there.
pub proof fn law_pointer_stays_where_it_moved(
    m: Map<u64, Position>,
    window: u64,
    other: u64,
    to: Position,
    raw: RawEvent,
)
    ensures
        last_position(positions_after(m, window, RawEvent::CursorMoved(to)), window) == to,
        other != window ==> last_position(positions_after(m, window, raw), other)
            == last_position(m, other),
        !(raw is CursorMoved) ==> positions_after(m, window, raw) == m,
        last_position(Map::empty(), window) == (Position { x: 0, y: 0 }),
{
}

/// Law: the window that was focused last has the focus until it loses it itself.
pub proof fn law_focus_is_lost_by_its_window_alone(
    focused: Option<u64>,
    window: u64,
    raw: RawEvent,
)
    ensures
        focus_after(focused, window, RawEvent::Focused(true)) == Some(window),
        focus_after(Some(window), window, RawEvent::Focused(false)) is None,
        focused != Some(window) ==> focus_after(focused, window, RawEvent::Focused(false))
            == focused,
        !(raw is Focused) ==> focus_after(focused, window, raw) == focused,
{
}

/// Law: mouse buttons keep their meaning, and no two become the same.
pub proof fn law_buttons_keep_their_meaning(a: RawButton, b: RawButton, n: u16)
    ensures
        a is Left <==> button_of(a) is Left,
        a is Right <==> button_of(a) is Right,
        a is Middle <==> button_of(a) is Middle,
        a is Back <==> button_of(a) is Back,
        a is Forward <==> button_of(a) is Forward,
        button_of(RawButton::Other(n)) == PointerButton::Other(n as u32),
        button_of(a) == button_of(b) ==> a == b,
{
}

/// Law: what the browser is told of an event is that event: of the same sort, with
/// what it carried.
pub proof fn law_events_are_passed_on_as_they_are(
    raw: RawEvent,
    modifiers: Modifiers,
    at: Position,
    out: WindowEvent,
)
    requires
        bridged(raw, modifiers, at, Some(out)),
    ensures
        raw is RedrawRequested <==> out is RedrawRequested,
        raw is CloseRequested <==> out is CloseRequested,
        raw is CursorLeft <==> out is PointerLeft,
        raw == RawEvent::Focused(true) <==> out is Focused,
        raw == RawEvent::Focused(false) <==> out is Unfocused,
        out matches WindowEvent::Resized(s) ==> raw == RawEvent::Resized(s),
        out matches WindowEvent::Occluded(o) ==> raw == RawEvent::Occluded(o),
        out matches WindowEvent::ModifiersChanged(m) ==> raw == RawEvent::ModifiersChanged(m),
        out matches WindowEvent::ScaleFactorChanged { new_scale_factor, .. } ==> raw
            == RawEvent::ScaleFactorChanged(new_scale_factor),
        out matches WindowEvent::PointerMoved { position } ==> raw == RawEvent::CursorMoved(
            position.0,
        ),
        out matches WindowEvent::PointerEntered { position } ==> raw is CursorEntered
            && position.0 == at,
        raw is CursorEntered ==> out is PointerEntered,
        raw is CursorMoved ==> out is PointerMoved,
        raw is Resized ==> out is Resized,
        raw is Occluded ==> out is Occluded,
        raw is ScaleFactorChanged ==> out is ScaleFactorChanged,
        raw is ModifiersChanged ==> out is ModifiersChanged,
        raw is MouseInput <==> out is PointerButton,
        raw is MouseWheel <==> out is Scroll,
        raw is KeyboardInput <==> out is Key,
        raw is Ime <==> out is Ime,
{
}

/// Law: a mouse button arrives as it was pressed or released, with the modifiers
/// that are held.
pub proof fn law_button_arrives_with_the_modifiers(
    button: RawButton,
    pressed: bool,
    modifiers: Modifiers,
    at: Position,
    out: WindowEvent,
)
    requires
        bridged(RawEvent::MouseInput { button, pressed }, modifiers, at, Some(out)),
    ensures
        out matches WindowEvent::PointerButton { button: b, state: s, modifiers: m } && {
            &&& m == modifiers
            &&& s is Pressed <==> pressed
            &&& b is Left <==> button is Left
            &&& b is Right <==> button is Right
            &&& b is Middle <==> button is Middle
        },
{
}

/// Law: a key arrives as it was pressed or released, repeated or not, with the
/// modifiers that are held; a character is its own name; what it types is the text
/// that came with it, or nothing.
pub proof fn law_key_arrives_whole(
    physical: PhysicalKey,
    logical: LogicalKey,
    text: Option<String>,
    pressed: bool,
    repeat: bool,
    modifiers: Modifiers,
    at: Position,
    out: WindowEvent,
)
    requires
        bridged(
            RawEvent::KeyboardInput { physical, logical, text, pressed, repeat },
            modifiers,
            at,
            Some(out),
        ),
    ensures
        out matches WindowEvent::Key(k) && {
            &&& k.modifiers == modifiers
            &&& k.repeat == repeat
            &&& k.state is Pressed <==> pressed
            &&& k.text is None || k.text == text
            &&& physical is Unidentified ==> k.scancode.0 == 0
            &&& logical matches LogicalKey::Character(s) ==> (k.key_code matches KeyCode::Named(n)
                ==> n@ == s@)
            &&& logical is Character || logical is Named <==> k.key_code is Named
            &&& logical is Dead || logical is Unidentified ==> k.key_code == KeyCode::Sym(0)
            &&& (text matches Some(t) ==> t@.len() >= 2 ==> k.text == text)
            &&& (text matches Some(t) ==> t@.len() == 1 && 32 <= t@[0] as int && t@[0] as int != 127
                ==> k.text == text)
            &&& (text matches Some(t) ==> t@.len() == 1 && (t@[0] as int) < 32 ==> k.text is None)
        },
{
    if let Some(t) = text {
        if t@.len() == 1 {
            keyboard::law_control_characters_type_nothing(t@[0], t@);
            assert(t@ =~= seq![t@[0]]);
        } else {
            keyboard::law_control_characters_type_nothing(' ', t@);
        }
    }
}

/// Law: what an input method commits arrives letter for letter, and what it is still
/// composing arrives with the caret at the start of its range.
pub proof fn law_composed_text_arrives(
    text: String,
    start: usize,
    end: usize,
    modifiers: Modifiers,
    at: Position,
    out: WindowEvent,
)
    requires
        start <= u32::MAX,
    ensures
        bridged(RawEvent::Ime(RawIme::Commit(text)), modifiers, at, Some(out)) ==> out
            == WindowEvent::Ime(ImeEvent::Commit(text)),
        bridged(
            RawEvent::Ime(RawIme::Preedit { text, cursor: Some((start, end)) }),
            modifiers,
            at,
            Some(out),
        ) ==> (out matches WindowEvent::Ime(ImeEvent::Preedit { text: t, cursor: c }) && t == text
            && c is Some && c->0 == start),
        bridged(
            RawEvent::Ime(RawIme::Preedit { text, cursor: None }),
            modifiers,
            at,
            Some(out),
        ) ==> (out matches WindowEvent::Ime(ImeEvent::Preedit { text: t, cursor: c }) && t == text
            && c is None),
{
}

} // verus!
