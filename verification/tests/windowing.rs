//! Windows, input and monitors.
use buffr::fixed::FIXED_ONE;
use buffr::windowing::event_loop::{
    mouse_button_from_winit, Bridge, RawButton, RawEvent, RawIme, SendError,
};
use buffr::windowing::keyboard::{
    bridge_key_event, evdev_scancode, key_symbol, modifiers_from_winit, typed_text, LogicalKey,
    PhysicalKey,
};
use buffr::windowing::output::{outputs, Monitor};
use buffr::windowing::pointer::{scroll_event_from_winit, ScrollDelta};
use buffr::windowing::window::{logical_size, SurfaceIds};
use buffr::windowing::{
    ActivationError, AxisDirection, AxisSource, BuildError, CursorIcon, ImeEvent, KeyCode,
    KeyState, Modifiers, PointerButton, PointerButtonState, PointerPosition, Position, Size,
    SurfaceId, ToplevelBuilder, TouchEvent, TouchId, TouchPhase, WindowEvent,
};

fn bridge() -> Bridge {
    let mut b = Bridge::new();
    b.register(7, SurfaceId::from_nonzero(1));
    b
}

fn told(b: &mut Bridge, raw: RawEvent) -> Option<WindowEvent> {
    b.window_event(7, raw).map(|(_, ev)| ev)
}

#[test]
fn events_of_unknown_windows_are_dropped() {
    let mut b = bridge();
    assert!(b.window_event(8, RawEvent::CloseRequested).is_none());
    let (sid, ev) = b.window_event(7, RawEvent::CloseRequested).unwrap();
    assert_eq!(sid, SurfaceId(1));
    assert!(matches!(ev, WindowEvent::CloseRequested));
}

#[test]
fn every_useful_event_is_passed_on() {
    let mut b = bridge();
    let size = Size::new(3, 4);
    assert!(matches!(told(&mut b, RawEvent::Resized(size)), Some(WindowEvent::Resized(s)) if s == size));
    assert!(matches!(
        told(&mut b, RawEvent::ScaleFactorChanged(98_304)),
        Some(WindowEvent::ScaleFactorChanged { new_scale_factor: 98_304, suggested_size })
            if suggested_size == Size::default()
    ));
    assert!(matches!(told(&mut b, RawEvent::RedrawRequested), Some(WindowEvent::RedrawRequested)));
    assert!(matches!(told(&mut b, RawEvent::Occluded(true)), Some(WindowEvent::Occluded(true))));
    assert!(matches!(told(&mut b, RawEvent::CursorLeft), Some(WindowEvent::PointerLeft)));
    assert!(told(&mut b, RawEvent::Ignored).is_none());
    assert!(told(&mut b, RawEvent::Ime(RawIme::Enabled)).is_none());
    assert!(told(&mut b, RawEvent::Ime(RawIme::Disabled)).is_none());
    assert!(matches!(
        told(&mut b, RawEvent::Ime(RawIme::Commit("x".to_string()))),
        Some(WindowEvent::Ime(ImeEvent::Commit(t))) if t == "x"
    ));
    let pre = RawIme::Preedit { text: "ab".to_string(), cursor: Some((1, 2)) };
    assert!(matches!(
        told(&mut b, RawEvent::Ime(pre)),
        Some(WindowEvent::Ime(ImeEvent::Preedit { cursor: Some(1), .. }))
    ));
}

#[test]
fn focus_and_modifiers_are_remembered() {
    let mut b = bridge();
    assert!(matches!(told(&mut b, RawEvent::Focused(true)), Some(WindowEvent::Focused)));
    assert_eq!(b.focused_window, Some(7));
    assert!(matches!(told(&mut b, RawEvent::Focused(false)), Some(WindowEvent::Unfocused)));
    assert_eq!(b.focused_window, None);
    b.focused_window = Some(9);
    told(&mut b, RawEvent::Focused(false));
    assert_eq!(b.focused_window, Some(9));
    let m = modifiers_from_winit(true, false, false, true);
    assert!(matches!(
        told(&mut b, RawEvent::ModifiersChanged(m)),
        Some(WindowEvent::ModifiersChanged(x)) if x == m
    ));
    let press = RawEvent::MouseInput { button: RawButton::Right, pressed: true };
    assert!(matches!(
        told(&mut b, press),
        Some(WindowEvent::PointerButton {
            button: PointerButton::Right,
            state: PointerButtonState::Pressed,
            modifiers,
        }) if modifiers == m
    ));
}

#[test]
fn the_pointer_enters_where_it_was() {
    let mut b = bridge();
    let origin = PointerPosition(Position::new(0, 0));
    assert!(matches!(
        told(&mut b, RawEvent::CursorEntered),
        Some(WindowEvent::PointerEntered { position }) if position == origin
    ));
    let at = Position::new(5, 6);
    assert!(matches!(
        told(&mut b, RawEvent::CursorMoved(at)),
        Some(WindowEvent::PointerMoved { position }) if position == PointerPosition::from(at)
    ));
    assert!(matches!(
        told(&mut b, RawEvent::CursorEntered),
        Some(WindowEvent::PointerEntered { position }) if position == PointerPosition(at)
    ));
}

#[test]
fn buttons_keep_their_names() {
    assert_eq!(mouse_button_from_winit(RawButton::Left), PointerButton::Left);
    assert_eq!(mouse_button_from_winit(RawButton::Middle), PointerButton::Middle);
    assert_eq!(mouse_button_from_winit(RawButton::Back), PointerButton::Back);
    assert_eq!(mouse_button_from_winit(RawButton::Forward), PointerButton::Forward);
    assert_eq!(mouse_button_from_winit(RawButton::Other(9)), PointerButton::Other(9));
}

#[test]
fn the_earliest_deadline_wins_and_is_used_once() {
    let mut b = bridge();
    b.cap_wait(50);
    b.cap_wait(30);
    b.cap_wait(40);
    assert_eq!(b.take_wait(), Some(30));
    assert_eq!(b.take_wait(), None);
}

#[test]
fn wheels_scroll_along_their_larger_part() {
    let one = FIXED_ONE;
    let e = scroll_event_from_winit(ScrollDelta::Lines { dx: 0, dy: -2 * one });
    assert_eq!((e.axis, e.delta), (AxisDirection::Vertical, -40 * one));
    assert_eq!((e.discrete_steps, e.high_res_120), (-2, -240));
    assert_eq!(e.source, AxisSource::Wheel);
    let e = scroll_event_from_winit(ScrollDelta::Lines { dx: 3 * one, dy: one });
    assert_eq!((e.axis, e.delta), (AxisDirection::Horizontal, 60 * one));
    let e = scroll_event_from_winit(ScrollDelta::Pixels { x: 5, y: -5 });
    assert_eq!((e.axis, e.delta), (AxisDirection::Vertical, -5));
    assert_eq!((e.discrete_steps, e.high_res_120), (0, 0));
    assert_eq!(e.source, AxisSource::Finger);
    let e = scroll_event_from_winit(ScrollDelta::Pixels { x: 6, y: -5 });
    assert_eq!((e.axis, e.delta), (AxisDirection::Horizontal, 6));
    let e = scroll_event_from_winit(ScrollDelta::Lines { dx: 0, dy: i64::MAX });
    assert_eq!(e.delta, i64::MAX);
}

#[test]
fn keys_have_numbers_and_names() {
    assert_eq!(evdev_scancode("Escape"), 1);
    assert_eq!(evdev_scancode("KeyA"), 30);
    assert_eq!(evdev_scancode("NoSuchKey"), 0);
    assert_eq!(key_symbol("Enter"), "Return");
    assert_eq!(key_symbol("ArrowUp"), "Up");
    assert_eq!(key_symbol("PageDown"), "Next");
    assert_eq!(key_symbol("F5"), "F5");
}

#[test]
fn control_characters_are_not_typed() {
    assert_eq!(typed_text(Some("a".to_string())), Some("a".to_string()));
    assert_eq!(typed_text(Some("\u{1b}".to_string())), None);
    assert_eq!(typed_text(Some(String::new())), None);
    assert_eq!(typed_text(None), None);
}

#[test]
fn a_key_event_is_put_together() {
    let e = bridge_key_event(
        &PhysicalKey::Code("KeyA".to_string()),
        &LogicalKey::Character("a".to_string()),
        Some("a".to_string()),
        true,
        true,
        Modifiers::default(),
    );
    assert_eq!(e.scancode.0, 30);
    assert!(matches!(&e.key_code, KeyCode::Named(n) if n == "a"));
    assert_eq!(e.state, KeyState::Pressed);
    assert!(e.repeat);
    assert_eq!(e.text.as_deref(), Some("a"));
    let e = bridge_key_event(
        &PhysicalKey::Unidentified,
        &LogicalKey::Dead,
        None,
        false,
        false,
        Modifiers::default(),
    );
    assert_eq!(e.scancode.0, 0);
    assert!(matches!(e.key_code, KeyCode::Sym(0)));
    assert_eq!(e.state, KeyState::Released);
}

#[test]
fn monitors_are_numbered_from_one() {
    let list = outputs(&vec![
        Monitor {
            name: Some("DP-1".to_string()),
            scale: 0,
            size: Size::new(1920, 1080),
            position: (0, 0),
            refresh_mhz: Some(60_000),
        },
        Monitor {
            name: None,
            scale: 2,
            size: Size::new(1, 2),
            position: (1920, 0),
            refresh_mhz: None,
        },
    ]);
    assert_eq!((list[0].id.0, list[0].scale, list[0].refresh_mhz), (1, 1, 60_000));
    assert_eq!(list[0].name.as_deref(), Some("DP-1"));
    assert_eq!((list[1].id.0, list[1].scale, list[1].refresh_mhz), (2, 2, 0));
    assert_eq!(list[1].position, (1920, 0));
}

#[test]
fn windows_are_described_and_numbered() {
    let b = ToplevelBuilder::default()
        .with_title("t".to_string())
        .with_app_id("a".to_string())
        .with_initial_size(Size::new(1, 2))
        .with_min_size(Size::new(3, 4))
        .with_max_size(Size::new(5, 6));
    assert_eq!(b.title.as_deref(), Some("t"));
    assert_eq!(b.app_id.as_deref(), Some("a"));
    assert_eq!(b.initial_size, Some(Size::new(1, 2)));
    assert_eq!(b.min_size, Some(Size::new(3, 4)));
    assert_eq!(b.max_size, Some(Size::new(5, 6)));
    let mut ids = SurfaceIds::new();
    assert_eq!(
        ids.build_window(false).unwrap_err().message(),
        "window creation only valid inside an ApplicationHandler callback"
    );
    assert_eq!(ids.build_window(true).unwrap(), SurfaceId(1));
    assert_eq!(ids.build_window(true).unwrap(), SurfaceId(2));
    assert_eq!(logical_size(0, 9), Size::new(1, 9));
}

#[test]
fn failures_have_words() {
    assert_eq!(SendError(5).message(), "event loop closed");
    assert_eq!(BuildError("why".to_string()).message(), "why");
    assert_eq!(ActivationError::Unsupported.message(), "activation not supported");
    assert_eq!(ActivationError::NoInputSerial.message(), "no input serial available");
}

#[test]
fn cursors_and_touches_have_names() {
    assert_eq!(CursorIcon::default(), CursorIcon::Default);
    assert_eq!(CursorIcon::Pointer.to_winit(), "pointer");
    assert_eq!(CursorIcon::NwseResize.to_winit(), "nwse-resize");
    let t = TouchEvent {
        id: TouchId(1),
        phase: TouchPhase::Started,
        position: Position::new(1, 2),
    };
    assert_eq!(t.phase, TouchPhase::Started);
}
