//! Keyboard input.
//!
//! Keys arrive under the names that the windowing system gives them: a physical
//! key such as `KeyA` or `Digit1`, a named logical key such as `Enter`.
use vstd::prelude::*;
use vstd::string::*;
use crate::text::{chars_of, same_text};

verus! {

/// Modifier keys that are held.
#[derive(Debug, Clone, Copy, PartialEq, Eq, Hash, Structural)]
pub struct Modifiers {
    pub shift: bool,
    pub ctrl: bool,
    pub alt: bool,
    pub logo: bool,
    pub caps_lock: bool,
    pub num_lock: bool,
}

impl Default for Modifiers {
    fn default() -> (r: Self)
        ensures
            r == modifiers(false, false, false, false),
    {
        modifiers_from_winit(false, false, false, false)
    }
}

/// These modifiers, and no locks.
pub open spec fn modifiers(shift: bool, ctrl: bool, alt: bool, logo: bool) -> Modifiers {
    Modifiers { shift, ctrl, alt, logo, caps_lock: false, num_lock: false }
}

/// The modifiers of a key event. Locks are not tracked.
pub fn modifiers_from_winit(shift: bool, ctrl: bool, alt: bool, logo: bool) -> (r: Modifiers)
    ensures
        r == modifiers(shift, ctrl, alt, logo),
{
    Modifiers { shift, ctrl, alt, logo, caps_lock: false, num_lock: false }
}

/// The number of a physical key.
#[derive(Debug, Clone, Copy, PartialEq, Eq, Hash, Structural)]
pub struct ScanCode(pub u32);

/// What a key means under the current layout.
#[derive(Debug)]
pub enum KeyCode {
    /// A name or a character.
    Named(String),
    /// A symbol number; zero where there is none.
    Sym(u32),
}

/// Whether a key went down or up.
#[derive(Debug, Clone, Copy, PartialEq, Eq, Hash, Structural)]
pub enum KeyState {
    Pressed,
    Released,
}

/// A key event.
#[derive(Debug)]
pub struct KeyEvent {
    pub scancode: ScanCode,
    pub key_code: KeyCode,
    pub modifiers: Modifiers,
    pub state: KeyState,
    pub text: Option<String>,
    pub repeat: bool,
}

/// A physical key.
#[derive(Debug)]
pub enum PhysicalKey {
    /// A known key, by its name.
    Code(String),
    Unidentified,
}

/// A logical key.
#[derive(Debug)]
pub enum LogicalKey {
    /// A named key, by its name.
    Named(String),
    /// A key that types this.
    Character(String),
    Unidentified,
    Dead,
}

/// The evdev number of a physical key; zero where it has none.
pub open spec fn evdev_number(name: Seq<char>) -> u32 {
    if name == "Escape"@ {
        1
    } else if name == "Digit1"@ {
        2
    } else if name == "Digit2"@ {
        3
    } else if name == "Digit3"@ {
        4
    } else if name == "Digit4"@ {
        5
    } else if name == "Digit5"@ {
        6
    } else if name == "Digit6"@ {
        7
    } else if name == "Digit7"@ {
        8
    } else if name == "Digit8"@ {
        9
    } else if name == "Digit9"@ {
        10
    } else if name == "Digit0"@ {
        11
    } else if name == "Minus"@ {
        12
    } else if name == "Equal"@ {
        13
    } else if name == "Backspace"@ {
        14
    } else if name == "Tab"@ {
        15
    } else if name == "KeyQ"@ {
        16
    } else if name == "KeyW"@ {
        17
    } else if name == "KeyE"@ {
        18
    } else if name == "KeyR"@ {
        19
    } else if name == "KeyT"@ {
        20
    } else if name == "KeyY"@ {
        21
    } else if name == "KeyU"@ {
        22
    } else if name == "KeyI"@ {
        23
    } else if name == "KeyO"@ {
        24
    } else if name == "KeyP"@ {
        25
    } else if name == "BracketLeft"@ {
        26
    } else if name == "BracketRight"@ {
        27
    } else if name == "Enter"@ {
        28
    } else if name == "ControlLeft"@ {
        29
    } else if name == "KeyA"@ {
        30
    } else if name == "KeyS"@ {
        31
    } else if name == "KeyD"@ {
        32
    } else if name == "KeyF"@ {
        33
    } else if name == "KeyG"@ {
        34
    } else if name == "KeyH"@ {
        35
    } else if name == "KeyJ"@ {
        36
    } else if name == "KeyK"@ {
        37
    } else if name == "KeyL"@ {
        38
    } else if name == "Semicolon"@ {
        39
    } else if name == "Quote"@ {
        40
    } else if name == "Backquote"@ {
        41
    } else if name == "ShiftLeft"@ {
        42
    } else if name == "Backslash"@ {
        43
    } else if name == "KeyZ"@ {
        44
    } else if name == "KeyX"@ {
        45
    } else if name == "KeyC"@ {
        46
    } else if name == "KeyV"@ {
        47
    } else if name == "KeyB"@ {
        48
    } else if name == "KeyN"@ {
        49
    } else if name == "KeyM"@ {
        50
    } else if name == "Comma"@ {
        51
    } else if name == "Period"@ {
        52
    } else if name == "Slash"@ {
        53
    } else if name == "ShiftRight"@ {
        54
    } else if name == "AltLeft"@ {
        56
    } else if name == "Space"@ {
        57
    } else if name == "CapsLock"@ {
        58
    } else if name == "F1"@ {
        59
    } else if name == "F2"@ {
        60
    } else if name == "F3"@ {
        61
    } else if name == "F4"@ {
        62
    } else if name == "F5"@ {
        63
    } else if name == "F6"@ {
        64
    } else if name == "F7"@ {
        65
    } else if name == "F8"@ {
        66
    } else if name == "F9"@ {
        67
    } else if name == "F10"@ {
        68
    } else if name == "F11"@ {
        87
    } else if name == "F12"@ {
        88
    } else if name == "Home"@ {
        102
    } else if name == "ArrowUp"@ {
        103
    } else if name == "PageUp"@ {
        104
    } else if name == "ArrowLeft"@ {
        105
    } else if name == "ArrowRight"@ {
        106
    } else if name == "End"@ {
        107
    } else if name == "ArrowDown"@ {
        108
    } else if name == "PageDown"@ {
        109
    } else if name == "Insert"@ {
        110
    } else if name == "Delete"@ {
        111
    } else if name == "ControlRight"@ {
        97
    } else if name == "AltRight"@ {
        100
    } else if name == "SuperLeft"@ {
        125
    } else if name == "SuperRight"@ {
        126
    } else {
        0
    }
}

/// The evdev number of a physical key, by its name.
pub fn evdev_scancode(name: &str) -> (r: u32)
    ensures
        r == evdev_number(name@),
{
    if same_text(name, "Escape") {
        1
    } else if same_text(name, "Digit1") {
        2
    } else if same_text(name, "Digit2") {
        3
    } else if same_text(name, "Digit3") {
        4
    } else if same_text(name, "Digit4") {
        5
    } else if same_text(name, "Digit5") {
        6
    } else if same_text(name, "Digit6") {
        7
    } else if same_text(name, "Digit7") {
        8
    } else if same_text(name, "Digit8") {
        9
    } else if same_text(name, "Digit9") {
        10
    } else if same_text(name, "Digit0") {
        11
    } else if same_text(name, "Minus") {
        12
    } else if same_text(name, "Equal") {
        13
    } else if same_text(name, "Backspace") {
        14
    } else if same_text(name, "Tab") {
        15
    } else if same_text(name, "KeyQ") {
        16
    } else if same_text(name, "KeyW") {
        17
    } else if same_text(name, "KeyE") {
        18
    } else if same_text(name, "KeyR") {
        19
    } else if same_text(name, "KeyT") {
        20
    } else if same_text(name, "KeyY") {
        21
    } else if same_text(name, "KeyU") {
        22
    } else if same_text(name, "KeyI") {
        23
    } else if same_text(name, "KeyO") {
        24
    } else if same_text(name, "KeyP") {
        25
    } else if same_text(name, "BracketLeft") {
        26
    } else if same_text(name, "BracketRight") {
        27
    } else if same_text(name, "Enter") {
        28
    } else if same_text(name, "ControlLeft") {
        29
    } else if same_text(name, "KeyA") {
        30
    } else if same_text(name, "KeyS") {
        31
    } else if same_text(name, "KeyD") {
        32
    } else if same_text(name, "KeyF") {
        33
    } else if same_text(name, "KeyG") {
        34
    } else if same_text(name, "KeyH") {
        35
    } else if same_text(name, "KeyJ") {
        36
    } else if same_text(name, "KeyK") {
        37
    } else if same_text(name, "KeyL") {
        38
    } else if same_text(name, "Semicolon") {
        39
    } else if same_text(name, "Quote") {
        40
    } else if same_text(name, "Backquote") {
        41
    } else if same_text(name, "ShiftLeft") {
        42
    } else if same_text(name, "Backslash") {
        43
    } else if same_text(name, "KeyZ") {
        44
    } else if same_text(name, "KeyX") {
        45
    } else if same_text(name, "KeyC") {
        46
    } else if same_text(name, "KeyV") {
        47
    } else if same_text(name, "KeyB") {
        48
    } else if same_text(name, "KeyN") {
        49
    } else if same_text(name, "KeyM") {
        50
    } else if same_text(name, "Comma") {
        51
    } else if same_text(name, "Period") {
        52
    } else if same_text(name, "Slash") {
        53
    } else if same_text(name, "ShiftRight") {
        54
    } else if same_text(name, "AltLeft") {
        56
    } else if same_text(name, "Space") {
        57
    } else if same_text(name, "CapsLock") {
        58
    } else if same_text(name, "F1") {
        59
    } else if same_text(name, "F2") {
        60
    } else if same_text(name, "F3") {
        61
    } else if same_text(name, "F4") {
        62
    } else if same_text(name, "F5") {
        63
    } else if same_text(name, "F6") {
        64
    } else if same_text(name, "F7") {
        65
    } else if same_text(name, "F8") {
        66
    } else if same_text(name, "F9") {
        67
    } else if same_text(name, "F10") {
        68
    } else if same_text(name, "F11") {
        87
    } else if same_text(name, "F12") {
        88
    } else if same_text(name, "Home") {
        102
    } else if same_text(name, "ArrowUp") {
        103
    } else if same_text(name, "PageUp") {
        104
    } else if same_text(name, "ArrowLeft") {
        105
    } else if same_text(name, "ArrowRight") {
        106
    } else if same_text(name, "End") {
        107
    } else if same_text(name, "ArrowDown") {
        108
    } else if same_text(name, "PageDown") {
        109
    } else if same_text(name, "Insert") {
        110
    } else if same_text(name, "Delete") {
        111
    } else if same_text(name, "ControlRight") {
        97
    } else if same_text(name, "AltRight") {
        100
    } else if same_text(name, "SuperLeft") {
        125
    } else if same_text(name, "SuperRight") {
        126
    } else {
        0
    }
}

/// The number of a physical key.
pub fn scancode_from_winit_physical(physical: &PhysicalKey) -> (r: ScanCode)
    ensures
        r.0 == match physical {
            PhysicalKey::Code(name) => evdev_number(name@),
            PhysicalKey::Unidentified => 0,
        },
{
    match physical {
        PhysicalKey::Code(name) => ScanCode(evdev_scancode(name.as_str())),
        PhysicalKey::Unidentified => ScanCode(0),
    }
}

/// The symbol name of a named key; its own name where it has none.
pub open spec fn symbol_name(name: Seq<char>) -> Seq<char> {
    if name == "Escape"@ {
        "Escape"@
    } else if name == "Enter"@ {
        "Return"@
    } else if name == "Tab"@ {
        "Tab"@
    } else if name == "Backspace"@ {
        "BackSpace"@
    } else if name == "Delete"@ {
        "Delete"@
    } else if name == "ArrowUp"@ {
        "Up"@
    } else if name == "ArrowDown"@ {
        "Down"@
    } else if name == "ArrowLeft"@ {
        "Left"@
    } else if name == "ArrowRight"@ {
        "Right"@
    } else if name == "Home"@ {
        "Home"@
    } else if name == "End"@ {
        "End"@
    } else if name == "PageUp"@ {
        "Prior"@
    } else if name == "PageDown"@ {
        "Next"@
    } else if name == "Insert"@ {
        "Insert"@
    } else if name == "F1"@ {
        "F1"@
    } else if name == "F2"@ {
        "F2"@
    } else if name == "F3"@ {
        "F3"@
    } else if name == "F4"@ {
        "F4"@
    } else if name == "F5"@ {
        "F5"@
    } else if name == "F6"@ {
        "F6"@
    } else if name == "F7"@ {
        "F7"@
    } else if name == "F8"@ {
        "F8"@
    } else if name == "F9"@ {
        "F9"@
    } else if name == "F10"@ {
        "F10"@
    } else if name == "F11"@ {
        "F11"@
    } else if name == "F12"@ {
        "F12"@
    } else if name == "Space"@ {
        " "@
    } else if name == "Shift"@ {
        "Shift_L"@
    } else if name == "Control"@ {
        "Control_L"@
    } else if name == "Alt"@ {
        "Alt_L"@
    } else if name == "Super"@ {
        "Super_L"@
    } else if name == "CapsLock"@ {
        "Caps_Lock"@
    } else if name == "NumLock"@ {
        "Num_Lock"@
    } else {
        name
    }
}

/// The symbol name of a named key.
pub fn key_symbol(name: &str) -> (r: String)
    ensures
        r@ == symbol_name(name@),
{
    if same_text(name, "Escape") {
        "Escape".to_owned()
    } else if same_text(name, "Enter") {
        "Return".to_owned()
    } else if same_text(name, "Tab") {
        "Tab".to_owned()
    } else if same_text(name, "Backspace") {
        "BackSpace".to_owned()
    } else if same_text(name, "Delete") {
        "Delete".to_owned()
    } else if same_text(name, "ArrowUp") {
        "Up".to_owned()
    } else if same_text(name, "ArrowDown") {
        "Down".to_owned()
    } else if same_text(name, "ArrowLeft") {
        "Left".to_owned()
    } else if same_text(name, "ArrowRight") {
        "Right".to_owned()
    } else if same_text(name, "Home") {
        "Home".to_owned()
    } else if same_text(name, "End") {
        "End".to_owned()
    } else if same_text(name, "PageUp") {
        "Prior".to_owned()
    } else if same_text(name, "PageDown") {
        "Next".to_owned()
    } else if same_text(name, "Insert") {
        "Insert".to_owned()
    } else if same_text(name, "F1") {
        "F1".to_owned()
    } else if same_text(name, "F2") {
        "F2".to_owned()
    } else if same_text(name, "F3") {
        "F3".to_owned()
    } else if same_text(name, "F4") {
        "F4".to_owned()
    } else if same_text(name, "F5") {
        "F5".to_owned()
    } else if same_text(name, "F6") {
        "F6".to_owned()
    } else if same_text(name, "F7") {
        "F7".to_owned()
    } else if same_text(name, "F8") {
        "F8".to_owned()
    } else if same_text(name, "F9") {
        "F9".to_owned()
    } else if same_text(name, "F10") {
        "F10".to_owned()
    } else if same_text(name, "F11") {
        "F11".to_owned()
    } else if same_text(name, "F12") {
        "F12".to_owned()
    } else if same_text(name, "Space") {
        " ".to_owned()
    } else if same_text(name, "Shift") {
        "Shift_L".to_owned()
    } else if same_text(name, "Control") {
        "Control_L".to_owned()
    } else if same_text(name, "Alt") {
        "Alt_L".to_owned()
    } else if same_text(name, "Super") {
        "Super_L".to_owned()
    } else if same_text(name, "CapsLock") {
        "Caps_Lock".to_owned()
    } else if same_text(name, "NumLock") {
        "Num_Lock".to_owned()
    } else {
        name.to_owned()
    }
}

/// What a logical key means.
pub fn key_code_from_winit_logical(logical: &LogicalKey) -> (r: KeyCode)
    ensures
        match logical {
            LogicalKey::Named(name) => r matches KeyCode::Named(n) && n@ == symbol_name(name@),
            LogicalKey::Character(s) => r matches KeyCode::Named(n) && n@ == s@,
            LogicalKey::Unidentified => r == KeyCode::Sym(0),
            LogicalKey::Dead => r == KeyCode::Sym(0),
        },
{
    match logical {
        LogicalKey::Named(name) => KeyCode::Named(key_symbol(name.as_str())),
        LogicalKey::Character(s) => KeyCode::Named(s.clone()),
        LogicalKey::Unidentified => KeyCode::Sym(0),
        LogicalKey::Dead => KeyCode::Sym(0),
    }
}

/// Whether a character is an ASCII control.
pub open spec fn ascii_control(c: char) -> bool {
    (c as int) < 0x20 || c as int == 0x7f
}

/// Whether a character is an ASCII control.
fn is_ascii_control(c: char) -> (r: bool)
    ensures
        r == ascii_control(c),
{
    let n: u32 = c as u32;
    n < 0x20 || n == 0x7f
}

/// Whether a text types something: it is not empty, and not a single control
/// character.
pub open spec fn types_something(s: Seq<char>) -> bool {
    s.len() > 0 && !(s.len() == 1 && ascii_control(s[0]))
}

/// The text a key types, if it types something.
pub fn typed_text(text: Option<String>) -> (r: Option<String>)
    ensures
        match text {
            Some(t) => if types_something(t@) {
                r == Some(t)
            } else {
                r is None
            },
            None => r is None,
        },
{
    match text {
        Some(t) => {
            let v = chars_of(t.as_str());
            if v.len() == 0 {
                return None;
            }
            if v.len() == 1 {
                if is_ascii_control(v[0]) {
                    return None;
                }
            }
            Some(t)
        },
        None => None,
    }
}

/// The event of a key.
pub fn bridge_key_event(
    physical: &PhysicalKey,
    logical: &LogicalKey,
    text: Option<String>,
    pressed: bool,
    repeat: bool,
    modifiers: Modifiers,
) -> (r: KeyEvent)
    ensures
        r.scancode.0 == match physical {
            PhysicalKey::Code(name) => evdev_number(name@),
            PhysicalKey::Unidentified => 0,
        },
        match logical {
            LogicalKey::Named(name) => r.key_code matches KeyCode::Named(n) && n@ == symbol_name(
                name@,
            ),
            LogicalKey::Character(s) => r.key_code matches KeyCode::Named(n) && n@ == s@,
            LogicalKey::Unidentified => r.key_code == KeyCode::Sym(0),
            LogicalKey::Dead => r.key_code == KeyCode::Sym(0),
        },
        match text {
            Some(t) => if types_something(t@) {
                r.text == Some(t)
            } else {
                r.text is None
            },
            None => r.text is None,
        },
        r.state == if pressed { KeyState::Pressed } else { KeyState::Released },
        r.repeat == repeat,
        r.modifiers == modifiers,
{
    KeyEvent {
        scancode: scancode_from_winit_physical(physical),
        key_code: key_code_from_winit_logical(logical),
        modifiers,
        state: if pressed { KeyState::Pressed } else { KeyState::Released },
        text: typed_text(text),
        repeat,
    }
}

/// Law: a physical key has the number that evdev gives it: no two keys share one,
/// each number belongs to the key that bears it, and every key that is known has
/// one.
pub proof fn law_keys_have_their_evdev_numbers(name: Seq<char>)
    ensures
        evdev_number(name) == 1 ==> name == "Escape"@,
        evdev_number(name) == 2 ==> name == "Digit1"@,
        evdev_number(name) == 3 ==> name == "Digit2"@,
        evdev_number(name) == 4 ==> name == "Digit3"@,
        evdev_number(name) == 5 ==> name == "Digit4"@,
        evdev_number(name) == 6 ==> name == "Digit5"@,
        evdev_number(name) == 7 ==> name == "Digit6"@,
        evdev_number(name) == 8 ==> name == "Digit7"@,
        evdev_number(name) == 9 ==> name == "Digit8"@,
        evdev_number(name) == 10 ==> name == "Digit9"@,
        evdev_number(name) == 11 ==> name == "Digit0"@,
        evdev_number(name) == 12 ==> name == "Minus"@,
        evdev_number(name) == 13 ==> name == "Equal"@,
        evdev_number(name) == 14 ==> name == "Backspace"@,
        evdev_number(name) == 15 ==> name == "Tab"@,
        evdev_number(name) == 16 ==> name == "KeyQ"@,
        evdev_number(name) == 17 ==> name == "KeyW"@,
        evdev_number(name) == 18 ==> name == "KeyE"@,
        evdev_number(name) == 19 ==> name == "KeyR"@,
        evdev_number(name) == 20 ==> name == "KeyT"@,
        evdev_number(name) == 21 ==> name == "KeyY"@,
        evdev_number(name) == 22 ==> name == "KeyU"@,
        evdev_number(name) == 23 ==> name == "KeyI"@,
        evdev_number(name) == 24 ==> name == "KeyO"@,
        evdev_number(name) == 25 ==> name == "KeyP"@,
        evdev_number(name) == 26 ==> name == "BracketLeft"@,
        evdev_number(name) == 27 ==> name == "BracketRight"@,
        evdev_number(name) == 28 ==> name == "Enter"@,
        evdev_number(name) == 29 ==> name == "ControlLeft"@,
        evdev_number(name) == 30 ==> name == "KeyA"@,
        evdev_number(name) == 31 ==> name == "KeyS"@,
        evdev_number(name) == 32 ==> name == "KeyD"@,
        evdev_number(name) == 33 ==> name == "KeyF"@,
        evdev_number(name) == 34 ==> name == "KeyG"@,
        evdev_number(name) == 35 ==> name == "KeyH"@,
        evdev_number(name) == 36 ==> name == "KeyJ"@,
        evdev_number(name) == 37 ==> name == "KeyK"@,
        evdev_number(name) == 38 ==> name == "KeyL"@,
        evdev_number(name) == 39 ==> name == "Semicolon"@,
        evdev_number(name) == 40 ==> name == "Quote"@,
        evdev_number(name) == 41 ==> name == "Backquote"@,
        evdev_number(name) == 42 ==> name == "ShiftLeft"@,
        evdev_number(name) == 43 ==> name == "Backslash"@,
        evdev_number(name) == 44 ==> name == "KeyZ"@,
        evdev_number(name) == 45 ==> name == "KeyX"@,
        evdev_number(name) == 46 ==> name == "KeyC"@,
        evdev_number(name) == 47 ==> name == "KeyV"@,
        evdev_number(name) == 48 ==> name == "KeyB"@,
        evdev_number(name) == 49 ==> name == "KeyN"@,
        evdev_number(name) == 50 ==> name == "KeyM"@,
        evdev_number(name) == 51 ==> name == "Comma"@,
        evdev_number(name) == 52 ==> name == "Period"@,
        evdev_number(name) == 53 ==> name == "Slash"@,
        evdev_number(name) == 54 ==> name == "ShiftRight"@,
        evdev_number(name) == 56 ==> name == "AltLeft"@,
        evdev_number(name) == 57 ==> name == "Space"@,
        evdev_number(name) == 58 ==> name == "CapsLock"@,
        evdev_number(name) == 59 ==> name == "F1"@,
        evdev_number(name) == 60 ==> name == "F2"@,
        evdev_number(name) == 61 ==> name == "F3"@,
        evdev_number(name) == 62 ==> name == "F4"@,
        evdev_number(name) == 63 ==> name == "F5"@,
        evdev_number(name) == 64 ==> name == "F6"@,
        evdev_number(name) == 65 ==> name == "F7"@,
        evdev_number(name) == 66 ==> name == "F8"@,
        evdev_number(name) == 67 ==> name == "F9"@,
        evdev_number(name) == 68 ==> name == "F10"@,
        evdev_number(name) == 87 ==> name == "F11"@,
        evdev_number(name) == 88 ==> name == "F12"@,
        evdev_number(name) == 102 ==> name == "Home"@,
        evdev_number(name) == 103 ==> name == "ArrowUp"@,
        evdev_number(name) == 104 ==> name == "PageUp"@,
        evdev_number(name) == 105 ==> name == "ArrowLeft"@,
        evdev_number(name) == 106 ==> name == "ArrowRight"@,
        evdev_number(name) == 107 ==> name == "End"@,
        evdev_number(name) == 108 ==> name == "ArrowDown"@,
        evdev_number(name) == 109 ==> name == "PageDown"@,
        evdev_number(name) == 110 ==> name == "Insert"@,
        evdev_number(name) == 111 ==> name == "Delete"@,
        evdev_number(name) == 97 ==> name == "ControlRight"@,
        evdev_number(name) == 100 ==> name == "AltRight"@,
        evdev_number(name) == 125 ==> name == "SuperLeft"@,
        evdev_number(name) == 126 ==> name == "SuperRight"@,
        name == "Escape"@ ==> evdev_number(name) != 0,
        name == "Digit1"@ ==> evdev_number(name) != 0,
        name == "Digit2"@ ==> evdev_number(name) != 0,
        name == "Digit3"@ ==> evdev_number(name) != 0,
        name == "Digit4"@ ==> evdev_number(name) != 0,
        name == "Digit5"@ ==> evdev_number(name) != 0,
        name == "Digit6"@ ==> evdev_number(name) != 0,
        name == "Digit7"@ ==> evdev_number(name) != 0,
        name == "Digit8"@ ==> evdev_number(name) != 0,
        name == "Digit9"@ ==> evdev_number(name) != 0,
        name == "Digit0"@ ==> evdev_number(name) != 0,
        name == "Minus"@ ==> evdev_number(name) != 0,
        name == "Equal"@ ==> evdev_number(name) != 0,
        name == "Backspace"@ ==> evdev_number(name) != 0,
        name == "Tab"@ ==> evdev_number(name) != 0,
        name == "KeyQ"@ ==> evdev_number(name) != 0,
        name == "KeyW"@ ==> evdev_number(name) != 0,
        name == "KeyE"@ ==> evdev_number(name) != 0,
        name == "KeyR"@ ==> evdev_number(name) != 0,
        name == "KeyT"@ ==> evdev_number(name) != 0,
        name == "KeyY"@ ==> evdev_number(name) != 0,
        name == "KeyU"@ ==> evdev_number(name) != 0,
        name == "KeyI"@ ==> evdev_number(name) != 0,
        name == "KeyO"@ ==> evdev_number(name) != 0,
        name == "KeyP"@ ==> evdev_number(name) != 0,
        name == "BracketLeft"@ ==> evdev_number(name) != 0,
        name == "BracketRight"@ ==> evdev_number(name) != 0,
        name == "Enter"@ ==> evdev_number(name) != 0,
        name == "ControlLeft"@ ==> evdev_number(name) != 0,
        name == "KeyA"@ ==> evdev_number(name) != 0,
        name == "KeyS"@ ==> evdev_number(name) != 0,
        name == "KeyD"@ ==> evdev_number(name) != 0,
        name == "KeyF"@ ==> evdev_number(name) != 0,
        name == "KeyG"@ ==> evdev_number(name) != 0,
        name == "KeyH"@ ==> evdev_number(name) != 0,
        name == "KeyJ"@ ==> evdev_number(name) != 0,
        name == "KeyK"@ ==> evdev_number(name) != 0,
        name == "KeyL"@ ==> evdev_number(name) != 0,
        name == "Semicolon"@ ==> evdev_number(name) != 0,
        name == "Quote"@ ==> evdev_number(name) != 0,
        name == "Backquote"@ ==> evdev_number(name) != 0,
        name == "ShiftLeft"@ ==> evdev_number(name) != 0,
        name == "Backslash"@ ==> evdev_number(name) != 0,
        name == "KeyZ"@ ==> evdev_number(name) != 0,
        name == "KeyX"@ ==> evdev_number(name) != 0,
        name == "KeyC"@ ==> evdev_number(name) != 0,
        name == "KeyV"@ ==> evdev_number(name) != 0,
        name == "KeyB"@ ==> evdev_number(name) != 0,
        name == "KeyN"@ ==> evdev_number(name) != 0,
        name == "KeyM"@ ==> evdev_number(name) != 0,
        name == "Comma"@ ==> evdev_number(name) != 0,
        name == "Period"@ ==> evdev_number(name) != 0,
        name == "Slash"@ ==> evdev_number(name) != 0,
        name == "ShiftRight"@ ==> evdev_number(name) != 0,
        name == "AltLeft"@ ==> evdev_number(name) != 0,
        name == "Space"@ ==> evdev_number(name) != 0,
        name == "CapsLock"@ ==> evdev_number(name) != 0,
        name == "F1"@ ==> evdev_number(name) != 0,
        name == "F2"@ ==> evdev_number(name) != 0,
        name == "F3"@ ==> evdev_number(name) != 0,
        name == "F4"@ ==> evdev_number(name) != 0,
        name == "F5"@ ==> evdev_number(name) != 0,
        name == "F6"@ ==> evdev_number(name) != 0,
        name == "F7"@ ==> evdev_number(name) != 0,
        name == "F8"@ ==> evdev_number(name) != 0,
        name == "F9"@ ==> evdev_number(name) != 0,
        name == "F10"@ ==> evdev_number(name) != 0,
        name == "F11"@ ==> evdev_number(name) != 0,
        name == "F12"@ ==> evdev_number(name) != 0,
        name == "Home"@ ==> evdev_number(name) != 0,
        name == "ArrowUp"@ ==> evdev_number(name) != 0,
        name == "PageUp"@ ==> evdev_number(name) != 0,
        name == "ArrowLeft"@ ==> evdev_number(name) != 0,
        name == "ArrowRight"@ ==> evdev_number(name) != 0,
        name == "End"@ ==> evdev_number(name) != 0,
        name == "ArrowDown"@ ==> evdev_number(name) != 0,
        name == "PageDown"@ ==> evdev_number(name) != 0,
        name == "Insert"@ ==> evdev_number(name) != 0,
        name == "Delete"@ ==> evdev_number(name) != 0,
        name == "ControlRight"@ ==> evdev_number(name) != 0,
        name == "AltRight"@ ==> evdev_number(name) != 0,
        name == "SuperLeft"@ ==> evdev_number(name) != 0,
        name == "SuperRight"@ ==> evdev_number(name) != 0,
{
}

/// Law: named keys go by the names of their symbols, and a key without such a name
/// goes by its own.
pub proof fn law_keys_go_by_their_symbols(name: Seq<char>)
    ensures
        name == "Enter"@ ==> symbol_name(name) == "Return"@,
        name == "Backspace"@ ==> symbol_name(name) == "BackSpace"@,
        name == "ArrowUp"@ ==> symbol_name(name) == "Up"@,
        name == "ArrowDown"@ ==> symbol_name(name) == "Down"@,
        name == "ArrowLeft"@ ==> symbol_name(name) == "Left"@,
        name == "ArrowRight"@ ==> symbol_name(name) == "Right"@,
        name == "PageUp"@ ==> symbol_name(name) == "Prior"@,
        name == "PageDown"@ ==> symbol_name(name) == "Next"@,
        name == "Space"@ ==> symbol_name(name) == " "@,
        name == "Shift"@ ==> symbol_name(name) == "Shift_L"@,
        name == "Control"@ ==> symbol_name(name) == "Control_L"@,
        name == "Alt"@ ==> symbol_name(name) == "Alt_L"@,
        name == "Super"@ ==> symbol_name(name) == "Super_L"@,
        name == "CapsLock"@ ==> symbol_name(name) == "Caps_Lock"@,
        name == "NumLock"@ ==> symbol_name(name) == "Num_Lock"@,
        name != "Enter"@ && name != "Backspace"@ && name != "ArrowUp"@ && name != "ArrowDown"@ && name != "ArrowLeft"@ && name != "ArrowRight"@ && name != "PageUp"@ && name != "PageDown"@ && name != "Space"@ && name != "Shift"@ && name != "Control"@ && name != "Alt"@ && name != "Super"@ && name != "CapsLock"@ && name != "NumLock"@ ==> symbol_name(name) == name,
{
    reveal_strlit("Escape");
    reveal_strlit("Enter");
    reveal_strlit("Tab");
    reveal_strlit("Backspace");
    reveal_strlit("Delete");
    reveal_strlit("ArrowUp");
    reveal_strlit("ArrowDown");
    reveal_strlit("ArrowLeft");
    reveal_strlit("ArrowRight");
    reveal_strlit("Home");
    reveal_strlit("End");
    reveal_strlit("PageUp");
    reveal_strlit("PageDown");
    reveal_strlit("Insert");
    reveal_strlit("F1");
    reveal_strlit("F2");
    reveal_strlit("F3");
    reveal_strlit("F4");
    reveal_strlit("F5");
    reveal_strlit("F6");
    reveal_strlit("F7");
    reveal_strlit("F8");
    reveal_strlit("F9");
    reveal_strlit("F10");
    reveal_strlit("F11");
    reveal_strlit("F12");
    reveal_strlit("Space");
    reveal_strlit("Shift");
    reveal_strlit("Control");
    reveal_strlit("Alt");
    reveal_strlit("Super");
    reveal_strlit("CapsLock");
    reveal_strlit("NumLock");
    assert("Escape"@.len() == 6 && "Escape"@[0] == 'E' && "Escape"@[5] == 'e' && "Enter"@.len() == 5 && "Enter"@[0] == 'E' && "Enter"@[4] == 'r' && "Tab"@.len() == 3 && "Tab"@[0] == 'T' && "Tab"@[2] == 'b' && "Backspace"@.len() == 9 && "Backspace"@[0] == 'B' && "Backspace"@[8] == 'e' && "Delete"@.len() == 6 && "Delete"@[0] == 'D' && "Delete"@[5] == 'e' && "ArrowUp"@.len() == 7 && "ArrowUp"@[0] == 'A' && "ArrowUp"@[6] == 'p' && "ArrowDown"@.len() == 9 && "ArrowDown"@[0] == 'A' && "ArrowDown"@[8] == 'n' && "ArrowLeft"@.len() == 9 && "ArrowLeft"@[0] == 'A' && "ArrowLeft"@[8] == 't' && "ArrowRight"@.len() == 10 && "ArrowRight"@[0] == 'A' && "ArrowRight"@[9] == 't' && "Home"@.len() == 4 && "Home"@[0] == 'H' && "Home"@[3] == 'e' && "End"@.len() == 3 && "End"@[0] == 'E' && "End"@[2] == 'd' && "PageUp"@.len() == 6 && "PageUp"@[0] == 'P' && "PageUp"@[5] == 'p' && "PageDown"@.len() == 8 && "PageDown"@[0] == 'P' && "PageDown"@[7] == 'n' && "Insert"@.len() == 6 && "Insert"@[0] == 'I' && "Insert"@[5] == 't' && "F1"@.len() == 2 && "F1"@[0] == 'F' && "F1"@[1] == '1' && "F2"@.len() == 2 && "F2"@[0] == 'F' && "F2"@[1] == '2' && "F3"@.len() == 2 && "F3"@[0] == 'F' && "F3"@[1] == '3' && "F4"@.len() == 2 && "F4"@[0] == 'F' && "F4"@[1] == '4' && "F5"@.len() == 2 && "F5"@[0] == 'F' && "F5"@[1] == '5' && "F6"@.len() == 2 && "F6"@[0] == 'F' && "F6"@[1] == '6' && "F7"@.len() == 2 && "F7"@[0] == 'F' && "F7"@[1] == '7' && "F8"@.len() == 2 && "F8"@[0] == 'F' && "F8"@[1] == '8' && "F9"@.len() == 2 && "F9"@[0] == 'F' && "F9"@[1] == '9' && "F10"@.len() == 3 && "F10"@[0] == 'F' && "F10"@[2] == '0' && "F11"@.len() == 3 && "F11"@[0] == 'F' && "F11"@[2] == '1' && "F12"@.len() == 3 && "F12"@[0] == 'F' && "F12"@[2] == '2' && "Space"@.len() == 5 && "Space"@[0] == 'S' && "Space"@[4] == 'e' && "Shift"@.len() == 5 && "Shift"@[0] == 'S' && "Shift"@[4] == 't' && "Control"@.len() == 7 && "Control"@[0] == 'C' && "Control"@[6] == 'l' && "Alt"@.len() == 3 && "Alt"@[0] == 'A' && "Alt"@[2] == 't' && "Super"@.len() == 5 && "Super"@[0] == 'S' && "Super"@[4] == 'r' && "CapsLock"@.len() == 8 && "CapsLock"@[0] == 'C' && "CapsLock"@[7] == 'k' && "NumLock"@.len() == 7 && "NumLock"@[0] == 'N' && "NumLock"@[6] == 'k');
}

/// Law: a key types what its text says, but for a control character alone and for
/// no text at all.
pub proof fn law_control_characters_type_nothing(c: char, s: Seq<char>)
    ensures
        types_something(seq![c]) <==> !((c as int) < 32 || c as int == 127),
        s.len() >= 2 ==> types_something(s),
        !types_something(Seq::empty()),
{
}

/// Law: the modifiers that are held are those that were reported, each by itself,
/// and no lock counts as held.
pub proof fn law_modifiers_are_as_reported(shift: bool, ctrl: bool, alt: bool, logo: bool)
    ensures
        ({
            let m = modifiers(shift, ctrl, alt, logo);
            &&& m.shift == shift && m.ctrl == ctrl && m.alt == alt && m.logo == logo
            &&& !m.caps_lock && !m.num_lock
        }),
{
}

} // verus!
