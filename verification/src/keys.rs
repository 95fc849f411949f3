//! Where a key goes: to a prompt, to a hint session, to a field, or on to the
//! page.
use vstd::prelude::*;
use vstd::string::*;
use crate::edit_focus::EditFocus;
use crate::text::{chars_of, same_text};
use crate::windowing::keyboard::{KeyCode, KeyEvent, KeyState, Modifiers};

verus! {

/// A key with a name.
#[derive(Debug, Clone, Copy, PartialEq, Eq, Structural)]
pub enum NamedKey {
    Esc,
    CR,
    Tab,
    BackTab,
    Up,
    Down,
    Left,
    Right,
    BS,
    Space,
    /// Any other.
    Other,
}

/// A key of a chord.
#[derive(Debug, Clone, Copy, PartialEq, Eq, Structural)]
pub enum Key {
    Char(char),
    Named(NamedKey),
}

/// A key with the modifiers that are held.
#[derive(Debug, Clone, Copy, PartialEq, Eq, Structural)]
pub struct Chord {
    pub key: Key,
    pub ctrl: bool,
    pub shift: bool,
    pub alt: bool,
    pub logo: bool,
}

impl Chord {
    /// No modifier but shift is held.
    pub open spec fn plain(self) -> bool {
        !self.ctrl && !self.alt && !self.logo
    }

    /// No modifier but shift is held.
    pub fn is_plain(&self) -> (r: bool)
        ensures
            r == self.plain(),
    {
        !self.ctrl && !self.alt && !self.logo
    }
}

/// A key that types nothing.
#[derive(Debug, Clone, Copy, PartialEq, Eq, Structural)]
pub enum SpecialKey {
    Esc,
    Enter,
    Backspace,
    Tab,
    Up,
    Down,
    Left,
    Right,
    Home,
    End,
    PageUp,
    PageDown,
    Insert,
    Delete,
    F(u8),
}

/// A key as the editing engine takes it.
#[derive(Debug, Clone, Copy, PartialEq, Eq, Structural)]
pub enum PlannedInput {
    Char(char, Modifiers),
    Key(SpecialKey, Modifiers),
}

/// The special key of a symbol name.
pub open spec fn special_key(name: Seq<char>) -> Option<SpecialKey> {
    if name == "Escape"@ {
        Some(SpecialKey::Esc)
    } else if name == "Return"@ || name == "KP_Enter"@ {
        Some(SpecialKey::Enter)
    } else if name == "BackSpace"@ {
        Some(SpecialKey::Backspace)
    } else if name == "Tab"@ {
        Some(SpecialKey::Tab)
    } else if name == "Up"@ {
        Some(SpecialKey::Up)
    } else if name == "Down"@ {
        Some(SpecialKey::Down)
    } else if name == "Left"@ {
        Some(SpecialKey::Left)
    } else if name == "Right"@ {
        Some(SpecialKey::Right)
    } else if name == "Home"@ {
        Some(SpecialKey::Home)
    } else if name == "End"@ {
        Some(SpecialKey::End)
    } else if name == "Prior"@ {
        Some(SpecialKey::PageUp)
    } else if name == "Next"@ {
        Some(SpecialKey::PageDown)
    } else if name == "Insert"@ {
        Some(SpecialKey::Insert)
    } else if name == "Delete"@ {
        Some(SpecialKey::Delete)
    } else if name == "F1"@ {
        Some(SpecialKey::F(1))
    } else if name == "F2"@ {
        Some(SpecialKey::F(2))
    } else if name == "F3"@ {
        Some(SpecialKey::F(3))
    } else if name == "F4"@ {
        Some(SpecialKey::F(4))
    } else if name == "F5"@ {
        Some(SpecialKey::F(5))
    } else if name == "F6"@ {
        Some(SpecialKey::F(6))
    } else if name == "F7"@ {
        Some(SpecialKey::F(7))
    } else if name == "F8"@ {
        Some(SpecialKey::F(8))
    } else if name == "F9"@ {
        Some(SpecialKey::F(9))
    } else if name == "F10"@ {
        Some(SpecialKey::F(10))
    } else if name == "F11"@ {
        Some(SpecialKey::F(11))
    } else if name == "F12"@ {
        Some(SpecialKey::F(12))
    } else {
        None
    }
}

/// The special key of a symbol name.
fn special_key_of(name: &str) -> (r: Option<SpecialKey>)
    ensures
        r == special_key(name@),
{
    if same_text(name, "Escape") {
        Some(SpecialKey::Esc)
    } else if same_text(name, "Return") || same_text(name, "KP_Enter") {
        Some(SpecialKey::Enter)
    } else if same_text(name, "BackSpace") {
        Some(SpecialKey::Backspace)
    } else if same_text(name, "Tab") {
        Some(SpecialKey::Tab)
    } else if same_text(name, "Up") {
        Some(SpecialKey::Up)
    } else if same_text(name, "Down") {
        Some(SpecialKey::Down)
    } else if same_text(name, "Left") {
        Some(SpecialKey::Left)
    } else if same_text(name, "Right") {
        Some(SpecialKey::Right)
    } else if same_text(name, "Home") {
        Some(SpecialKey::Home)
    } else if same_text(name, "End") {
        Some(SpecialKey::End)
    } else if same_text(name, "Prior") {
        Some(SpecialKey::PageUp)
    } else if same_text(name, "Next") {
        Some(SpecialKey::PageDown)
    } else if same_text(name, "Insert") {
        Some(SpecialKey::Insert)
    } else if same_text(name, "Delete") {
        Some(SpecialKey::Delete)
    } else if same_text(name, "F1") {
        Some(SpecialKey::F(1))
    } else if same_text(name, "F2") {
        Some(SpecialKey::F(2))
    } else if same_text(name, "F3") {
        Some(SpecialKey::F(3))
    } else if same_text(name, "F4") {
        Some(SpecialKey::F(4))
    } else if same_text(name, "F5") {
        Some(SpecialKey::F(5))
    } else if same_text(name, "F6") {
        Some(SpecialKey::F(6))
    } else if same_text(name, "F7") {
        Some(SpecialKey::F(7))
    } else if same_text(name, "F8") {
        Some(SpecialKey::F(8))
    } else if same_text(name, "F9") {
        Some(SpecialKey::F(9))
    } else if same_text(name, "F10") {
        Some(SpecialKey::F(10))
    } else if same_text(name, "F11") {
        Some(SpecialKey::F(11))
    } else if same_text(name, "F12") {
        Some(SpecialKey::F(12))
    } else {
        None
    }
}

/// The held modifiers that the editing engine looks at.
pub open spec fn engine_modifiers(m: Modifiers) -> Modifiers {
    Modifiers { caps_lock: false, num_lock: false, ..m }
}

/// The input of a key event: what it types, if that is one character, else its
/// special key. Nothing of a release, nor of a text of several characters.
pub open spec fn planned_input(event: KeyEvent, m: Modifiers) -> Option<PlannedInput> {
    if event.state != KeyState::Pressed {
        None
    } else {
        match event.text {
            Some(t) => if t@.len() == 1 {
                Some(PlannedInput::Char(t@[0], engine_modifiers(m)))
            } else {
                None
            },
            None => match event.key_code {
                KeyCode::Named(name) => match special_key(name@) {
                    Some(k) => Some(PlannedInput::Key(k, engine_modifiers(m))),
                    None => None,
                },
                KeyCode::Sym(_) => None,
            },
        }
    }
}

/// The input of a key event.
pub fn wayr_key_to_planned(event: &KeyEvent, modifiers: &Modifiers) -> (r: Option<PlannedInput>)
    ensures
        r == planned_input(*event, *modifiers),
{
    if event.state != KeyState::Pressed {
        return None;
    }
    let mods = Modifiers {
        shift: modifiers.shift,
        ctrl: modifiers.ctrl,
        alt: modifiers.alt,
        logo: modifiers.logo,
        caps_lock: false,
        num_lock: false,
    };
    match &event.text {
        Some(t) => {
            let v = chars_of(t.as_str());
            if v.len() != 1 {
                return None;
            }
            Some(PlannedInput::Char(v[0], mods))
        },
        None => match &event.key_code {
            KeyCode::Named(name) => match special_key_of(name.as_str()) {
                Some(k) => Some(PlannedInput::Key(k, mods)),
                None => None,
            },
            KeyCode::Sym(_) => None,
        },
    }
}

/// Where a key goes while a field may have the caret.
#[derive(Debug)]
pub enum EditKeyStep {
    /// Not to a field: on to the chord engine.
    PassThrough,
    /// No field has the caret, but the engine is in insert mode: hand it the
    /// escape, and pass the key through if it does not leave the mode.
    FeedEscape,
    /// Leave this field and insert mode.
    ExitField { field_id: String },
    /// Read the clipboard and type it.
    PasteClipboard,
    /// To the page.
    Forward,
}

/// A step without its strings.
pub enum EditKeyView {
    PassThrough,
    FeedEscape,
    ExitField(Seq<char>),
    PasteClipboard,
    Forward,
}

impl View for EditKeyStep {
    type V = EditKeyView;

    open spec fn view(&self) -> EditKeyView {
        match self {
            EditKeyStep::PassThrough => EditKeyView::PassThrough,
            EditKeyStep::FeedEscape => EditKeyView::FeedEscape,
            EditKeyStep::ExitField { field_id } => EditKeyView::ExitField(field_id@),
            EditKeyStep::PasteClipboard => EditKeyView::PasteClipboard,
            EditKeyStep::Forward => EditKeyView::Forward,
        }
    }
}

/// An ASCII letter in lower case.
pub open spec fn ascii_lower(c: char) -> char {
    if 'A' <= c <= 'Z' { ((c as int) + 32) as char } else { c }
}

/// An ASCII letter in lower case.
pub fn to_ascii_lower(c: char) -> (r: char)
    ensures
        r == ascii_lower(c),
{
    let n: u32 = c as u32;
    if 65 <= n && n <= 90 {
        ((n as u8) + 32) as char
    } else {
        c
    }
}

/// Whether a key asks for the clipboard to be typed: control and `v`.
pub open spec fn pastes(planned: Option<PlannedInput>, m: Modifiers) -> bool {
    m.ctrl && !m.shift && (planned matches Some(PlannedInput::Char(c, _)) && ascii_lower(c) == 'v')
}

/// Where a key goes. Escape always leads out of insert mode, and a paste goes by
/// way of the clipboard, where there is one; every other key is for the page
/// while a field has the caret.
pub open spec fn edit_key_step(
    planned: Option<PlannedInput>,
    m: Modifiers,
    field: Option<Seq<char>>,
    in_insert: bool,
    has_clipboard: bool,
) -> EditKeyView {
    let escape = planned matches Some(PlannedInput::Key(SpecialKey::Esc, _));
    match field {
        None => if escape && in_insert {
            EditKeyView::FeedEscape
        } else {
            EditKeyView::PassThrough
        },
        Some(id) => if escape {
            EditKeyView::ExitField(id)
        } else if has_clipboard && pastes(planned, m) {
            EditKeyView::PasteClipboard
        } else {
            EditKeyView::Forward
        },
    }
}

/// Decide where a key goes while a field may have the caret. A field that is
/// left loses it.
pub fn edit_mode_handle_key(
    focus: &mut EditFocus,
    event: &KeyEvent,
    modifiers: &Modifiers,
    in_insert: bool,
    has_clipboard: bool,
) -> (step: EditKeyStep)
    ensures
        step@ == edit_key_step(
            planned_input(*event, *modifiers),
            *modifiers,
            old(focus).field(),
            in_insert,
            has_clipboard,
        ),
        final(focus).field() == if step is ExitField { None } else { old(focus).field() },
{
    let planned = wayr_key_to_planned(event, modifiers);
    let escape = match planned {
        Some(PlannedInput::Key(SpecialKey::Esc, _)) => true,
        _ => false,
    };
    let field: Option<String> = match &*focus {
        EditFocus::Idle => None,
        EditFocus::Editing { field_id } => Some(field_id.clone()),
    };
    match field {
        None => {
            if escape && in_insert {
                EditKeyStep::FeedEscape
            } else {
                EditKeyStep::PassThrough
            }
        },
        Some(field_id) => {
            if escape {
                *focus = EditFocus::Idle;
                return EditKeyStep::ExitField { field_id };
            }
            let paste = match planned {
                Some(PlannedInput::Char(c, _)) => modifiers.ctrl && !modifiers.shift
                    && to_ascii_lower(c) == 'v',
                _ => false,
            };
            if has_clipboard && paste {
                EditKeyStep::PasteClipboard
            } else {
                EditKeyStep::Forward
            }
        },
    }
}

/// Law: escape, pressed without text, leads out of insert mode whether or not a
/// field has the caret.
pub proof fn law_escape_always_leaves_insert(
    m: Modifiers,
    held: Modifiers,
    field: Option<Seq<char>>,
    has_clipboard: bool,
)
    ensures
        ({
            let escape = Some(PlannedInput::Key(SpecialKey::Esc, held));
            let step = edit_key_step(escape, m, field, true, has_clipboard);
            step is FeedEscape || step is ExitField
        }),
{
}

/// Law: insert mode is transparent. While a field has the caret, every key but
/// escape goes to the page, the paste chord by way of the clipboard.
pub proof fn law_insert_mode_is_transparent(
    planned: Option<PlannedInput>,
    m: Modifiers,
    field: Seq<char>,
    in_insert: bool,
    has_clipboard: bool,
)
    requires
        !(planned matches Some(PlannedInput::Key(SpecialKey::Esc, _))),
    ensures
        ({
            let step = edit_key_step(planned, m, Some(field), in_insert, has_clipboard);
            if has_clipboard && pastes(planned, m) {
                step is PasteClipboard
            } else {
                step is Forward
            }
        }),
{
}

/// What a key does to the question whether to close a pinned tab.
#[derive(Debug, Clone, Copy, PartialEq, Eq, Structural)]
pub enum ConfirmStep {
    /// Nothing is being asked.
    NotOurs,
    /// It is swallowed.
    Swallow,
    Confirm,
    Dismiss,
}

/// What a key event does to that question: `y` and enter confirm, `n` and escape
/// dismiss, everything else is swallowed.
pub open spec fn confirm_step(asking: bool, event: KeyEvent) -> ConfirmStep {
    if !asking {
        ConfirmStep::NotOurs
    } else if event.state != KeyState::Pressed {
        ConfirmStep::Swallow
    } else {
        match event.text {
            Some(t) => if t@.len() > 0 && ascii_lower(t@[0]) == 'y' {
                ConfirmStep::Confirm
            } else if t@.len() > 0 && ascii_lower(t@[0]) == 'n' {
                ConfirmStep::Dismiss
            } else {
                ConfirmStep::Swallow
            },
            None => match event.key_code {
                KeyCode::Named(name) => if name@ == "Return"@ || name@ == "KP_Enter"@ {
                    ConfirmStep::Confirm
                } else if name@ == "Escape"@ {
                    ConfirmStep::Dismiss
                } else {
                    ConfirmStep::Swallow
                },
                KeyCode::Sym(_) => ConfirmStep::Swallow,
            },
        }
    }
}

/// What a key does to the question whether to close a pinned tab.
pub fn confirm_handle_key(asking: bool, event: &KeyEvent) -> (r: ConfirmStep)
    ensures
        r == confirm_step(asking, *event),
{
    if !asking {
        return ConfirmStep::NotOurs;
    }
    if event.state != KeyState::Pressed {
        return ConfirmStep::Swallow;
    }
    match &event.text {
        Some(t) => {
            let v = chars_of(t.as_str());
            if v.len() == 0 {
                return ConfirmStep::Swallow;
            }
            let c = to_ascii_lower(v[0]);
            if c == 'y' {
                ConfirmStep::Confirm
            } else if c == 'n' {
                ConfirmStep::Dismiss
            } else {
                ConfirmStep::Swallow
            }
        },
        None => match &event.key_code {
            KeyCode::Named(name) => {
                if same_text(name.as_str(), "Return") || same_text(name.as_str(), "KP_Enter") {
                    ConfirmStep::Confirm
                } else if same_text(name.as_str(), "Escape") {
                    ConfirmStep::Dismiss
                } else {
                    ConfirmStep::Swallow
                }
            },
            KeyCode::Sym(_) => ConfirmStep::Swallow,
        },
    }
}

/// The answer to a permission prompt.
#[derive(Debug, Clone, Copy, PartialEq, Eq, Structural)]
pub enum PromptOutcome {
    Allow { remember: bool },
    Deny { remember: bool },
    /// Ask again later.
    Defer,
}

/// What a key does to a permission prompt.
#[derive(Debug, Clone, Copy, PartialEq, Eq, Structural)]
pub enum PermissionStep {
    /// There is no prompt.
    NotOurs,
    /// It is swallowed.
    Swallow,
    Resolve(PromptOutcome),
}

/// The answer that a character gives.
pub open spec fn permission_answer(c: char) -> Option<PromptOutcome> {
    if c == 'a' || c == 'y' {
        Some(PromptOutcome::Allow { remember: false })
    } else if c == 'A' || c == 'Y' {
        Some(PromptOutcome::Allow { remember: true })
    } else if c == 'd' || c == 'n' {
        Some(PromptOutcome::Deny { remember: false })
    } else if c == 'D' || c == 'N' || c == 's' {
        Some(PromptOutcome::Deny { remember: true })
    } else {
        None
    }
}

/// What a key does to a permission prompt.
pub open spec fn permission_step(prompt_shown: bool, chord: Option<Chord>) -> PermissionStep {
    if !prompt_shown {
        PermissionStep::NotOurs
    } else {
        match chord {
            Some(ch) => match ch.key {
                Key::Named(NamedKey::Esc) => PermissionStep::Resolve(PromptOutcome::Defer),
                Key::Char(c) => if ch.plain() && permission_answer(c) is Some {
                    PermissionStep::Resolve(permission_answer(c)->0)
                } else {
                    PermissionStep::Swallow
                },
                _ => PermissionStep::Swallow,
            },
            None => PermissionStep::Swallow,
        }
    }
}

/// What a key does to a permission prompt; `chord` is `None` for a key that
/// stands for nothing. Control chords answer nothing.
pub fn permissions_handle_key(prompt_shown: bool, chord: Option<Chord>) -> (r: PermissionStep)
    ensures
        r == permission_step(prompt_shown, chord),
{
    if !prompt_shown {
        return PermissionStep::NotOurs;
    }
    let ch = match chord {
        Some(c) => c,
        None => {
            return PermissionStep::Swallow;
        },
    };
    match ch.key {
        Key::Named(NamedKey::Esc) => PermissionStep::Resolve(PromptOutcome::Defer),
        Key::Char(c) => {
            if !ch.is_plain() {
                PermissionStep::Swallow
            } else if c == 'a' || c == 'y' {
                PermissionStep::Resolve(PromptOutcome::Allow { remember: false })
            } else if c == 'A' || c == 'Y' {
                PermissionStep::Resolve(PromptOutcome::Allow { remember: true })
            } else if c == 'd' || c == 'n' {
                PermissionStep::Resolve(PromptOutcome::Deny { remember: false })
            } else if c == 'D' || c == 'N' || c == 's' {
                PermissionStep::Resolve(PromptOutcome::Deny { remember: true })
            } else {
                PermissionStep::Swallow
            }
        },
        _ => PermissionStep::Swallow,
    }
}

/// What a key does to a hint session.
#[derive(Debug, Clone, Copy, PartialEq, Eq, Structural)]
pub enum HintStep {
    /// There is no session.
    NotOurs,
    /// It stands for nothing and is swallowed.
    Swallow,
    /// End the session.
    Cancel,
    /// Take the last typed character back.
    Backspace,
    /// A character of a hint.
    Feed(char),
    /// It is swallowed; the session is shown again.
    Ignore,
}

/// What a key does to a hint session.
pub open spec fn hint_step(in_hint_mode: bool, chord: Option<Chord>) -> HintStep {
    if !in_hint_mode {
        HintStep::NotOurs
    } else {
        match chord {
            Some(ch) => match ch.key {
                Key::Named(NamedKey::Esc) => HintStep::Cancel,
                Key::Named(NamedKey::BS) => HintStep::Backspace,
                Key::Char(c) => if ch.plain() { HintStep::Feed(c) } else { HintStep::Ignore },
                _ => HintStep::Ignore,
            },
            None => HintStep::Swallow,
        }
    }
}

/// What a key does to a hint session.
pub fn hint_mode_handle_key(in_hint_mode: bool, chord: Option<Chord>) -> (r: HintStep)
    ensures
        r == hint_step(in_hint_mode, chord),
{
    if !in_hint_mode {
        return HintStep::NotOurs;
    }
    let ch = match chord {
        Some(c) => c,
        None => {
            return HintStep::Swallow;
        },
    };
    match ch.key {
        Key::Named(NamedKey::Esc) => HintStep::Cancel,
        Key::Named(NamedKey::BS) => HintStep::Backspace,
        Key::Char(c) => {
            if ch.is_plain() {
                HintStep::Feed(c)
            } else {
                HintStep::Ignore
            }
        },
        _ => HintStep::Ignore,
    }
}

/// What typing into a hint session led to.
#[derive(Debug, Clone, Copy, PartialEq, Eq, Structural)]
pub enum HintAction {
    /// Fewer hints match.
    Filter,
    Click,
    OpenInBackground,
    Cancel,
}

/// Whether a hint session is over: only while hints are left to choose from it
/// goes on.
pub open spec fn ends_hints(action: HintAction) -> bool {
    action != HintAction::Filter
}

/// Whether a hint session is over.
pub fn handle_hint_action(action: HintAction) -> (ends: bool)
    ensures
        ends == ends_hints(action),
{
    match action {
        HintAction::Filter => false,
        HintAction::Click => true,
        HintAction::OpenInBackground => true,
        HintAction::Cancel => true,
    }
}

/// Law: a permission prompt takes every key while it is shown, and none
/// otherwise; only escape puts the question off, and only a character without
/// control, alt or logo answers it.
pub proof fn law_prompt_takes_every_key(shown: bool, chord: Option<Chord>)
    ensures
        ({
            let step = permission_step(shown, chord);
            &&& step is NotOurs <==> !shown
            &&& step == PermissionStep::Resolve(PromptOutcome::Defer) <==> (shown && chord is Some
                && chord->0.key == Key::Named(NamedKey::Esc))
            &&& step is Resolve && !(step == PermissionStep::Resolve(PromptOutcome::Defer)) ==> {
                let ch = chord->0;
                &&& chord is Some && ch.key is Char
                &&& !ch.ctrl && !ch.alt && !ch.logo
            }
        }),
{
}

/// Law: the letters of a permission prompt. `a` and `y` allow, `d` and `n` deny,
/// both for this once; in capitals the answer is remembered, and `s` denies for
/// good. No other character answers.
pub proof fn law_prompt_letters(c: char, shift: bool)
    ensures
        ({
            let ch = Chord { key: Key::Char(c), ctrl: false, shift, alt: false, logo: false };
            let step = permission_step(true, Some(ch));
            &&& (c == 'a' || c == 'y') <==> step == PermissionStep::Resolve(
                PromptOutcome::Allow { remember: false },
            )
            &&& (c == 'A' || c == 'Y') <==> step == PermissionStep::Resolve(
                PromptOutcome::Allow { remember: true },
            )
            &&& (c == 'd' || c == 'n') <==> step == PermissionStep::Resolve(
                PromptOutcome::Deny { remember: false },
            )
            &&& (c == 'D' || c == 'N' || c == 's') <==> step == PermissionStep::Resolve(
                PromptOutcome::Deny { remember: true },
            )
            &&& step is Swallow || step is Resolve
        }),
{
}

/// Law: a hint session takes every key while it lasts, and none otherwise. Each
/// plain character is fed to it as it is, escape ends it, backspace takes one back,
/// and a chord with control, alt or logo feeds nothing.
pub proof fn law_hints_take_every_key(on: bool, chord: Option<Chord>)
    ensures
        ({
            let step = hint_step(on, chord);
            let key = chord->0.key;
            &&& step is NotOurs <==> !on
            &&& step is Swallow <==> on && chord is None
            &&& step is Cancel <==> (on && chord is Some && key == Key::Named(NamedKey::Esc))
            &&& step is Backspace <==> (on && chord is Some && key == Key::Named(NamedKey::BS))
            &&& step is Feed <==> (on && chord is Some && key is Char && !chord->0.ctrl
                && !chord->0.alt && !chord->0.logo)
            &&& step is Feed ==> key == Key::Char(step->Feed_0)
        }),
{
}

/// Law: a hint session ends once a hint was followed or it was cancelled, and goes
/// on while hints are only filtered.
pub proof fn law_followed_hint_ends_the_session(a: HintAction)
    ensures
        a is Filter ==> !ends_hints(a),
        a is Click || a is OpenInBackground || a is Cancel ==> ends_hints(a),
{
}

/// Law: the question about a pinned tab takes every key while it is asked, and
/// none otherwise. A pressed key that types `y` in either case confirms, one that
/// types `n` dismisses; of the keys that type nothing enter confirms and escape
/// dismisses. A release answers nothing.
pub proof fn law_question_is_answered_by_letter_or_key(asking: bool, event: KeyEvent)
    ensures
        ({
            let step = confirm_step(asking, event);
            let pressed = event.state == KeyState::Pressed;
            let types = event.text is Some && event.text->0@.len() > 0;
            let c = event.text->0@[0];
            let named = event.text is None && event.key_code is Named;
            let name = event.key_code->Named_0@;
            &&& step is NotOurs <==> !asking
            &&& step is Confirm <==> (asking && pressed && (types && (c == 'y' || c == 'Y') || named
                && (name == "Return"@ || name == "KP_Enter"@)))
            &&& step is Dismiss ==> asking && pressed && (types && (c == 'n' || c == 'N') || named
                && name == "Escape"@)
            &&& asking && pressed && types && (c == 'n' || c == 'N') ==> step is Dismiss
            &&& asking && pressed && named && name == "Escape"@ ==> step is Dismiss
        }),
{
    reveal_strlit("Escape");
    reveal_strlit("Return");
    reveal_strlit("KP_Enter");
    assert("Escape"@[0] == 'E' && "Return"@[0] == 'R' && "KP_Enter"@[0] == 'K');
    let c = event.text->0@[0];
    if 'A' <= c <= 'Z' {
        assert(ascii_lower(c) as int == c as int + 32);
    }
}

/// Law: only capitals of the ASCII letters change, each to its small letter.
pub proof fn law_only_capitals_become_small(c: char)
    ensures
        'A' <= c <= 'Z' ==> ascii_lower(c) as int - 'a' as int == c as int - 'A' as int,
        c < 'A' || c > 'Z' ==> ascii_lower(c) == c,
{
}

/// Law: what a pressed key types goes before its name: one character is that
/// character, several are nothing. A key that types nothing goes by its name. A
/// release is nothing. Either way the held modifiers come along, without the
/// locks.
pub proof fn law_typed_character_comes_first(event: KeyEvent, m: Modifiers)
    ensures
        ({
            let r = planned_input(event, m);
            let held = Modifiers { caps_lock: false, num_lock: false, ..m };
            let pressed = event.state == KeyState::Pressed;
            &&& !pressed ==> r is None
            &&& pressed && event.text is Some && event.text->0@.len() == 1 ==> r == Some(
                PlannedInput::Char(event.text->0@[0], held),
            )
            &&& pressed && event.text is Some && event.text->0@.len() != 1 ==> r is None
            &&& event.text is None && event.key_code is Sym ==> r is None
            &&& r is Some && event.text is None ==> r->0 is Key && r->0->Key_1 == held
        }),
{
}

/// Law: escape, typed without text, is escape; and a key is escape only by that
/// name.
pub proof fn law_escape_is_escape(name: Seq<char>)
    ensures
        special_key(name) == Some(SpecialKey::Esc) <==> name == "Escape"@,
        special_key(name) == Some(SpecialKey::Enter) ==> name == "Return"@ || name == "KP_Enter"@,
        special_key(name) == Some(SpecialKey::Backspace) ==> name == "BackSpace"@,
        special_key(name) == Some(SpecialKey::Tab) ==> name == "Tab"@,
        special_key(name) == Some(SpecialKey::Up) ==> name == "Up"@,
        special_key(name) == Some(SpecialKey::Down) ==> name == "Down"@,
        special_key(name) == Some(SpecialKey::Left) ==> name == "Left"@,
        special_key(name) == Some(SpecialKey::Right) ==> name == "Right"@,
        special_key(name) == Some(SpecialKey::Home) ==> name == "Home"@,
        special_key(name) == Some(SpecialKey::End) ==> name == "End"@,
        special_key(name) == Some(SpecialKey::PageUp) ==> name == "Prior"@,
        special_key(name) == Some(SpecialKey::PageDown) ==> name == "Next"@,
        special_key(name) == Some(SpecialKey::Insert) ==> name == "Insert"@,
        special_key(name) == Some(SpecialKey::Delete) ==> name == "Delete"@,
{
}

/// Law: escape leaves the field that has the caret, and no other key does; without
/// a field every key goes on, but for escape in insert mode. The paste goes by way
/// of the clipboard exactly for control with `v`, without shift, in a field, where
/// there is a clipboard.
pub proof fn law_keys_of_a_field(
    planned: Option<PlannedInput>,
    m: Modifiers,
    field: Option<Seq<char>>,
    in_insert: bool,
    has_clipboard: bool,
)
    ensures
        ({
            let step = edit_key_step(planned, m, field, in_insert, has_clipboard);
            let escape = planned is Some && planned->0 is Key && planned->0->Key_0
                == SpecialKey::Esc;
            let v = planned is Some && planned->0 is Char && (planned->0->Char_0 == 'v'
                || planned->0->Char_0 == 'V');
            &&& step is ExitField <==> (field is Some && escape)
            &&& step is ExitField ==> Some(step->ExitField_0) == field
            &&& step is FeedEscape <==> (field is None && escape && in_insert)
            &&& step is PassThrough <==> (field is None && !(escape && in_insert))
            &&& step is PasteClipboard <==> (field is Some && has_clipboard && v && m.ctrl
                && !m.shift)
        }),
{
    if planned is Some && planned->0 is Char {
        let c = planned->0->Char_0;
        if 'A' <= c <= 'Z' {
            assert(ascii_lower(c) as int == c as int + 32);
        }
    }
}

/// Law: every key with a name that the editing engine knows reaches it, and the
/// function keys by their number.
pub proof fn law_named_keys_are_known(name: Seq<char>)
    ensures
        name == "Escape"@ || name == "Return"@ || name == "KP_Enter"@ || name == "BackSpace"@ || name
            == "Tab"@ || name == "Up"@ || name == "Down"@ || name == "Left"@ || name == "Right"@
            || name == "Home"@ || name == "End"@ || name == "Prior"@ || name == "Next"@ || name
            == "Insert"@ || name == "Delete"@ ==> special_key(name) is Some,
        name == "F1"@ || name == "F2"@ || name == "F3"@ || name == "F4"@ || name == "F5"@ || name
            == "F6"@ || name == "F7"@ || name == "F8"@ || name == "F9"@ || name == "F10"@ || name
            == "F11"@ || name == "F12"@ ==> special_key(name) is Some,
        special_key(name) matches Some(SpecialKey::F(n)) ==> 1 <= n <= 12 && name == "F"@
            + crate::text::decimal_text(n as nat),
{
    reveal_strlit("F");
    reveal_strlit("F1");
    reveal_strlit("F2");
    reveal_strlit("F3");
    reveal_strlit("F4");
    reveal_strlit("F5");
    reveal_strlit("F6");
    reveal_strlit("F7");
    reveal_strlit("F8");
    reveal_strlit("F9");
    reveal_strlit("F10");
    reveal_strlit("F11");
    reveal_strlit("F12");
    reveal_with_fuel(crate::text::decimal_text, 2);
    if let Some(SpecialKey::F(n)) = special_key(name) {
        assert(name =~= "F"@ + crate::text::decimal_text(n as nat));
    }
}

/// Law: the model of a step of the edited field keeps its sort and the field.
pub proof fn law_field_steps_are_seen_whole(t: String)
    ensures
        EditKeyStep::PassThrough@ is PassThrough,
        EditKeyStep::FeedEscape@ is FeedEscape,
        EditKeyStep::PasteClipboard@ is PasteClipboard,
        EditKeyStep::Forward@ is Forward,
        (EditKeyStep::ExitField { field_id: t })@ == EditKeyView::ExitField(t@),
{
}

/// Law: a key that types nothing is planned as the special key that it is, with the
/// modifiers that are held but no lock; a key without such a meaning is not planned.
pub proof fn law_silent_keys_are_planned_by_name(event: KeyEvent, name: String, m: Modifiers)
    requires
        event.state == KeyState::Pressed,
        event.text is None,
        event.key_code == KeyCode::Named(name),
    ensures
        planned_input(event, m) is Some <==> special_key(name@) is Some,
        special_key(name@) matches Some(k) ==> (planned_input(event, m) matches Some(
            PlannedInput::Key(planned, held),
        ) && {
            &&& planned == k
            &&& held.shift == m.shift && held.ctrl == m.ctrl && held.alt == m.alt && held.logo
                == m.logo
            &&& !held.caps_lock && !held.num_lock
        }),
{
}

} // verus!
