//! Where keys go.
use buffr::edit_focus::EditFocus;
use buffr::keys::{
    confirm_handle_key, edit_mode_handle_key, handle_hint_action, hint_mode_handle_key,
    permissions_handle_key, to_ascii_lower, wayr_key_to_planned, Chord, ConfirmStep,
    EditKeyStep, HintAction, HintStep, Key, NamedKey, PermissionStep, PlannedInput, PromptOutcome,
    SpecialKey,
};
use buffr::overlay::{
    omnibar_prefill, overlay_handle_key, pasted_chars, CloseStep, FindStep, OpenStep, Overlay,
    OverlayEdit, OverlayKind, OverlayStep, SubmitStep, SuggestionSource, FIND_LIVE_DEBOUNCE,
};
use buffr::tabs::PageMode;
use buffr::windowing::{KeyCode, KeyEvent, KeyState, Modifiers, ScanCode};

fn named(name: &str) -> KeyEvent {
    KeyEvent {
        scancode: ScanCode(0),
        key_code: KeyCode::Named(name.to_string()),
        modifiers: Modifiers::default(),
        state: KeyState::Pressed,
        text: None,
        repeat: false,
    }
}

fn typed(text: &str) -> KeyEvent {
    KeyEvent { text: Some(text.to_string()), ..named(text) }
}

fn released(ev: KeyEvent) -> KeyEvent {
    KeyEvent { state: KeyState::Released, ..ev }
}

fn ctrl(shift: bool) -> Modifiers {
    Modifiers { ctrl: true, shift, ..Modifiers::default() }
}

fn chord(key: Key) -> Option<Chord> {
    Some(Chord { key, ctrl: false, shift: false, alt: false, logo: false })
}

fn ctrl_chord(c: char) -> Option<Chord> {
    Some(Chord { key: Key::Char(c), ctrl: true, shift: false, alt: false, logo: false })
}

fn editing(id: &str) -> EditFocus {
    EditFocus::Editing { field_id: id.to_string() }
}

#[test]
fn a_key_is_planned_by_what_it_types() {
    let m = Modifiers { caps_lock: true, ..ctrl(false) };
    assert_eq!(
        wayr_key_to_planned(&typed("x"), &m),
        Some(PlannedInput::Char('x', ctrl(false)))
    );
    assert_eq!(wayr_key_to_planned(&typed("xy"), &m), None);
    assert_eq!(wayr_key_to_planned(&typed(""), &m), None);
    assert_eq!(wayr_key_to_planned(&released(typed("x")), &m), None);
}

#[test]
fn a_key_is_planned_by_its_name() {
    let m = Modifiers::default();
    for (name, key) in [
        ("Escape", SpecialKey::Esc),
        ("Return", SpecialKey::Enter),
        ("KP_Enter", SpecialKey::Enter),
        ("BackSpace", SpecialKey::Backspace),
        ("Tab", SpecialKey::Tab),
        ("Prior", SpecialKey::PageUp),
        ("Next", SpecialKey::PageDown),
        ("Delete", SpecialKey::Delete),
        ("F1", SpecialKey::F(1)),
        ("F12", SpecialKey::F(12)),
    ] {
        assert_eq!(wayr_key_to_planned(&named(name), &m), Some(PlannedInput::Key(key, m)));
    }
    assert_eq!(wayr_key_to_planned(&named("F13"), &m), None);
    let sym = KeyEvent { key_code: KeyCode::Sym(7), ..named("x") };
    assert_eq!(wayr_key_to_planned(&sym, &m), None);
}

#[test]
fn escape_leaves_the_field() {
    let mut f = editing("a");
    let step = edit_mode_handle_key(&mut f, &named("Escape"), &Modifiers::default(), true, true);
    assert!(matches!(step, EditKeyStep::ExitField { field_id } if field_id == "a"));
    assert!(matches!(f, EditFocus::Idle));
}

#[test]
fn escape_leaves_insert_mode_without_a_field() {
    let mut f = EditFocus::Idle;
    let m = Modifiers::default();
    let step = edit_mode_handle_key(&mut f, &named("Escape"), &m, true, true);
    assert!(matches!(step, EditKeyStep::FeedEscape));
    let step = edit_mode_handle_key(&mut f, &named("Escape"), &m, false, true);
    assert!(matches!(step, EditKeyStep::PassThrough));
    let step = edit_mode_handle_key(&mut f, &typed("x"), &m, true, true);
    assert!(matches!(step, EditKeyStep::PassThrough));
}

#[test]
fn tab_goes_to_the_page() {
    let mut f = editing("a");
    let m = Modifiers::default();
    let step = edit_mode_handle_key(&mut f, &named("Tab"), &m, true, true);
    assert!(matches!(step, EditKeyStep::Forward));
    let back = Modifiers { shift: true, ..m };
    let step = edit_mode_handle_key(&mut f, &named("Tab"), &back, true, true);
    assert!(matches!(step, EditKeyStep::Forward));
    assert!(f.is_editing("a"));
}

#[test]
fn control_chords_but_paste_go_to_the_page() {
    let mut f = editing("a");
    let mut step = |text: &str, shift: bool, clip: bool| {
        edit_mode_handle_key(&mut f, &typed(text), &ctrl(shift), true, clip)
    };
    assert!(matches!(step("t", false, true), EditKeyStep::Forward));
    assert!(matches!(step("T", true, true), EditKeyStep::Forward));
    assert!(matches!(step("w", false, true), EditKeyStep::Forward));
    assert!(matches!(step("W", true, true), EditKeyStep::Forward));
    assert!(matches!(step("v", false, true), EditKeyStep::PasteClipboard));
    assert!(matches!(step("v", false, false), EditKeyStep::Forward));
    assert!(matches!(step("a", false, true), EditKeyStep::Forward));
}

#[test]
fn everything_else_goes_to_the_page() {
    let mut f = editing("a");
    let m = Modifiers::default();
    assert!(matches!(edit_mode_handle_key(&mut f, &typed("t"), &m, true, true), EditKeyStep::Forward));
    let up = released(named("Escape"));
    assert!(matches!(edit_mode_handle_key(&mut f, &up, &m, true, true), EditKeyStep::Forward));
}

#[test]
fn the_question_about_a_pinned_tab_is_modal() {
    assert_eq!(confirm_handle_key(false, &typed("y")), ConfirmStep::NotOurs);
    assert_eq!(confirm_handle_key(true, &released(typed("y"))), ConfirmStep::Swallow);
    assert_eq!(confirm_handle_key(true, &typed("y")), ConfirmStep::Confirm);
    assert_eq!(confirm_handle_key(true, &typed("Y")), ConfirmStep::Confirm);
    assert_eq!(confirm_handle_key(true, &typed("n")), ConfirmStep::Dismiss);
    assert_eq!(confirm_handle_key(true, &typed("x")), ConfirmStep::Swallow);
    assert_eq!(confirm_handle_key(true, &named("Return")), ConfirmStep::Confirm);
    assert_eq!(confirm_handle_key(true, &named("KP_Enter")), ConfirmStep::Confirm);
    assert_eq!(confirm_handle_key(true, &named("Escape")), ConfirmStep::Dismiss);
    assert_eq!(confirm_handle_key(true, &named("Left")), ConfirmStep::Swallow);
}

#[test]
fn permission_prompts_are_answered_by_a_letter() {
    let answer = |c: char| permissions_handle_key(true, chord(Key::Char(c)));
    let allow = |remember| PermissionStep::Resolve(PromptOutcome::Allow { remember });
    let deny = |remember| PermissionStep::Resolve(PromptOutcome::Deny { remember });
    assert_eq!((answer('a'), answer('y')), (allow(false), allow(false)));
    assert_eq!((answer('A'), answer('Y')), (allow(true), allow(true)));
    assert_eq!((answer('d'), answer('n')), (deny(false), deny(false)));
    assert_eq!((answer('D'), answer('N'), answer('s')), (deny(true), deny(true), deny(true)));
    assert_eq!(answer('x'), PermissionStep::Swallow);
    assert_eq!(permissions_handle_key(true, ctrl_chord('a')), PermissionStep::Swallow);
    assert_eq!(
        permissions_handle_key(true, chord(Key::Named(NamedKey::Esc))),
        PermissionStep::Resolve(PromptOutcome::Defer)
    );
    assert_eq!(permissions_handle_key(true, None), PermissionStep::Swallow);
    assert_eq!(permissions_handle_key(false, chord(Key::Char('a'))), PermissionStep::NotOurs);
}

#[test]
fn hints_take_plain_characters() {
    assert_eq!(hint_mode_handle_key(false, chord(Key::Char('a'))), HintStep::NotOurs);
    assert_eq!(hint_mode_handle_key(true, None), HintStep::Swallow);
    assert_eq!(hint_mode_handle_key(true, chord(Key::Char('a'))), HintStep::Feed('a'));
    assert_eq!(hint_mode_handle_key(true, ctrl_chord('a')), HintStep::Ignore);
    assert_eq!(hint_mode_handle_key(true, chord(Key::Named(NamedKey::Esc))), HintStep::Cancel);
    assert_eq!(hint_mode_handle_key(true, chord(Key::Named(NamedKey::BS))), HintStep::Backspace);
    assert_eq!(hint_mode_handle_key(true, chord(Key::Named(NamedKey::Up))), HintStep::Ignore);
    assert!(!handle_hint_action(HintAction::Filter));
    assert!(handle_hint_action(HintAction::Click));
    assert!(handle_hint_action(HintAction::OpenInBackground));
    assert!(handle_hint_action(HintAction::Cancel));
}

#[test]
fn letters_are_lowered() {
    assert_eq!(to_ascii_lower('A'), 'a');
    assert_eq!(to_ascii_lower('Z'), 'z');
    assert_eq!(to_ascii_lower('['), '[');
    assert_eq!(to_ascii_lower('É'), 'É');
}

#[test]
fn an_open_bar_swallows_every_key() {
    let edit = OverlayStep::Edit;
    let press = |k: NamedKey| overlay_handle_key(true, chord(Key::Named(k)));
    assert_eq!(overlay_handle_key(false, chord(Key::Char('x'))), OverlayStep::NotOurs);
    assert_eq!(overlay_handle_key(true, None), OverlayStep::Swallow);
    assert_eq!(press(NamedKey::Esc), OverlayStep::Close);
    assert_eq!(press(NamedKey::CR), OverlayStep::Confirm);
    assert_eq!(press(NamedKey::Tab), edit(OverlayEdit::Down));
    assert_eq!(press(NamedKey::Down), edit(OverlayEdit::Down));
    assert_eq!(press(NamedKey::BackTab), edit(OverlayEdit::Up));
    assert_eq!(press(NamedKey::Up), edit(OverlayEdit::Up));
    assert_eq!(press(NamedKey::Left), edit(OverlayEdit::Left));
    assert_eq!(press(NamedKey::Right), edit(OverlayEdit::Right));
    assert_eq!(press(NamedKey::BS), edit(OverlayEdit::Back));
    assert_eq!(press(NamedKey::Space), edit(OverlayEdit::Text(' ')));
    assert_eq!(press(NamedKey::Other), OverlayStep::Ignore);
    assert_eq!(overlay_handle_key(true, chord(Key::Char('x'))), edit(OverlayEdit::Text('x')));
    assert_eq!(overlay_handle_key(true, ctrl_chord('c')), OverlayStep::Close);
    assert_eq!(overlay_handle_key(true, ctrl_chord('u')), edit(OverlayEdit::ClearLine));
    assert_eq!(overlay_handle_key(true, ctrl_chord('w')), edit(OverlayEdit::DeleteWord));
    assert_eq!(overlay_handle_key(true, ctrl_chord('v')), OverlayStep::Paste);
    assert_eq!(overlay_handle_key(true, ctrl_chord('x')), OverlayStep::Ignore);
    let both = Chord { key: Key::Char('C'), ctrl: true, shift: true, alt: false, logo: false };
    assert_eq!(overlay_handle_key(true, Some(both)), edit(OverlayEdit::Text('C')));
}

#[test]
fn only_changed_text_brings_other_suggestions() {
    assert!(OverlayEdit::Text('x').refreshes_suggestions());
    assert!(OverlayEdit::ClearLine.refreshes_suggestions());
    assert!(OverlayEdit::DeleteWord.refreshes_suggestions());
    assert!(OverlayEdit::Back.refreshes_suggestions());
    assert!(!OverlayEdit::Down.refreshes_suggestions());
    assert!(!OverlayEdit::Left.refreshes_suggestions());
    assert!(OverlayStep::Ignore.marks_chrome_dirty());
    assert!(!OverlayStep::Swallow.marks_chrome_dirty());
    assert!(!OverlayStep::NotOurs.marks_chrome_dirty());
}

#[test]
fn pasting_stays_on_one_line() {
    let pasted: String = pasted_chars("a\r\nb\nc").into_iter().collect();
    assert_eq!(pasted, "abc");
    let whole: String = pasted_chars("a b\tc").into_iter().collect();
    assert_eq!(whole, "a b\tc");
}

#[test]
fn bars_open_with_their_prefix() {
    assert_eq!(OverlayKind::Command.prefix(), ":");
    assert_eq!(OverlayKind::Omnibar.prefix(), "> ");
    assert_eq!(OverlayKind::Find { forward: true }.prefix(), "/ ");
    assert_eq!(OverlayKind::Find { forward: false }.prefix(), "? ");
    assert_eq!(omnibar_prefill("https://a.example/"), "https://a.example/");
    assert_eq!(omnibar_prefill("buffr://new"), "");
}

#[test]
fn a_cancelled_bar_takes_its_tab_along() {
    let mut o = Overlay::new(None, None);
    assert_eq!(o.close_overlay(Some(5)), None);
    o.cancel_closes_tab = Some(9);
    assert_eq!(o.open_omnibar(1), OpenStep { source: SuggestionSource::Pages, mode: None });
    assert_eq!(
        o.close_overlay(Some(2)),
        Some(CloseStep { mode: PageMode::Normal, stop_find: false, close_tab: Some(9) })
    );
    assert_eq!(o.cancel_closes_tab, None);
    // The last tab stays.
    o.cancel_closes_tab = Some(9);
    o.open_omnibar(1);
    assert_eq!(
        o.close_overlay(Some(1)),
        Some(CloseStep { mode: PageMode::Normal, stop_find: false, close_tab: None })
    );
    assert_eq!(o.cancel_closes_tab, None);
}

#[test]
fn a_confirmed_bar_keeps_its_tab() {
    let mut o = Overlay::new(None, None);
    assert_eq!(o.confirm_overlay(), None);
    o.cancel_closes_tab = Some(9);
    assert_eq!(
        o.open_command_line(1),
        OpenStep { source: SuggestionSource::Commands, mode: None }
    );
    assert_eq!(
        o.confirm_overlay(),
        Some(SubmitStep { kind: OverlayKind::Command, mode: PageMode::Normal })
    );
    assert_eq!((o.kind, o.cancel_closes_tab), (None, None));
}

#[test]
fn a_find_waits_for_a_pause() {
    let mut o = Overlay::new(None, None);
    assert_eq!(
        o.open_find(false, 1_000),
        OpenStep { source: SuggestionSource::Empty, mode: Some(PageMode::Command) }
    );
    assert_eq!(o.find_live_due, Some(1_000 + FIND_LIVE_DEBOUNCE));
    o.refresh_overlay_suggestions(5_000);
    let due = 5_000 + FIND_LIVE_DEBOUNCE;
    assert!(matches!(o.maybe_dispatch_find_live(due - 1, " cat ", true), FindStep::Nothing));
    let step = o.maybe_dispatch_find_live(due, " cat ", true);
    assert!(matches!(step, FindStep::Start { query, forward: false } if query == "cat"));
    let status = o.find_query.as_ref().unwrap();
    assert_eq!((status.query.as_str(), status.current, status.total), ("cat", 0, 0));
    assert!(matches!(o.maybe_dispatch_find_live(due + 1, "cat", true), FindStep::Nothing));
}

#[test]
fn an_emptied_find_stops() {
    let mut o = Overlay::new(None, None);
    o.open_find(true, 0);
    assert!(matches!(o.maybe_dispatch_find_live(u64::MAX, "  ", true), FindStep::Stop));
    o.open_find(true, 0);
    assert!(matches!(o.maybe_dispatch_find_live(u64::MAX, "x", false), FindStep::Nothing));
    assert_eq!(o.find_live_due, None);
}

#[test]
fn cancelling_a_find_clears_it() {
    let mut o = Overlay::new(None, None);
    o.open_find(true, 0);
    o.dispatch_find("dog", true, true);
    assert_eq!(
        o.close_overlay(None),
        Some(CloseStep { mode: PageMode::Normal, stop_find: true, close_tab: None })
    );
    assert!(o.find_query.is_none());
    assert_eq!(o.find_live_due, None);
}

#[test]
fn a_confirmed_find_starts() {
    let mut o = Overlay::new(None, None);
    assert!(matches!(o.dispatch_find("  ", true, true), FindStep::Nothing));
    assert!(o.find_query.is_none());
    let step = o.dispatch_find(" dog ", true, true);
    assert!(matches!(step, FindStep::Start { query, forward: true } if query == "dog"));
    assert!(matches!(o.dispatch_find("cat", true, false), FindStep::Nothing));
    assert_eq!(o.find_query.as_ref().unwrap().query, "cat");
}

#[test]
fn counts_belong_to_a_query() {
    let mut o = Overlay::new(None, None);
    assert!(!o.pump_find_results(1, 2));
    o.dispatch_find("dog", true, true);
    assert!(o.pump_find_results(1, 2));
    let status = o.find_query.as_ref().unwrap();
    assert_eq!((status.query.as_str(), status.current, status.total), ("dog", 1, 2));
    let mut o = Overlay::new(Some("cat".to_string()), Some(10));
    assert!(o.pump_find_results(0, 3));
    assert_eq!(o.find_query.as_ref().unwrap().query, "cat");
}

#[test]
fn a_requested_find_starts_once() {
    let mut o = Overlay::new(Some("cat".to_string()), Some(10));
    assert!(matches!(o.maybe_dispatch_find_smoke(9, true), FindStep::Nothing));
    let step = o.maybe_dispatch_find_smoke(10, true);
    assert!(matches!(step, FindStep::Start { query, forward: true } if query == "cat"));
    assert!(o.pending_find.is_none());
    assert!(matches!(o.maybe_dispatch_find_smoke(11, true), FindStep::Nothing));
    let mut o = Overlay::new(Some("cat".to_string()), Some(10));
    assert!(matches!(o.maybe_dispatch_find_smoke(9, false), FindStep::Nothing));
    assert!(o.pending_find.is_some());
    // Without an engine it is dropped when its time comes.
    assert!(matches!(o.maybe_dispatch_find_smoke(10, false), FindStep::Nothing));
    assert!(o.pending_find.is_none() && o.find_query.is_none());
    assert!(!o.pump_find_results(1, 2));
}

#[test]
fn find_bars_switch_the_mode_and_every_bar_switches_it_back() {
    let mut o = Overlay::new(None, None);
    assert_eq!(o.open_find(true, 0).mode, Some(PageMode::Command));
    let submit = o.confirm_overlay();
    assert_eq!(
        submit,
        Some(SubmitStep { kind: OverlayKind::Find { forward: true }, mode: PageMode::Normal })
    );
    assert_eq!(o.open_command_line(0).mode, None);
    assert_eq!(o.close_overlay(None).map(|s| s.mode), Some(PageMode::Normal));
    assert_eq!(o.open_omnibar(0).mode, None);
    assert_eq!(o.confirm_overlay().map(|s| s.mode), Some(PageMode::Normal));
    // There is no bar any more.
    assert_eq!(o.close_overlay(None), None);
    assert_eq!(o.confirm_overlay(), None);
}
