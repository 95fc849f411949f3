//! The caret in a page's fields.
use buffr::edit_focus::{EditConsoleEvent, EditEffect, EditFocus, EditState, BLUR_TRANSFER_WINDOW};

fn focus_event(id: &str) -> EditConsoleEvent {
    EditConsoleEvent::Focus { field_id: id.to_string() }
}

fn blur_event(id: &str) -> EditConsoleEvent {
    EditConsoleEvent::Blur { field_id: id.to_string() }
}

fn mutate_event(id: &str) -> EditConsoleEvent {
    EditConsoleEvent::Mutate { field_id: id.to_string() }
}

#[test]
fn focus_moves_to_editing() {
    let mut s = EditState::new();
    let effects = s.drain_edit_focus_events(vec![focus_event("f1")], 5);
    assert!(matches!(&s.focus, EditFocus::Editing { field_id } if field_id == "f1"));
    assert_eq!(effects.len(), 1);
    assert!(matches!(&effects[0], EditEffect::Attach { field_id } if field_id == "f1"));
    assert_eq!(s.last_focused_field.as_deref(), Some("f1"));
}

#[test]
fn blur_resets_to_none() {
    let mut s = EditState::new();
    s.drain_edit_focus_events(vec![focus_event("f1"), blur_event("f1")], 5);
    assert!(matches!(s.focus, EditFocus::Idle));
    assert_eq!(s.pending_blur_at, Some(5));
    assert_eq!(s.last_focused_field.as_deref(), Some("f1"));
}

#[test]
fn mutate_while_editing_is_ignored() {
    let mut s = EditState::new();
    s.drain_edit_focus_events(vec![focus_event("f1"), mutate_event("f1")], 5);
    assert!(matches!(&s.focus, EditFocus::Editing { field_id } if field_id == "f1"));
}

#[test]
fn blur_on_wrong_field_does_not_reset() {
    let mut s = EditState::new();
    s.drain_edit_focus_events(vec![focus_event("f1"), blur_event("f99")], 5);
    assert!(matches!(&s.focus, EditFocus::Editing { field_id } if field_id == "f1"));
    assert_eq!(s.pending_blur_at, None);
}

#[test]
fn a_second_report_of_the_same_field_does_nothing() {
    let mut s = EditState::new();
    let effects = s.drain_edit_focus_events(vec![focus_event("f1"), focus_event("f1")], 5);
    assert!(matches!(&effects[0], EditEffect::Attach { .. }));
    assert!(matches!(&effects[1], EditEffect::Nothing));
}

#[test]
fn a_selection_is_copied_unless_it_is_empty() {
    let mut s = EditState::new();
    let effects = s.drain_edit_focus_events(
        vec![
            EditConsoleEvent::Selection { value: "text".to_string() },
            EditConsoleEvent::Selection { value: String::new() },
        ],
        5,
    );
    assert!(matches!(&effects[0], EditEffect::Copy { value } if value == "text"));
    assert!(matches!(&effects[1], EditEffect::Nothing));
}

#[test]
fn a_caret_that_moves_on_stays_in_insert_mode() {
    let mut s = EditState::new();
    s.insert_intent_at = Some(1);
    s.drain_edit_focus_events(vec![focus_event("a")], 10);
    assert_eq!(s.insert_intent_at, None);
    s.drain_edit_focus_events(vec![blur_event("a"), focus_event("b")], 20);
    assert_eq!(s.pending_blur_at, None);
    assert!(!s.expire_pending_blur(20 + 10 * BLUR_TRANSFER_WINDOW, true));
    assert!(s.focus.is_editing("b"));
    assert!(!s.focus.is_editing("a"));
}

#[test]
fn a_lost_caret_ends_insert_mode_after_the_window() {
    let mut s = EditState::new();
    s.drain_edit_focus_events(vec![focus_event("a"), blur_event("a")], 100);
    assert!(!s.expire_pending_blur(100 + BLUR_TRANSFER_WINDOW - 1, true));
    assert_eq!(s.pending_blur_at, Some(100));
    assert!(s.expire_pending_blur(100 + BLUR_TRANSFER_WINDOW, true));
    assert_eq!(s.pending_blur_at, None);
    assert!(!s.expire_pending_blur(100 + 2 * BLUR_TRANSFER_WINDOW, true));
}

#[test]
fn a_lost_caret_leaves_another_mode_alone() {
    let mut s = EditState::new();
    s.drain_edit_focus_events(vec![focus_event("a"), blur_event("a")], 100);
    assert!(!s.expire_pending_blur(100 + BLUR_TRANSFER_WINDOW, false));
    assert_eq!(s.pending_blur_at, None);
}
