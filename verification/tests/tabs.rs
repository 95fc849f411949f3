//! The strip, the title, the popups and the window as a whole.
use buffr::app_state::AppState;
use buffr::commands::{ActionInput, ActionStep, PageAction};
use buffr::favicons::{Favicons, TabFavicon};
use buffr::frame::FrameHeader;
use buffr::keys::PromptOutcome;
use buffr::overlay::{FindStep, OverlayKind, FIND_LIVE_DEBOUNCE};
use buffr::popup::{
    button_flag, MouseButton, PopupEnv, PopupStep, PopupWindow, CEF_RESIZE_DEBOUNCE,
    DOUBLE_CLICK_WINDOW,
};
use buffr::prompts::{PendingPermission, ResolveStep};
use buffr::render::Submitted;
use buffr::swipe::{SwipeAction, SwipeDetector};
use buffr::tabs::{
    after_close, all_tabs_gone, mode_label, title_for, CloseConfirm, CloseTabStep, EngineMark,
    PageMode, PinnedCloseStep, SplashPush, SplashStep, TabStrip, TabSummary, TitleState,
};
use buffr::windowing::{
    AxisDirection, AxisSource, KeyCode, KeyEvent, KeyState, Modifiers, PointerButton,
    PointerButtonState, PointerPosition, Position, ScanCode, ScrollEvent, Size, WindowEvent,
};

#[test]
fn titles_name_the_mode_and_the_page() {
    assert_eq!(title_for(false, "NORMAL", "https://a"), "buffr — NORMAL — https://a");
    assert_eq!(title_for(true, "NORMAL", "https://a"), "buffr — PRIVATE — NORMAL — https://a");
    assert_eq!(title_for(false, "INSERT", ""), "buffr — INSERT");
    assert_eq!(mode_label(PageMode::Normal), "NORMAL");
    assert_eq!(mode_label(PageMode::Visual), "VISUAL");
    assert_eq!(mode_label(PageMode::Command), "COMMAND");
    assert_eq!(mode_label(PageMode::Hint), "HINT");
    assert_eq!(mode_label(PageMode::Insert), "INSERT");
}

#[test]
fn a_title_settles() {
    let mut t = TitleState::new(false, "https://a".to_string());
    let step = t.refresh_title(PageMode::Normal, None);
    assert!(step.set_title && step.repaint && !step.clear_selection);
    assert_eq!(t.title, "buffr — NORMAL — https://a");
    let step = t.refresh_title(PageMode::Normal, None);
    assert!(!step.set_title && !step.repaint);
    let step = t.refresh_title(PageMode::Normal, Some(3));
    assert!(!step.set_title && step.repaint);
    t.refresh_title(PageMode::Visual, None);
    let step = t.refresh_title(PageMode::Normal, None);
    assert!(step.clear_selection && step.set_title);
}

fn summary(id: u64, browser_id: i32, title: &str, pinned: bool) -> TabSummary {
    TabSummary { id, browser_id, title: title.to_string(), progress: 0, pinned, private: false }
}

fn no_mark() -> EngineMark {
    EngineMark { badge: None, label: None }
}

#[test]
fn a_strip_changes_only_with_what_it_shows() {
    let mut strip = TabStrip::new();
    let mut icons = Favicons::new(true, true);
    let tabs = vec![summary(10, 1, "one", true), summary(11, 2, "two", false)];
    assert!(strip.refresh_tab_strip(&tabs, Some(0), &mut icons, &no_mark(), None));
    assert!(!strip.refresh_tab_strip(&tabs, Some(0), &mut icons, &no_mark(), None));
    assert!(strip.refresh_tab_strip(&tabs, Some(1), &mut icons, &no_mark(), None));
    assert!(strip.refresh_tab_strip(&tabs, Some(1), &mut icons, &no_mark(), Some(1)));
    assert!(strip.tabs[1].hovered && !strip.tabs[0].hovered);
    let mark = EngineMark { badge: Some(7), label: Some("wk".to_string()) };
    assert!(strip.refresh_tab_strip(&tabs, Some(1), &mut icons, &mark, Some(1)));
    assert_eq!(strip.tabs[0].engine_label.as_deref(), Some("wk"));
    assert_eq!(strip.ids, vec![10, 11]);
    assert_eq!(strip.pinned_count(), 1);
}

#[test]
fn favicons_of_closed_tabs_are_forgotten() {
    let mut strip = TabStrip::new();
    let mut icons = Favicons::new(true, true);
    icons.prefill_hit(1, TabFavicon { width: 1, height: 1, pixels: vec![1, 2, 3, 4] });
    icons.prefill_hit(9, TabFavicon { width: 1, height: 1, pixels: vec![9] });
    let tabs = vec![summary(10, 1, "one", false)];
    strip.refresh_tab_strip(&tabs, None, &mut icons, &no_mark(), None);
    assert!(icons.icons.contains(1) && !icons.icons.contains(9));
    assert_eq!(strip.tabs[0].favicon.as_ref().unwrap().pixels, vec![1, 2, 3, 4]);
    // Other pixels are another strip.
    icons.prefill_hit(1, TabFavicon { width: 1, height: 1, pixels: vec![5, 2, 3, 4] });
    assert!(strip.refresh_tab_strip(&tabs, None, &mut icons, &no_mark(), None));
}

#[test]
fn a_pinned_tab_is_asked_about() {
    let mut c = CloseConfirm::new();
    assert_eq!(c.close_active_tab_or_exit(false, Some((5, true))), CloseTabStep::Nothing);
    assert_eq!(c.close_active_tab_or_exit(true, Some((5, true))), CloseTabStep::Ask);
    assert_eq!(c.resolve_pinned_close(false), PinnedCloseStep::Dismiss);
    assert_eq!(c.resolve_pinned_close(true), PinnedCloseStep::Nothing);
    assert_eq!(c.close_active_tab_or_exit(true, Some((5, true))), CloseTabStep::Ask);
    assert_eq!(c.resolve_pinned_close(true), PinnedCloseStep::Close(5));
    assert_eq!(c.close_active_tab_or_exit(true, Some((5, false))), CloseTabStep::Close);
    assert_eq!(c.close_active_tab_or_exit(true, None), CloseTabStep::Close);
}

#[test]
fn the_last_tab_ends_the_program() {
    let left = after_close(Some(true), &vec![0, 2]);
    assert!(!left.exit && left.remains);
    // Another engine has tabs left.
    let other = after_close(Some(false), &vec![0, 2]);
    assert!(!other.exit && other.remains);
    let last = after_close(Some(false), &vec![0, 0]);
    assert!(last.exit && !last.remains);
    let last = after_close(Some(true), &vec![0, 0]);
    assert!(last.exit && !last.remains);
    let failed = after_close(None, &vec![0]);
    assert!(!failed.exit && failed.remains);
    assert!(all_tabs_gone(&vec![]) && all_tabs_gone(&vec![0, 0]) && !all_tabs_gone(&vec![0, 1]));
}

#[test]
fn the_animation_advances_with_its_ticks() {
    let mut s = SplashPush::new();
    assert_eq!(s.tick_splash_js_push(None, 1, 100, 50), SplashStep::Nothing);
    assert_eq!(s.tick_splash_js_push(Some(true), 1, 100, 50), SplashStep::Push(1));
    assert_eq!(s.tick_splash_js_push(Some(true), 2, 120, 50), SplashStep::Nothing);
    assert_eq!(s.tick_splash_js_push(Some(true), 1, 150, 50), SplashStep::Nothing);
    assert_eq!(s.tick_splash_js_push(Some(true), 2, 200, 50), SplashStep::Push(2));
    assert_eq!(s.tick_splash_js_push(Some(false), 3, 250, 50), SplashStep::Nothing);
    assert_eq!(s, SplashPush { last_tick: None, next_push: None });
}

fn frame(generation: u64) -> FrameHeader {
    FrameHeader { width: 100, height: 50, pixels_len: 20_000, generation, needs_fresh: false }
}

#[test]
fn a_popup_paints_fresh_pixels_then_reuses_them() {
    let mut p = PopupWindow::new(3, 0);
    let plan = p.plan((100, 80), 30, None, (100, 50));
    assert!(plan.upload.is_none() && plan.chrome_dirty && !plan.swap_pixels);
    let plan = p.plan((100, 80), 30, Some(frame(1)), (100, 50));
    let up = plan.upload.unwrap();
    assert!(plan.swap_pixels && !up.skip_pixels);
    assert_eq!((up.width, up.height, up.generation), (100, 50, 1));
    assert_eq!(up.dst_rect, (0, 30, 100, 50));
    p.finish(&plan, Some((10, Submitted::Yes)), 5);
    let plan = p.plan((100, 80), 30, Some(frame(1)), (100, 50));
    assert!(!plan.swap_pixels && !plan.chrome_dirty && plan.upload.unwrap().skip_pixels);
    // A frame of another size is not taken.
    let plan = p.plan((100, 80), 30, Some(frame(2)), (90, 50));
    assert!(!plan.swap_pixels);
}

#[test]
fn a_skipped_popup_frame_is_painted_again() {
    let mut p = PopupWindow::new(3, 0);
    let plan = p.plan((0, 0), 30, None, (100, 50));
    assert_eq!((plan.width, plan.height), (1, 1));
    p.finish(&plan, Some((10, Submitted::No)), 5);
    assert!(p.repaint_retry_at.is_some());
    assert!(p.plan((1, 1), 30, None, (100, 50)).chrome_dirty);
    p.finish(&plan, None, 6);
    assert!(p.repaint_retry_at.is_none());
    assert!(p.plan((1, 1), 30, None, (100, 50)).chrome_dirty);
}

fn env(now: u64, button: Option<MouseButton>) -> PopupEnv {
    PopupEnv { has_engine: true, now, bar_h: 30, button }
}

fn press(state: PointerButtonState) -> WindowEvent {
    WindowEvent::PointerButton {
        button: PointerButton::Left,
        state,
        modifiers: Modifiers::default(),
    }
}

#[test]
fn popup_clicks_are_counted() {
    let mut p = PopupWindow::new(3, 0);
    let mut s = SwipeDetector::default();
    let left = Some(MouseButton::Left);
    let mut click = |p: &mut PopupWindow, now: u64, b: MouseButton| {
        let step =
            p.handle_popup_window_event(&mut s, &press(PointerButtonState::Pressed), &env(now, Some(b)));
        match step {
            PopupStep::Click { click_count, .. } => click_count,
            _ => panic!("a press is a click"),
        }
    };
    let t = DOUBLE_CLICK_WINDOW;
    assert_eq!(click(&mut p, t, MouseButton::Left), 1);
    assert_eq!(click(&mut p, t + 1, MouseButton::Left), 2);
    assert_eq!(click(&mut p, t + 2, MouseButton::Left), 3);
    assert_eq!(click(&mut p, t + 3, MouseButton::Left), 3);
    assert_eq!(click(&mut p, t + 4, MouseButton::Right), 1);
    assert_eq!(click(&mut p, 3 * t, MouseButton::Right), 1);
    assert_eq!(p.mouse_buttons, button_flag(MouseButton::Left) | button_flag(MouseButton::Right));
    let mut s = SwipeDetector::default();
    let up = press(PointerButtonState::Released);
    p.handle_popup_window_event(&mut s, &up, &env(3 * t, left));
    assert_eq!(p.mouse_buttons, button_flag(MouseButton::Right));
    assert_eq!(button_flag(MouseButton::Middle), 32);
    let none = p.handle_popup_window_event(&mut s, &up, &env(3 * t, None));
    assert!(matches!(none, PopupStep::Nothing));
}

#[test]
fn popup_pointer_positions_start_below_the_bar() {
    let mut p = PopupWindow::new(3, 0);
    let mut s = SwipeDetector::default();
    let at = |x, y| WindowEvent::PointerMoved { position: PointerPosition(Position { x, y }) };
    let step = p.handle_popup_window_event(&mut s, &at(10, 40), &env(0, None));
    assert!(matches!(step, PopupStep::Move { x: 10, y: 10, buttons: 0 }));
    let step = p.handle_popup_window_event(
        &mut s,
        &press(PointerButtonState::Pressed),
        &env(0, Some(MouseButton::Left)),
    );
    assert!(matches!(step, PopupStep::Click { x: 10, y: 10, focus: true, mouse_up: false, .. }));
    p.handle_popup_window_event(&mut s, &at(10, 5), &env(0, None));
    assert_eq!(p.cursor, (10, -25));
    let step = p.handle_popup_window_event(
        &mut s,
        &press(PointerButtonState::Pressed),
        &env(0, Some(MouseButton::Left)),
    );
    assert!(matches!(step, PopupStep::Click { focus: false, .. }));
    let step = p.handle_popup_window_event(&mut s, &WindowEvent::PointerLeft, &env(0, None));
    assert!(matches!(step, PopupStep::Move { x: 0, y: 0, buttons: 0 }));
    p.handle_popup_window_event(&mut s, &at(0, i32::MIN), &env(0, None));
    assert_eq!(p.cursor, (0, i32::MIN));
}

#[test]
fn popup_windows_close_resize_and_focus() {
    let mut p = PopupWindow::new(3, 0);
    let mut s = SwipeDetector::default();
    let size = WindowEvent::Resized(Size { width: 0, height: 200 });
    let step = p.handle_popup_window_event(&mut s, &size, &env(7, None));
    assert!(matches!(step, PopupStep::Paint));
    assert_eq!(p.pending_cef_resize, Some((1, 200, 7 + CEF_RESIZE_DEBOUNCE)));
    assert_eq!(p.chrome_generation, 2);
    let step = p.handle_popup_window_event(&mut s, &WindowEvent::Focused, &env(7, None));
    assert!(matches!(step, PopupStep::Focus(true)));
    let step = p.handle_popup_window_event(&mut s, &WindowEvent::Unfocused, &env(7, None));
    assert!(matches!(step, PopupStep::Focus(false)));
    let step = p.handle_popup_window_event(&mut s, &WindowEvent::CloseRequested, &env(7, None));
    assert!(matches!(step, PopupStep::Remove { close: true }));
    let mut lost = PopupWindow::new(-1, 0);
    let step = lost.handle_popup_window_event(&mut s, &WindowEvent::CloseRequested, &env(7, None));
    assert!(matches!(step, PopupStep::Remove { close: false }));
    lost.handle_popup_window_event(&mut s, &size, &env(7, None));
    assert_eq!(lost.pending_cef_resize, None);
    let step = lost.handle_popup_window_event(&mut s, &WindowEvent::Focused, &env(7, None));
    assert!(matches!(step, PopupStep::Nothing));
}

#[test]
fn popup_swipes_navigate_and_then_do_not_scroll() {
    let mut p = PopupWindow::new(3, 0);
    let mut s = SwipeDetector::default();
    let scroll = |delta: i64, source| {
        WindowEvent::Scroll(ScrollEvent {
            axis: AxisDirection::Horizontal,
            delta,
            discrete_steps: 0,
            high_res_120: 0,
            source,
        })
    };
    let far = 200 * 65_536;
    let step = p.handle_popup_window_event(&mut s, &scroll(far, AxisSource::Wheel), &env(0, None));
    assert!(matches!(step, PopupStep::Wheel { .. }));
    let step = p.handle_popup_window_event(&mut s, &scroll(far, AxisSource::Finger), &env(0, None));
    assert!(matches!(step, PopupStep::History(SwipeAction::HistoryBack)));
    let step = p.handle_popup_window_event(&mut s, &scroll(5, AxisSource::Finger), &env(1, None));
    assert!(matches!(step, PopupStep::Nothing));
}

#[test]
fn popup_keys_carry_their_modifiers() {
    let mut p = PopupWindow::new(3, 0);
    let mut s = SwipeDetector::default();
    let held = Modifiers { ctrl: true, ..Modifiers::default() };
    let key = WindowEvent::Key(KeyEvent {
        scancode: ScanCode(1),
        key_code: KeyCode::Sym(0),
        modifiers: held,
        state: KeyState::Pressed,
        text: None,
        repeat: false,
    });
    assert!(matches!(p.handle_popup_window_event(&mut s, &key, &env(0, None)), PopupStep::Keys));
    assert_eq!(p.modifiers, held);
    let changed = WindowEvent::ModifiersChanged(Modifiers::default());
    p.handle_popup_window_event(&mut s, &changed, &env(0, None));
    assert_eq!(p.modifiers, Modifiers::default());
}

fn app() -> AppState {
    AppState::new(
        "https://home".to_string(),
        "buffr://new".to_string(),
        false,
        Some("cat".to_string()),
        true,
        false,
    )
}

#[test]
fn a_window_starts_blank_and_dirty() {
    let a = app();
    assert!(a.chrome_is_dirty());
    assert_eq!(a.active_engine, "cef");
    assert_eq!(a.homepage, "https://home");
    assert_eq!(a.new_tab_url, "buffr://new");
    assert_eq!(a.overlay.pending_find.as_deref(), Some("cat"));
    assert!(a.icons.show && !a.icons.has_cache);
    assert!(!a.saver.dirty && !a.window_focused);
    assert_eq!(a.click_count, 1);
}

#[test]
fn visible_changes_mark_the_chrome() {
    let mut a = app();
    let mut last = a.paint.chrome_generation;
    let mut marked = |a: &AppState| {
        let now = a.paint.chrome_generation;
        let changed = now != last;
        last = now;
        changed
    };
    a.open_command_line(1);
    assert!(marked(&a));
    assert_eq!(a.overlay.kind, Some(OverlayKind::Command));
    a.close_overlay(Some(1), 2);
    assert!(marked(&a));
    a.close_overlay(Some(1), 3);
    assert!(!marked(&a));
    assert_eq!(a.open_find(true, 4).mode, Some(PageMode::Command));
    assert!(marked(&a));
    let step = a.maybe_dispatch_find_live(4, "x", true);
    assert!(matches!(step, FindStep::Nothing) && !marked(&a));
    let step = a.maybe_dispatch_find_live(4 + FIND_LIVE_DEBOUNCE, "x", true);
    assert!(matches!(step, FindStep::Start { .. }) && marked(&a));
    a.refresh_title(PageMode::Insert, None);
    assert!(marked(&a));
    a.refresh_title(PageMode::Insert, None);
    assert!(!marked(&a));
    let tabs = vec![summary(1, 1, "t", false)];
    assert!(a.refresh_tab_strip(&tabs, Some(0), &no_mark(), None) && marked(&a));
    assert!(!a.refresh_tab_strip(&tabs, Some(0), &no_mark(), None) && !marked(&a));
    let mut queue = vec![request(1)];
    assert!(a.sync_permissions_prompt(Some(&queue)) && marked(&a));
    a.resolve_permission(&mut queue, PromptOutcome::Defer);
    assert!(marked(&a) && queue.is_empty());
    assert_eq!(a.close_active_tab_or_exit(true, Some((1, true))), CloseTabStep::Ask);
    assert!(marked(&a));
    assert_eq!(a.resolve_pinned_close(false, true, 9), PinnedCloseStep::Dismiss);
    assert!(marked(&a));
}

fn request(identity: u64) -> PendingPermission {
    PendingPermission {
        identity,
        resolve_id: None,
        origin: "o".to_string(),
        capabilities: vec![],
        labels: vec![],
    }
}

#[test]
fn prompts_mark_the_chrome_as_they_come_and_go() {
    let mut a = app();
    let mut last = a.paint.chrome_generation;
    let mut marks = |a: &AppState| {
        let n = a.paint.chrome_generation - last;
        last = a.paint.chrome_generation;
        n
    };
    assert!(a.sync_permissions_prompt(Some(&vec![request(1)])));
    assert_eq!(marks(&a), 1);
    assert!(!a.sync_permissions_prompt(Some(&vec![request(1)])));
    assert_eq!(marks(&a), 0);
    assert!(a.sync_permissions_prompt(Some(&vec![request(2)])));
    assert_eq!(marks(&a), 2);
    assert!(a.sync_permissions_prompt(Some(&vec![])));
    assert_eq!(marks(&a), 1);
    a.sync_permissions_prompt(Some(&vec![request(3)]));
    assert_eq!(marks(&a), 1);
    let mut queue = vec![request(3), request(4)];
    let step = a.resolve_permission(&mut queue, PromptOutcome::Defer);
    assert!(matches!(step, ResolveStep::Apply { .. }));
    assert_eq!(marks(&a), 2);
    let mut other = vec![request(5)];
    let step = a.resolve_permission(&mut other, PromptOutcome::Defer);
    assert!(matches!(step, ResolveStep::Stale));
    assert_eq!(marks(&a), 3);
    let step = a.resolve_permission(&mut other, PromptOutcome::Defer);
    assert!(matches!(step, ResolveStep::Apply { .. }));
    assert_eq!(marks(&a), 1);
    a.sync_permissions_prompt(Some(&vec![request(6)]));
    assert_eq!(marks(&a), 1);
    assert!(a.sync_permissions_prompt(None));
    assert_eq!(marks(&a), 1);
}

#[test]
fn changed_tabs_mark_the_session() {
    let mut a = app();
    let input = ActionInput {
        has_engine: true,
        active_index: Some(0),
        pinned_count: 0,
        active_engine: "cef",
        engine_is_known: true,
        live_url: "u",
        homepage: "h",
    };
    assert!(matches!(a.dispatch_action(&PageAction::Reload, &input, 5), ActionStep::Dispatch));
    assert!(!a.saver.dirty);
    assert!(matches!(a.dispatch_action(&PageAction::PinTab, &input, 5), ActionStep::TogglePin));
    assert_eq!(a.saver.dirty_since, Some(5));
    // Each change starts the clock anew; what is not one leaves it.
    assert!(a.engine_opened("webkit", true, 9));
    assert_eq!(a.saver.dirty_since, Some(9));
    assert!(!a.engine_opened("cef", false, 12));
    assert_eq!(a.saver.dirty_since, Some(9));
    assert_eq!((a.homepage.as_str(), a.click_count), (app().homepage.as_str(), 1));
    assert_eq!(a.active_engine, "webkit");
    let mut b = app();
    b.adjacent_tab_opened(Some(4), 1);
    assert!(!b.saver.dirty);
    b.close_overlay(Some(2), 7);
    assert_eq!(b.saver.dirty_since, Some(7));
    b.adjacent_tab_opened(None, 8);
    assert_eq!(b.overlay.kind, None);
    b.open_omnibar(9);
    assert_eq!(b.overlay.kind, Some(OverlayKind::Omnibar));
}
