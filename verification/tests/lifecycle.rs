//! The watchdog, restoring and saving, favicons, and the main window's frames.
use buffr::favicons::{FaviconTab, Favicons, PumpStep, TabFavicon};
use buffr::frame::{
    EngineCall, EngineView, FrameHeader, PaintInput, PaintState, PaintVerdict,
    OCCLUDE_SLEEP_DEBOUNCE, OCCLUSION_PROBE_INTERVAL,
};
use buffr::id_map::{listed, IdMap};
use buffr::paint_policy::{PaintPath, PaintPolicy, StripHeights};
use buffr::render::{FrameStats, Submitted};
use buffr::restore::{plan_restore, CliFocus, RestoreStep, SessionSaver, SESSION_SAVE_DEBOUNCE};
use buffr::supervisor::{
    child_candidates, is_hung, kill_step, resolve_child_bin, ChildEnd, KillStep, Supervisor,
    SupervisorStep, CRASH_WINDOW,
};

const S: u64 = 1_000_000_000;

#[test]
fn a_clean_exit_ends_the_watchdog() {
    let mut s = Supervisor::new();
    assert_eq!(s.run_supervisor(ChildEnd::Exited(Some(0)), false, false, S), SupervisorStep::Done);
    assert_eq!(s.run_supervisor(ChildEnd::Exited(None), false, true, S), SupervisorStep::Done);
    assert_eq!(s.run_supervisor(ChildEnd::Exited(Some(1)), true, false, S), SupervisorStep::Done);
}

#[test]
fn three_failures_in_the_window_are_too_many() {
    let mut s = Supervisor::new();
    let crash = ChildEnd::Exited(Some(139));
    assert_eq!(s.run_supervisor(crash, false, false, 40 * S), SupervisorStep::Restart);
    assert_eq!(s.run_supervisor(ChildEnd::Hung, false, false, 41 * S), SupervisorStep::Restart);
    assert_eq!(s.run_supervisor(ChildEnd::Hung, false, false, 42 * S), SupervisorStep::Refuse);
    let mut s = Supervisor::new();
    assert_eq!(s.run_supervisor(crash, false, false, 40 * S), SupervisorStep::Restart);
    assert_eq!(s.run_supervisor(crash, false, false, 41 * S), SupervisorStep::Restart);
    let later = 41 * S + CRASH_WINDOW;
    assert_eq!(s.run_supervisor(crash, false, false, later), SupervisorStep::Restart);
}

#[test]
fn a_silent_browser_is_ended_politely_then_firmly() {
    assert!(!is_hung(None, S, 100 * S));
    assert!(!is_hung(Some(S), S, 2 * S - 1));
    assert!(is_hung(Some(S), S, 2 * S));
    assert_eq!(kill_step(true, 9, 5), KillStep::Gone);
    assert_eq!(kill_step(false, 4, 5), KillStep::Wait);
    assert_eq!(kill_step(false, 5, 5), KillStep::Kill);
}

#[test]
fn the_browser_is_looked_for_beside_the_watchdog_first() {
    let dirs = vec!["/usr/bin".to_string(), "/bin".to_string()];
    assert_eq!(
        child_candidates(&Some("/opt".to_string()), &dirs),
        vec!["/opt/buffr", "/usr/bin/buffr", "/bin/buffr"]
    );
    assert_eq!(child_candidates(&None, &dirs).len(), 2);
    let found = vec![("/a".to_string(), false), ("/b".to_string(), true), ("/c".to_string(), true)];
    assert_eq!(resolve_child_bin(&None, &found), Some("/b".to_string()));
    assert_eq!(resolve_child_bin(&Some("/x".to_string()), &found), Some("/x".to_string()));
    assert_eq!(resolve_child_bin(&None, &vec![]), None);
}

#[test]
fn a_session_is_restored_in_order() {
    let tabs = vec![("https://p".to_string(), true), ("https://a".to_string(), false)];
    let cli = vec!["https://c".to_string()];
    let steps = plan_restore(&tabs, Some(1), &cli, true);
    assert_eq!(steps.len(), 4);
    assert!(matches!(&steps[0], RestoreStep::NavigateInitial { url, pinned: true, .. }
        if url == "https://p"));
    assert!(matches!(&steps[1], RestoreStep::OpenBackground { url, pinned: false, from_cli: false }
        if url == "https://a"));
    assert!(matches!(&steps[2], RestoreStep::SelectIndex { index: 1 }));
    assert!(matches!(&steps[3], RestoreStep::OpenBackground { url, from_cli: true, .. }
        if url == "https://c"));
}

#[test]
fn the_command_line_takes_the_empty_tab() {
    let cli = vec!["https://c".to_string(), "https://d".to_string()];
    let steps = plan_restore(&vec![], None, &cli, true);
    assert_eq!(steps.len(), 2);
    assert!(matches!(&steps[0], RestoreStep::NavigateInitial { url, .. } if url == "https://c"));
    assert!(matches!(&steps[1], RestoreStep::OpenBackground { url, from_cli: true, .. }
        if url == "https://d"));
    let mut taken = CliFocus::new(true, true);
    assert!(!taken.opened(true));
    let mut f = CliFocus::new(false, true);
    assert!(!f.opened(false));
    assert!(f.opened(true));
    assert!(!f.opened(true));
}

#[test]
fn a_changed_session_is_saved_after_a_while() {
    let mut s = SessionSaver::new();
    assert!(!s.save_due(u64::MAX));
    s.mark_session_dirty(10);
    s.mark_session_dirty(20);
    assert!(!s.save_due(10 + SESSION_SAVE_DEBOUNCE));
    assert!(!s.save_due(20 + SESSION_SAVE_DEBOUNCE - 1));
    assert!(s.save_due(20 + SESSION_SAVE_DEBOUNCE));
    assert!(s.needs_save(None, &vec![], ""));
    s.saved(Some(0), vec![1], "u".to_string());
    assert!(!s.save_due(u64::MAX));
    assert!(!s.needs_save(Some(0), &vec![1], "u"));
    assert!(s.needs_save(Some(1), &vec![1], "u"));
    assert!(s.needs_save(Some(0), &vec![1, 2], "u"));
    assert!(s.needs_save(Some(0), &vec![1], "v"));
}

fn tab(browser_id: i32, url: &str) -> FaviconTab {
    FaviconTab { browser_id, url: url.to_string(), origin: Some(format!("{url}/o")) }
}

fn icon(v: u8) -> TabFavicon {
    TabFavicon { width: 1, height: 1, pixels: vec![v] }
}

#[test]
fn an_unchanged_tab_is_looked_up_once() {
    let mut f = Favicons::new(true, true);
    let tabs = vec![tab(1, "https://a")];
    match f.begin_pump(&tabs) {
        PumpStep::Lookups(list) => assert_eq!(list, vec![(1, "https://a/o".to_string())]),
        PumpStep::Off { .. } => panic!("favicons are shown"),
    }
    match f.begin_pump(&tabs) {
        PumpStep::Lookups(list) => assert!(list.is_empty()),
        PumpStep::Off { .. } => panic!("favicons are shown"),
    }
    match f.begin_pump(&vec![tab(1, "https://b")]) {
        PumpStep::Lookups(list) => assert_eq!(list.len(), 1),
        PumpStep::Off { .. } => panic!("favicons are shown"),
    }
}

#[test]
fn a_delivered_icon_wins() {
    let mut f = Favicons::new(true, true);
    f.register_favicon_prefill(1, Some("https://a/o".to_string()));
    f.prefill_hit(1, icon(1));
    let writes = f.deliver(vec![(1, icon(2)), (5, icon(3))], &vec![tab(1, "https://a")]);
    assert_eq!(writes, vec![Some("https://a/o".to_string()), None]);
    assert_eq!(f.icons.get(1).unwrap().pixels, vec![2]);
    assert!(!f.prefill.contains(1));
}

#[test]
fn switched_off_favicons_are_dropped() {
    let mut f = Favicons::new(false, true);
    f.icons.insert(1, icon(1));
    assert!(matches!(f.begin_pump(&vec![]), PumpStep::Off { changed: true }));
    assert!(matches!(f.begin_pump(&vec![]), PumpStep::Off { changed: false }));
    let mut f = Favicons::new(true, false);
    f.register_favicon_prefill(1, Some("o".to_string()));
    assert!(f.prefill.is_empty());
}

#[test]
fn a_map_keeps_one_value_for_each_number() {
    let mut m: IdMap<u8> = IdMap::new();
    assert!(m.is_empty());
    m.insert(1, 10);
    m.insert(2, 20);
    m.insert(1, 11);
    assert_eq!(m.get(1), Some(&11));
    m.remove(2);
    assert!(!m.contains(2));
    m.insert(3, 30);
    m.retain(&vec![3]);
    assert!(!m.contains(1) && m.contains(3));
    m.clear();
    assert!(m.is_empty());
    assert!(listed(&vec![1, 2], 2) && !listed(&vec![1], 2));
}

fn strips() -> StripHeights {
    StripHeights { statusline: 20, tab_strip: 30, notice: 25 }
}

fn input(now: u64, generation: u64) -> PaintInput {
    PaintInput {
        now,
        probe_pending: false,
        stats: None,
        window: Some((200, 150)),
        override_size: None,
        logical: (200, 150),
        strips: strips(),
        logical_strips: strips(),
        has_notice: false,
        engine: Some(EngineView {
            frame: Some(FrameHeader {
                width: 200,
                height: 100,
                pixels_len: 80_000,
                generation,
                needs_fresh: false,
            }),
            expected_w: 200,
            expected_h: 100,
            native_compositing: false,
        }),
        has_renderer: true,
        floating: false,
    }
}

#[test]
fn a_fresh_frame_is_uploaded_once() {
    let mut p = PaintState::new();
    let step = p.plan(&input(S, 1));
    assert!(step.swap_pixels);
    let plan = match step.verdict {
        PaintVerdict::Frame(plan) => plan,
        _ => panic!("there is something to paint"),
    };
    assert_eq!(plan.path, PaintPath::FreshOsr);
    assert_eq!(plan.page, (0, 30, 200, 100));
    assert!(plan.repaint_chrome && !plan.upload.unwrap().skip_pixels);
    let fin = p.finish(&plan, Some((100, Submitted::Yes)), Some((200, 150)), S, S);
    assert!(fin.submitted && !fin.redraw);
    // Nothing changed since.
    assert!(matches!(p.plan(&input(S, 1)).verdict, PaintVerdict::Idle));
    assert!(matches!(p.plan(&input(S, 2)).verdict, PaintVerdict::Frame(_)));
}

#[test]
fn a_skipped_frame_keeps_the_chrome_dirty() {
    let mut p = PaintState::new();
    let plan = match p.plan(&input(S, 1)).verdict {
        PaintVerdict::Frame(plan) => plan,
        _ => panic!("there is something to paint"),
    };
    p.finish(&plan, Some((100, Submitted::No)), Some((200, 150)), S, S);
    assert!(p.repaint_retry_at.is_some());
    match p.plan(&input(S, 1)).verdict {
        PaintVerdict::Frame(again) => {
            assert_eq!(again.path, PaintPath::SyntheticScratch);
            assert!(again.repaint_chrome && again.upload.unwrap().skip_pixels);
        }
        _ => panic!("the chrome is still dirty"),
    }
}

#[test]
fn a_window_without_parts_is_not_painted() {
    let mut p = PaintState::new();
    let no_window = PaintInput { window: None, ..input(S, 1) };
    assert!(matches!(p.plan(&no_window).verdict, PaintVerdict::NoWindow));
    let no_renderer = PaintInput { has_renderer: false, ..input(S, 1) };
    assert!(matches!(p.plan(&no_renderer).verdict, PaintVerdict::NoRenderer));
    assert_eq!(PaintState::paint_size(Some((0, 9)), (3, 4)), (1, 9));
    assert_eq!(PaintState::paint_size(None, (3, 0)), (3, 1));
}

#[test]
fn a_covered_window_is_given_some_time_before_it_sleeps() {
    let mut p = PaintState::new();
    assert_eq!(p.report_occlusion(true, S), EngineCall::Nothing);
    assert_eq!(p.sleep_if_due(S + OCCLUDE_SLEEP_DEBOUNCE - 1), EngineCall::Nothing);
    assert_eq!(p.report_occlusion(false, S + OCCLUDE_SLEEP_DEBOUNCE - 1), EngineCall::Nothing);
    assert_eq!(p.sleep_if_due(S + OCCLUDE_SLEEP_DEBOUNCE), EngineCall::Nothing);
    assert_eq!((p.occluded, p.sleep_deadline), (false, None));
    p.report_occlusion(true, S);
    assert_eq!(p.sleep_if_due(S + OCCLUDE_SLEEP_DEBOUNCE), EngineCall::SleepAll);
    assert_eq!((p.occluded, p.sleep_deadline), (true, None));
    assert_eq!(p.sleep_if_due(S + OCCLUDE_SLEEP_DEBOUNCE + 1), EngineCall::Nothing);
    assert_eq!(p.report_occlusion(false, 2 * S), EngineCall::WakeAll);
    assert!(!p.occluded);
}

#[test]
fn slow_frames_put_the_window_to_sleep_and_a_fast_one_wakes_it() {
    let mut p = PaintState::new();
    assert_eq!(p.observe_present_us(600_000, S), EngineCall::SleepAll);
    assert_eq!(p.policy, PaintPolicy::Sleeping);
    assert_eq!(p.next_probe_at, Some(S + OCCLUSION_PROBE_INTERVAL));
    assert!(matches!(p.plan(&input(S, 1)).verdict, PaintVerdict::Asleep));
    let probe = PaintInput { probe_pending: true, ..input(S, 1) };
    assert!(matches!(p.plan(&probe).verdict, PaintVerdict::Frame(_)));
    assert_eq!(p.observe_present_us(1_000, 2 * S), EngineCall::WakeAll);
    assert_eq!(p.policy, PaintPolicy::Active);
    let with_stats = PaintInput {
        stats: Some(FrameStats { present_us: 700_000, submit_done_us: 1 }),
        ..input(3 * S, 2)
    };
    assert_eq!(p.plan(&with_stats).call, EngineCall::SleepAll);
}

#[test]
fn a_probe_that_failed_is_booked_again() {
    let mut p = PaintState::new();
    p.observe_present_us(600_000, S);
    p.next_probe_at = None;
    p.probe_pending = true;
    assert!(p.take_probe());
    p.settle_probe(true, false, 5 * S);
    assert_eq!(p.next_probe_at, Some(5 * S + OCCLUSION_PROBE_INTERVAL));
}

#[test]
fn another_tab_waits_for_a_new_frame() {
    let mut p = PaintState::new();
    p.plan(&input(S, 1));
    p.on_tab_switch(Some(4));
    match p.plan(&input(S, 4)).verdict {
        PaintVerdict::Frame(plan) => {
            assert_eq!(plan.path, PaintPath::Animation);
            assert!(plan.want_anim);
        }
        _ => panic!("the animation is shown"),
    }
    assert!(p.plan(&input(S, 5)).swap_pixels);
    assert_eq!(p.resync_cef_rect(Some((200, 150)), strips(), true, true, S), Some((200, 75)));
    assert!(p.watchdog.is_armed());
    p.mark_chrome_dirty();
    assert_ne!(p.chrome_generation, p.last_painted_chrome_gen);
}

#[test]
fn requested_address_comes_to_the_front() {
    let cli = vec!["https://asked.example".to_string(), "https://other.example".to_string()];
    let saved = vec![("https://saved.example".to_string(), false)];

    let steps = plan_restore(&saved, Some(0), &cli, true);
    assert_eq!(steps.len(), 4);
    assert!(matches!(
        &steps[2],
        RestoreStep::OpenBackground { url, pinned: false, from_cli: true }
            if url == "https://asked.example"
    ));
    let mut focus = CliFocus::new(false, true);
    assert!(focus.opened(true));
    assert!(!focus.opened(true));

    let steps = plan_restore(&Vec::new(), None, &cli, true);
    assert!(matches!(
        &steps[0],
        RestoreStep::NavigateInitial { url, .. } if url == "https://asked.example"
    ));
    assert!(!CliFocus::new(true, true).pending);
}
