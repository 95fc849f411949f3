//! When to paint, where the page goes, and which tab the pointer is on.
use std::collections::VecDeque;

use buffr::paint_policy::{
    cef_child_rect_pure, decide_frame_commit, decide_paint_path, decide_paint_policy,
    detect_occluded_from_history, hit_test_tab_strip_pure, is_osr_frame_fresh, max_u32, min_u32,
    popup_cef_rect_pure, record_present_us, should_force_chrome_repaint, should_show_loading_anim,
    FrameCommit, PaintPath, PaintPolicy, ResizeDebounce, ResizePaintWatchdog, StripHeights,
    TabMetrics, IMMEDIATE_OCCLUDE_THRESHOLD_US, OSR_DIM_TOLERANCE, PRESENT_HISTORY_SIZE,
    SLOW_FRAMES_TO_OCCLUDE, SLOW_PRESENT_THRESHOLD_US,
};
use buffr::render::Submitted;

const MS: u64 = 1_000_000;
const START: u64 = 1_000_000_000;

const TAB_STRIP_HEIGHT: u32 = 34;
const STATUSLINE_HEIGHT: u32 = 24;
const DOWNLOAD_NOTICE_HEIGHT: u32 = 28;
const PINNED_TAB_WIDTH: u32 = 32;
const MIN_TAB_WIDTH: u32 = 80;
const MAX_TAB_WIDTH: u32 = 220;

fn scaled(h: u32, scale: f32) -> u32 {
    let scale = if scale > 0.0 { scale } else { 1.0 };
    (h as f32 * scale).round() as u32
}

fn strips(scale: f32) -> StripHeights {
    StripHeights {
        notice: scaled(DOWNLOAD_NOTICE_HEIGHT, scale),
        tab_strip: scaled(TAB_STRIP_HEIGHT, scale),
        statusline: scaled(STATUSLINE_HEIGHT, scale),
    }
}

fn metrics() -> TabMetrics {
    TabMetrics {
        strip_height: TAB_STRIP_HEIGHT,
        notice_height: DOWNLOAD_NOTICE_HEIGHT,
        pinned_width: PINNED_TAB_WIDTH,
        min_width: MIN_TAB_WIDTH,
        max_width: MAX_TAB_WIDTH,
    }
}

fn page(full_w: u32, full_h: u32, scale: f32, has_notice: bool) -> (u32, u32, u32, u32) {
    cef_child_rect_pure(full_w, full_h, strips(scale), has_notice)
}

fn popup_bar_h_physical(scale: f32) -> u32 {
    scaled(STATUSLINE_HEIGHT, scale)
}

fn popup(full_w: u32, full_h: u32, scale: f32) -> (u32, u32, u32, u32) {
    popup_cef_rect_pure(full_w, full_h, popup_bar_h_physical(scale))
}

fn painted_quad_rect(full_w: u32, full_h: u32, scale: f32) -> (u32, u32, u32, u32) {
    let phys_bar_h = popup_bar_h_physical(scale);
    (0, phys_bar_h, full_w, full_h.saturating_sub(phys_bar_h).max(1))
}

#[test]
fn paint_policy_visible_no_media() {
    assert_eq!(decide_paint_policy(false, false), PaintPolicy::Active);
}

#[test]
fn paint_policy_occluded_no_media() {
    assert_eq!(decide_paint_policy(true, false), PaintPolicy::Sleeping);
}

#[test]
fn paint_policy_occluded_with_media() {
    // Media plays on in a sleeping window, so the flag changes nothing.
    assert_eq!(decide_paint_policy(true, true), PaintPolicy::Sleeping);
}

#[test]
fn paint_policy_visible_with_media() {
    assert_eq!(decide_paint_policy(false, true), PaintPolicy::Active);
}

#[test]
fn record_present_us_caps_history() {
    let mut h: VecDeque<u64> = VecDeque::new();
    for i in 0..(PRESENT_HISTORY_SIZE as u64 + 3) {
        record_present_us(&mut h, i);
    }
    assert_eq!(h.len(), PRESENT_HISTORY_SIZE);
    assert_eq!(*h.back().unwrap(), PRESENT_HISTORY_SIZE as u64 + 2);
}

#[test]
fn history_keeps_the_newest_in_order() {
    let mut h: VecDeque<u64> = VecDeque::new();
    for i in 1..=7u64 {
        record_present_us(&mut h, i * 10);
    }
    let kept: Vec<u64> = h.into_iter().collect();
    assert_eq!(kept, vec![30, 40, 50, 60, 70]);
}

#[test]
fn occlusion_triggers_on_3_of_5_slow() {
    let h: VecDeque<u64> = [200_000, 5_000, 200_000, 5_000, 200_000].into_iter().collect();
    assert!(detect_occluded_from_history(&h, 100_000, 3));
}

#[test]
fn occlusion_holds_on_2_of_5_slow() {
    let h: VecDeque<u64> = [200_000, 5_000, 200_000, 5_000, 5_000].into_iter().collect();
    assert!(!detect_occluded_from_history(&h, 100_000, 3));
}

#[test]
fn occlusion_short_history_safe() {
    let h: VecDeque<u64> = [200_000, 200_000].into_iter().collect();
    assert!(!detect_occluded_from_history(&h, 100_000, 3));
}

#[test]
fn immediate_occlude_threshold_well_above_typical_slow_frame() {
    assert!(IMMEDIATE_OCCLUDE_THRESHOLD_US >= SLOW_PRESENT_THRESHOLD_US * 5);
}

#[test]
fn loading_anim_off_when_dims_match() {
    assert!(!should_show_loading_anim(Some((1500, 1050)), 1500, 1050));
}

#[test]
fn loading_anim_on_when_no_prior_paint() {
    assert!(should_show_loading_anim(None, 1500, 1050));
}

#[test]
fn loading_anim_on_when_dims_drift() {
    assert!(should_show_loading_anim(Some((1500, 1050)), 1500, 1100));
}

#[test]
fn loading_anim_on_when_width_drifts() {
    assert!(should_show_loading_anim(Some((1400, 1050)), 1500, 1050));
}

#[test]
fn loading_anim_off_within_tolerance() {
    assert!(!should_show_loading_anim(Some((1264, 615)), 1272, 623));
}

#[test]
fn loading_anim_on_when_height_mismatches_beyond_tolerance() {
    assert!(should_show_loading_anim(Some((1272, 500)), 1272, 500 + OSR_DIM_TOLERANCE + 1));
}

#[test]
fn loading_anim_off_even_when_load_would_be_in_flight() {
    assert!(!should_show_loading_anim(Some((1272, 623)), 1272, 623));
}

#[test]
fn cef_rect_chrome_state_changes_height() {
    let (_, _, _, with_notice_h) = page(1500, 1050, 1.0, true);
    let (_, _, _, no_notice_h) = page(1500, 1050, 1.0, false);
    assert!(no_notice_h > with_notice_h);
    assert_eq!(no_notice_h - with_notice_h, DOWNLOAD_NOTICE_HEIGHT);
}

#[test]
fn cef_rect_scale_2x_doubles_chrome_height() {
    let (_, y_1x, _, h_1x) = page(1500, 1050, 1.0, false);
    let (_, y_2x, _, h_2x) = page(1500, 1050, 2.0, false);
    assert_eq!(y_2x, y_1x * 2);
    assert!(h_2x < h_1x);
}

#[test]
fn cef_rect_clamps_to_at_least_one_pixel() {
    let (_, _, w, h) = page(0, 0, 1.0, true);
    assert_eq!((w, h), (1, 1));
}

#[test]
fn rect_invariants() {
    for full_w in [0u32, 1, 2, 640, 1500, 8000] {
        for full_h in [0u32, 1, 40, 86, 87, 88, 200, 1050, 8000] {
            for scale in [0.5f32, 1.0, 1.25, 1.5, 2.0, 4.0] {
                for has_notice in [false, true] {
                    let (_, y, cef_w, cef_h) = page(full_w, full_h, scale, has_notice);
                    assert!(cef_w >= 1 && cef_h >= 1);
                    assert!(cef_w <= full_w.max(1));
                    assert!(y.saturating_add(cef_h) <= full_h.max(1));
                    if has_notice {
                        assert!(y >= page(full_w, full_h, scale, false).1);
                    }
                }
            }
        }
    }
}

#[test]
fn osr_frame_fresh_at_init() {
    let len = 1920 * 1086 * 4;
    assert!(is_osr_frame_fresh(1920, 1086, len, 1, 0, 1920, 1086, false));
}

#[test]
fn osr_frame_not_fresh_when_zero_dims() {
    assert!(!is_osr_frame_fresh(0, 0, 0, 0, 0, 0, 0, false));
    assert!(!is_osr_frame_fresh(1920, 0, 0, 1, 0, 1920, 0, false));
    assert!(!is_osr_frame_fresh(0, 1086, 0, 1, 0, 0, 1086, false));
}

#[test]
fn osr_frame_not_fresh_when_pixels_len_mismatches_dims() {
    let new_dims_len = 1920 * 1086 * 4;
    let old_dims_len = 1900 * 1066 * 4;
    assert!(!is_osr_frame_fresh(1920, 1086, old_dims_len, 2, 1, 1920, 1086, false));
    assert!(!is_osr_frame_fresh(1920, 1086, 0, 2, 1, 1920, 1086, false));
    assert!(is_osr_frame_fresh(1920, 1086, new_dims_len, 2, 1, 1920, 1086, false));
}

#[test]
fn osr_frame_not_fresh_when_generation_unchanged() {
    let len = 1920 * 1086 * 4;
    assert!(!is_osr_frame_fresh(1920, 1086, len, 5, 5, 1920, 1086, false));
}

#[test]
fn osr_frame_fresh_when_generation_advances() {
    let len = 1920 * 1086 * 4;
    assert!(is_osr_frame_fresh(1920, 1086, len, 6, 5, 1920, 1086, false));
    assert!(is_osr_frame_fresh(1920, 1086, len, 100, 5, 1920, 1086, false));
}

#[test]
fn osr_frame_rejects_stale_dim_paint() {
    let (old_w, old_h, new_w, new_h) = (1900u32, 1066u32, 1920u32, 1086u32);
    let old_len = (old_w as usize) * (old_h as usize) * 4;
    assert!(!is_osr_frame_fresh(old_w, old_h, old_len, 2, 1, new_w, new_h, false));
}

#[test]
fn osr_frame_rejects_persisted_stale_paint_on_dim_toggle() {
    let (w, h) = (1920u32, 1086u32);
    let len = (w as usize) * (h as usize) * 4;
    assert!(!is_osr_frame_fresh(w, h, len, 2, 1, w, h, true));
    assert!(is_osr_frame_fresh(w, h, len, 2, 1, w, h, false));
}

#[test]
fn chrome_repaint_when_chrome_state_dirty() {
    assert!(should_force_chrome_repaint(true, false, false));
}

#[test]
fn chrome_repaint_during_animation() {
    assert!(should_force_chrome_repaint(false, true, false));
}

#[test]
fn chrome_repaint_on_animation_deactivation() {
    assert!(should_force_chrome_repaint(false, false, true));
}

#[test]
fn chrome_no_repaint_when_idle_and_steady() {
    assert!(!should_force_chrome_repaint(false, false, false));
}

#[test]
fn anim_forced_on_when_surface_drifted() {
    let last = Some((944u32, 1066u32));
    let base = should_show_loading_anim(last, 944, 1066);
    assert!(!base);
    let drifted = true;
    assert!(base || drifted);
}

#[test]
fn drift_detect_when_used_dims_differ_from_live() {
    let used = (944u32, 1130u32);
    let live = (1920u32, 1200u32);
    assert!(used != live);
    let stable = (944u32, 1130u32);
    assert!(used == stable);
}

#[test]
fn chrome_repaint_combinations() {
    assert!(should_force_chrome_repaint(true, true, false));
    assert!(should_force_chrome_repaint(true, false, true));
    assert!(should_force_chrome_repaint(false, true, true));
    assert!(should_force_chrome_repaint(true, true, true));
}

#[test]
fn osr_frame_accepts_paint_matching_expected_dims() {
    let (new_w, new_h) = (1920u32, 1086u32);
    let new_len = (new_w as usize) * (new_h as usize) * 4;
    assert!(is_osr_frame_fresh(new_w, new_h, new_len, 3, 1, new_w, new_h, false));
}

#[test]
fn osr_frame_resize_sequence_no_panic() {
    let (old_w, old_h, new_w, new_h) = (1900u32, 1066u32, 1920u32, 1086u32);
    let old_len = (old_w as usize) * (old_h as usize) * 4;
    let new_len = (new_w as usize) * (new_h as usize) * 4;
    let mut last_seen = 0u64;
    assert!(is_osr_frame_fresh(old_w, old_h, old_len, 1, last_seen, old_w, old_h, false));
    last_seen = 1;
    assert!(!is_osr_frame_fresh(old_w, old_h, 0, 1, last_seen, old_w, old_h, false));
    assert!(is_osr_frame_fresh(new_w, new_h, new_len, 2, last_seen, new_w, new_h, false));
    last_seen = 2;
    assert!(!is_osr_frame_fresh(new_w, new_h, old_len, 2, last_seen, new_w, new_h, false));
}

#[test]
fn paint_path_animation_arm() {
    assert_eq!(decide_paint_path(true, false, None), PaintPath::Animation);
}

#[test]
fn paint_path_fresh_osr_arm() {
    assert_eq!(decide_paint_path(false, true, None), PaintPath::FreshOsr);
}

#[test]
fn paint_path_synthetic_scratch_arm() {
    assert_eq!(decide_paint_path(false, false, Some((1500, 1050))), PaintPath::SyntheticScratch);
}

#[test]
fn paint_path_dead_fallback_arm() {
    assert_eq!(decide_paint_path(false, false, None), PaintPath::DeadFallback);
}

#[test]
fn paint_path_animation_beats_fresh_osr() {
    assert_eq!(decide_paint_path(true, true, Some((1500, 1050))), PaintPath::Animation);
}

#[test]
fn arm_then_arm_refreshes_deadline() {
    let mut db = ResizeDebounce::default();
    db.arm(800, 600, START, 150 * MS);
    let d1 = db.deadline().unwrap();
    db.arm(820, 610, START + 50 * MS, 150 * MS);
    let d2 = db.deadline().unwrap();
    assert!(d2 > d1);
}

#[test]
fn should_fire_only_after_deadline() {
    let mut db = ResizeDebounce::default();
    db.arm(800, 600, START, 150 * MS);
    assert!(!db.should_fire(START));
    let at = START + 150 * MS;
    assert!(db.should_fire(at));
    assert!(db.should_fire(at + MS));
}

#[test]
fn clear_returns_last_queued_dims_then_resets() {
    let mut db = ResizeDebounce::default();
    db.arm(1920, 1080, START, 150 * MS);
    db.arm(1921, 1081, START, 150 * MS);
    let dims = db.clear();
    assert_eq!(dims, Some((1921, 1081)));
    assert_eq!(db.clear(), None);
    assert!(!db.should_fire(START + 1_000 * MS));
}

#[test]
fn unarmed_never_fires() {
    let db = ResizeDebounce::default();
    assert!(!db.should_fire(START));
    assert!(db.deadline().is_none());
}

#[test]
fn deadline_drives_event_loop_wakeup_clamp() {
    let mut db = ResizeDebounce::default();
    db.arm(800, 600, START, 150 * MS);
    let dl = db.deadline().unwrap();
    assert!(dl >= START + 150 * MS);
    assert!(dl < START + 150 * MS + MS);
}

const TS_W: u32 = 1000;
const TS_H: u32 = 800;

fn hit(x: u32, y: u32, has_notice: bool, pinned: u32, total: u32) -> Option<usize> {
    hit_test_tab_strip_pure(&metrics(), TS_W, TS_H, x, y, has_notice, pinned, total)
}

fn tab_y_inside() -> u32 {
    TAB_STRIP_HEIGHT / 2
}

#[test]
fn tab_hit_outside_y_band_returns_none() {
    assert!(hit(100, TAB_STRIP_HEIGHT, false, 0, 3).is_none());
}

#[test]
fn tab_hit_empty_list_returns_none() {
    assert!(hit(100, tab_y_inside(), false, 0, 0).is_none());
}

#[test]
fn tab_hit_gutter_returns_none() {
    assert!(hit(2, tab_y_inside(), false, 0, 1).is_none());
}

#[test]
fn tab_hit_pinned_region_returns_correct_index() {
    const GUTTER: u32 = 4;
    let x0 = GUTTER + PINNED_TAB_WIDTH / 2;
    assert_eq!(hit(x0, tab_y_inside(), false, 2, 2), Some(0));
    let x1 = GUTTER + PINNED_TAB_WIDTH + GUTTER + PINNED_TAB_WIDTH / 2;
    assert_eq!(hit(x1, tab_y_inside(), false, 2, 2), Some(1));
}

#[test]
fn tab_hit_unpinned_single_returns_index_0() {
    assert_eq!(hit(4 + 10, tab_y_inside(), false, 0, 1), Some(0));
}

#[test]
fn tab_hit_unpinned_three_returns_correct_indices() {
    const GUTTER: u32 = 4;
    let w = MAX_TAB_WIDTH;
    let x0 = GUTTER + w / 2;
    let x1 = GUTTER + w + GUTTER + w / 2;
    let x2 = GUTTER + w + GUTTER + w + GUTTER + w / 2;
    assert_eq!(hit(x0, tab_y_inside(), false, 0, 3), Some(0));
    assert_eq!(hit(x1, tab_y_inside(), false, 0, 3), Some(1));
    assert_eq!(hit(x2, tab_y_inside(), false, 0, 3), Some(2));
}

#[test]
fn tab_hit_unpinned_seven_tabs_returns_correct_indices() {
    const GUTTER: u32 = 4;
    let unpinned_w: u32 = 138;
    for i in 0u32..7 {
        let x = GUTTER + i * (unpinned_w + GUTTER) + unpinned_w / 2;
        assert_eq!(hit(x, tab_y_inside(), false, 0, 7), Some(i as usize));
    }
}

#[test]
fn tab_hit_hidpi_sanity() {
    let x = 4 + 10;
    let r1x = hit(x, tab_y_inside(), false, 0, 1);
    let r2x = hit(x, tab_y_inside(), false, 0, 1);
    assert_eq!(r1x, r2x);
    assert_eq!(r1x, Some(0));
}

#[test]
fn notice_pushes_the_tabs_down() {
    assert_eq!(hit(14, 10, true, 0, 1), None);
    assert_eq!(hit(14, DOWNLOAD_NOTICE_HEIGHT + 10, true, 0, 1), Some(0));
}

#[test]
fn every_pixel_is_on_at_most_one_tab() {
    let mut last: Option<usize> = None;
    for x in 0..TS_W {
        if let Some(i) = hit(x, tab_y_inside(), false, 2, 6) {
            if let Some(l) = last {
                assert!(i == l || i == l + 1);
            }
            last = Some(i);
        }
    }
    assert_eq!(last, Some(5));
}

#[test]
fn watchdog_arm_then_observe_clears() {
    let mut wd = ResizePaintWatchdog::default();
    wd.arm(1920, 1086, START, 500 * MS);
    assert!(wd.is_armed());
    assert!(wd.observe_paint(1920, 1086));
    assert!(!wd.is_armed());
}

#[test]
fn watchdog_observe_wrong_dims_does_not_clear() {
    let mut wd = ResizePaintWatchdog::default();
    wd.arm(1920, 1086, START, 500 * MS);
    assert!(!wd.observe_paint(1900, 1066));
    assert!(wd.is_armed());
}

#[test]
fn watchdog_should_force_repaint_after_deadline() {
    let mut wd = ResizePaintWatchdog::default();
    wd.arm(1920, 1086, START, 500 * MS);
    assert!(!wd.should_force_repaint(START));
    assert!(wd.should_force_repaint(START + 501 * MS));
}

#[test]
fn watchdog_force_repaint_bumps_deadline_and_retries() {
    let mut wd = ResizePaintWatchdog::default();
    wd.arm(1920, 1086, START, 500 * MS);
    wd.record_force_repaint(START, 500 * MS);
    assert_eq!(wd.retry_count(), 1);
    assert!(wd.deadline().unwrap() >= START + 500 * MS);
}

#[test]
fn watchdog_caps_retries_at_max() {
    let mut wd = ResizePaintWatchdog::default();
    wd.arm(1920, 1086, START, 500 * MS);
    for _ in 0..ResizePaintWatchdog::MAX_RETRIES {
        assert!(wd.is_armed());
        wd.record_force_repaint(START, 500 * MS);
    }
    assert!(!wd.is_armed());
}

#[test]
fn watchdog_unarmed_should_not_fire() {
    let wd = ResizePaintWatchdog::default();
    assert!(!wd.should_force_repaint(START));
    assert!(!wd.is_armed());
}

#[test]
fn frame_commit_submitted_retires_dirty_and_samples() {
    let c = decide_frame_commit(Some((1234, Submitted::Yes)), true);
    assert!(c.advance_chrome_gen);
    assert_eq!(c.observe_us, Some(1234));
    assert!(!c.retry_paint);
}

#[test]
fn frame_commit_submitted_clean_chrome_does_not_advance() {
    let c = decide_frame_commit(Some((10, Submitted::Yes)), false);
    assert!(!c.advance_chrome_gen);
    assert_eq!(c.observe_us, Some(10));
}

#[test]
fn frame_commit_skipped_keeps_dirty_state() {
    let c = decide_frame_commit(Some((999_999, Submitted::No)), true);
    assert!(!c.advance_chrome_gen);
    assert!(c.retry_paint);
}

#[test]
fn frame_commit_skipped_does_not_resample_stale_stats() {
    let c = decide_frame_commit(Some((150_000, Submitted::No)), true);
    assert_eq!(c.observe_us, None);
}

#[test]
fn frame_commit_error_neither_retires_nor_samples() {
    let c = decide_frame_commit(None, true);
    assert!(!c.advance_chrome_gen);
    assert_eq!(c.observe_us, None);
    assert!(!c.retry_paint);
    assert_eq!(c, FrameCommit::default());
}

#[test]
fn skipped_frames_cannot_fill_the_occlusion_history() {
    let mut history = VecDeque::with_capacity(PRESENT_HISTORY_SIZE);
    let outcomes = [
        Some((150_000u64, Submitted::Yes)),
        Some((150_000, Submitted::No)),
        Some((150_000, Submitted::No)),
        Some((150_000, Submitted::No)),
        Some((150_000, Submitted::No)),
    ];
    for o in outcomes {
        if let Some(us) = decide_frame_commit(o, false).observe_us {
            record_present_us(&mut history, us);
        }
    }
    assert_eq!(history.len(), 1);
    assert!(!detect_occluded_from_history(
        &history,
        SLOW_PRESENT_THRESHOLD_US,
        SLOW_FRAMES_TO_OCCLUDE
    ));
    let mut history = VecDeque::with_capacity(PRESENT_HISTORY_SIZE);
    for _ in 0..3 {
        if let Some(us) = decide_frame_commit(Some((150_000, Submitted::Yes)), false).observe_us {
            record_present_us(&mut history, us);
        }
    }
    assert!(detect_occluded_from_history(
        &history,
        SLOW_PRESENT_THRESHOLD_US,
        SLOW_FRAMES_TO_OCCLUDE
    ));
}

#[test]
fn skipped_probe_cannot_fake_a_wake() {
    assert_eq!(decide_frame_commit(Some((100, Submitted::No)), false).observe_us, None);
}

#[test]
fn popup_viewport_matches_painted_quad_at_1x() {
    let (w, h, scale) = (800u32, 600u32, 1.0f32);
    assert_eq!(popup(w, h, scale), painted_quad_rect(w, h, scale));
}

#[test]
fn popup_viewport_matches_painted_quad_at_2x() {
    let (w, h) = (1600u32, 1200u32);
    assert_eq!(popup(w, h, 2.0), painted_quad_rect(w, h, 2.0));
    let bar_1x = popup(w, h, 1.0).1;
    let bar_2x = popup(w, h, 2.0).1;
    assert_eq!(bar_2x, bar_1x * 2);
    assert_eq!(popup(w, h, 2.0).3, h - bar_2x);
}

#[test]
fn popup_viewport_does_not_underflow_on_tiny_window() {
    let bar = popup_bar_h_physical(1.0);
    for h in [0, 1, bar / 2, bar, bar + 1] {
        let (_, _, cef_w, cef_h) = popup(0, h, 1.0);
        assert!(cef_h >= 1);
        assert!(cef_w >= 1);
    }
}

#[test]
fn popup_viewport_origin_y_is_the_bar_height() {
    for scale in [1.0f32, 1.5, 2.0] {
        let (x, y, _, _) = popup(1024, 768, scale);
        assert_eq!(x, 0);
        assert_eq!(y, popup_bar_h_physical(scale));
        assert_eq!(y, painted_quad_rect(1024, 768, scale).1);
    }
}

#[test]
fn popup_content_rect_leaves_room_below_the_bar_at_scale_2() {
    let (phys_h, scale) = (1600u32, 2.0);
    let bar = popup_bar_h_physical(scale);
    assert_eq!(bar, STATUSLINE_HEIGHT * 2);
    assert_eq!(popup(1000, phys_h, scale).3, phys_h - STATUSLINE_HEIGHT * 2);
}

#[test]
fn smaller_and_larger() {
    assert_eq!((min_u32(3, 5), min_u32(5, 3)), (3, 3));
    assert_eq!((max_u32(3, 5), max_u32(5, 3)), (5, 5));
}
