//! The two-finger swipe.
use buffr::fixed::FIXED_ONE;
use buffr::popup::is_touchpad;
use buffr::swipe::{scroll_swipe_delta, SwipeAction, SwipeDetector};
use buffr::windowing::{AxisDirection, AxisSource, ScrollEvent};

const MS: u64 = 1_000_000;
const START: u64 = 1_000_000_000;

fn fixed(v: f64) -> i64 {
    (v * FIXED_ONE as f64).round() as i64
}

fn touchpad_scroll(axis: AxisDirection, delta: f64) -> ScrollEvent {
    ScrollEvent {
        axis,
        delta: fixed(delta),
        discrete_steps: 0,
        high_res_120: 0,
        source: AxisSource::Finger,
    }
}

fn feed_scroll(det: &mut SwipeDetector, ev: &ScrollEvent, now: u64) -> Option<SwipeAction> {
    let (dx, dy) = scroll_swipe_delta(ev);
    det.feed(dx, dy, now)
}

#[test]
fn scroll_swipe_delta_keeps_the_event_on_its_own_axis() {
    assert_eq!(
        scroll_swipe_delta(&touchpad_scroll(AxisDirection::Horizontal, 7.0)),
        (fixed(7.0), 0)
    );
    assert_eq!(
        scroll_swipe_delta(&touchpad_scroll(AxisDirection::Vertical, 7.0)),
        (0, fixed(7.0))
    );
}

#[test]
fn only_a_touchpad_swipes() {
    let from = |source| ScrollEvent { source, ..touchpad_scroll(AxisDirection::Horizontal, 7.0) };
    assert!(is_touchpad(&from(AxisSource::Finger)) && is_touchpad(&from(AxisSource::Continuous)));
    assert!(!is_touchpad(&from(AxisSource::Wheel)) && !is_touchpad(&from(AxisSource::WheelTilt)));
}

#[test]
fn vertical_scroll_never_navigates_history() {
    let mut det = SwipeDetector::default();
    let ev = touchpad_scroll(AxisDirection::Vertical, 10.0);
    for i in 0..40 {
        assert_eq!(feed_scroll(&mut det, &ev, START + 16 * i * MS), None);
    }
    assert_eq!(det.accum_x, 0);
    assert_eq!(det.accum_y, i128::from(fixed(400.0)));
    assert!(!det.committed);
}

#[test]
fn vertical_feed_never_navigates_history() {
    let mut det = SwipeDetector::default();
    for i in 0..40 {
        assert_eq!(det.feed(0, fixed(10.0), START + 16 * i * MS), None);
    }
}

#[test]
fn horizontal_scroll_right_commits_history_back() {
    let mut det = SwipeDetector::default();
    let ev = touchpad_scroll(AxisDirection::Horizontal, 10.0);
    let mut fired = Vec::new();
    for i in 0..40 {
        if let Some(a) = feed_scroll(&mut det, &ev, START + 16 * i * MS) {
            fired.push((i, a));
        }
    }
    assert_eq!(fired, vec![(14, SwipeAction::HistoryBack)]);
}

#[test]
fn horizontal_scroll_left_commits_history_forward() {
    let mut det = SwipeDetector::default();
    let ev = touchpad_scroll(AxisDirection::Horizontal, -10.0);
    let mut fired = Vec::new();
    for i in 0..40 {
        if let Some(a) = feed_scroll(&mut det, &ev, START + 16 * i * MS) {
            fired.push((i, a));
        }
    }
    assert_eq!(fired, vec![(14, SwipeAction::HistoryForward)]);
}

#[test]
fn diagonal_drag_fails_the_dominance_rule() {
    let mut det = SwipeDetector::default();
    for i in 0..40 {
        assert_eq!(det.feed(fixed(10.0), fixed(6.0), START + 16 * i * MS), None);
    }
    let (ax, ay) = (det.accum_x.abs(), det.accum_y.abs());
    assert!(ax >= i128::from(fixed(150.0)));
    assert!(ax <= 2 * ay);
}

#[test]
fn a_gap_over_200ms_resets_the_accumulator() {
    let mut det = SwipeDetector::default();
    for i in 0..14 {
        assert_eq!(det.feed(fixed(10.0), 0, START + 16 * i * MS), None);
    }
    assert_eq!(det.accum_x, i128::from(fixed(140.0)));
    let after_gap = START + 16 * 13 * MS + 201 * MS;
    assert_eq!(det.feed(fixed(10.0), 0, after_gap), None);
    assert_eq!(det.accum_x, i128::from(fixed(10.0)));
}

#[test]
fn a_committed_gesture_swallows_the_rest_of_its_events() {
    let mut det = SwipeDetector::default();
    let mut committed_at = None;
    for i in 0..20 {
        if det.feed(fixed(10.0), 0, START + 16 * i * MS).is_some() {
            assert!(committed_at.is_none());
            committed_at = Some(i);
        }
    }
    assert_eq!(committed_at, Some(14));
    assert!(det.committed);
    assert_eq!(det.feed(fixed(10.0), 0, START + 16 * 20 * MS), None);
}

#[test]
fn exactly_the_threshold_is_enough() {
    let mut det = SwipeDetector::default();
    assert_eq!(det.feed(fixed(150.0), 0, START), Some(SwipeAction::HistoryBack));
    let mut det = SwipeDetector::default();
    assert_eq!(det.feed(fixed(150.0) - 1, 0, START), None);
}

#[test]
fn exactly_twice_as_wide_is_not_enough() {
    let mut det = SwipeDetector::default();
    assert_eq!(det.feed(fixed(200.0), fixed(100.0), START), None);
    let mut det = SwipeDetector::default();
    assert_eq!(det.feed(fixed(200.0) + 1, fixed(100.0), START), Some(SwipeAction::HistoryBack));
}

#[test]
fn the_sums_of_a_gesture_decide() {
    let mut det = SwipeDetector::default();
    let events = [
        // Too high at first, then the sums turn: 160 to 70.
        (100.0, 70.0, 0, None),
        (60.0, 0.0, 50, Some(SwipeAction::HistoryBack)),
        // The gesture goes on and has navigated.
        (-400.0, 0.0, 100, None),
        (0.0, 0.0, 300, None),
        // A pause of more than 200 ms: the sums start anew.
        (-149.0, 0.0, 501, None),
        (-1.0, 0.0, 701, Some(SwipeAction::HistoryForward)),
    ];
    for (dx, dy, ms, expected) in events {
        assert_eq!(det.feed(fixed(dx), fixed(dy), START + ms * MS), expected);
    }
}

#[test]
fn the_largest_moves_are_summed_exactly() {
    let mut det = SwipeDetector::default();
    for i in 0..4 {
        assert_eq!(det.feed(i64::MAX, i64::MAX, START + i * MS), None);
    }
    assert_eq!(det.accum_x, 4 * i128::from(i64::MAX));
    // Back to where it started, then on to the left.
    for i in 4..8 {
        assert_eq!(det.feed(-i64::MAX, -i64::MAX, START + i * MS), None);
    }
    assert_eq!((det.accum_x, det.accum_y), (0, 0));
    assert_eq!(det.feed(i64::MIN, 0, START + 8 * MS), Some(SwipeAction::HistoryForward));
}
