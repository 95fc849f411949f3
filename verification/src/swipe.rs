//! The two-finger swipe that goes back and forward.
//!
//! Amounts are screen pixels in the unit of [`crate::fixed`].
use vstd::prelude::*;
use crate::fixed;
use crate::fixed::{abs_i128, add_cut};
use crate::windowing::{AxisDirection, ScrollEvent};

verus! {

/// A pause longer than this ends a gesture.
pub const SWIPE_GAP: u64 = 200_000_000;

/// A swipe of at least 150 pixels navigates.
pub const HORIZ_THRESHOLD: i64 = 9_830_400;

/// Where a swipe leads.
#[derive(Debug, Clone, Copy, PartialEq, Eq, Structural)]
pub enum SwipeAction {
    HistoryBack,
    HistoryForward,
}

/// The horizontal and the vertical part of a scroll event, of which one is
/// zero.
pub fn scroll_swipe_delta(ev: &ScrollEvent) -> (r: (i64, i64))
    ensures
        r == match ev.axis {
            AxisDirection::Horizontal => (ev.delta, 0i64),
            AxisDirection::Vertical => (0i64, ev.delta),
        },
{
    match ev.axis {
        AxisDirection::Horizontal => (ev.delta, 0),
        AxisDirection::Vertical => (0, ev.delta),
    }
}

/// A swipe in progress.
#[derive(Debug, Clone, Copy, PartialEq, Eq, Structural)]
pub struct SwipeDetector {
    pub accum_x: i128,
    pub accum_y: i128,
    pub last_at: Option<u64>,
    /// The gesture has navigated already.
    pub committed: bool,
}

impl Default for SwipeDetector {
    fn default() -> (r: Self)
        ensures
            r == (SwipeDetector { accum_x: 0, accum_y: 0, last_at: None, committed: false }),
    {
        SwipeDetector { accum_x: 0, accum_y: 0, last_at: None, committed: false }
    }
}

impl SwipeDetector {
    /// Whether an event at `now` begins a new gesture.
    pub open spec fn restarts(self, now: u64) -> bool {
        self.last_at matches Some(t) ==> now - t > SWIPE_GAP
    }

    /// The state after an event, before it is known whether it navigates.
    pub open spec fn moved(self, dx: i64, dy: i64, now: u64) -> Self {
        let restart = self.restarts(now);
        SwipeDetector {
            accum_x: fixed::cut_to_i128(
                (if restart { 0 } else { self.accum_x as int }) + dx,
            ) as i128,
            accum_y: fixed::cut_to_i128(
                (if restart { 0 } else { self.accum_y as int }) + dy,
            ) as i128,
            last_at: Some(now),
            committed: !restart && self.committed,
        }
    }

    /// Whether the gesture is long enough, and more than twice as wide as high.
    pub open spec fn decided(self) -> bool {
        &&& fixed::magnitude(self.accum_x as int) >= HORIZ_THRESHOLD
        &&& fixed::magnitude(self.accum_x as int) > 2 * fixed::magnitude(self.accum_y as int)
    }

    /// The state after an event, and where it leads: once per gesture, right is
    /// back and left is forward.
    pub open spec fn fed(self, dx: i64, dy: i64, now: u64) -> (Self, Option<SwipeAction>) {
        let m = self.moved(dx, dy, now);
        if m.committed || !m.decided() {
            (m, None)
        } else {
            (
                SwipeDetector { committed: true, ..m },
                Some(
                    if m.accum_x > 0 {
                        SwipeAction::HistoryBack
                    } else {
                        SwipeAction::HistoryForward
                    },
                ),
            )
        }
    }

    /// Take one touchpad event in.
    pub fn feed(&mut self, dx: i64, dy: i64, now: u64) -> (r: Option<SwipeAction>)
        ensures
            (*final(self), r) == old(self).fed(dx, dy, now),
    {
        let resumed = match self.last_at {
            Some(t) => now >= t && now - t > SWIPE_GAP,
            None => true,
        };
        if resumed {
            self.accum_x = 0;
            self.accum_y = 0;
            self.committed = false;
        }
        self.last_at = Some(now);
        self.accum_x = add_cut(self.accum_x, dx);
        self.accum_y = add_cut(self.accum_y, dy);
        if self.committed {
            return None;
        }
        let ax: u128 = abs_i128(self.accum_x);
        let ay: u128 = abs_i128(self.accum_y);
        if ax >= HORIZ_THRESHOLD as u128 && ax > ay && ax - ay > ay {
            self.committed = true;
            if self.accum_x > 0 {
                return Some(SwipeAction::HistoryBack);
            }
            return Some(SwipeAction::HistoryForward);
        }
        None
    }
}

/// Law: vertical scrolling never navigates: it leaves a gesture that has not
/// moved sideways where it is, however far it goes.
pub proof fn law_vertical_never_navigates(s: SwipeDetector, dy: i64, now: u64)
    requires
        s.accum_x == 0,
    ensures
        s.fed(0, dy, now).1 is None,
        s.fed(0, dy, now).0.accum_x == 0,
{
}

/// Law: a gesture navigates at most once: after it has, further events within
/// the gap do nothing.
pub proof fn law_one_navigation_per_gesture(
    s: SwipeDetector,
    dx: i64,
    dy: i64,
    now: u64,
    dx2: i64,
    dy2: i64,
    later: u64,
)
    requires
        s.fed(dx, dy, now).1 is Some,
        later - now <= SWIPE_GAP,
    ensures
        ({
            let (after, _) = s.fed(dx, dy, now);
            &&& after.fed(dx2, dy2, later).1 is None
            &&& after.fed(dx2, dy2, later).0.committed
        }),
{
}

/// One touchpad event: how far it moved each way, and when.
pub type Move = (i64, i64, u64);

/// The first event of the gesture that event `i` belongs to: no pause longer than
/// the gap lies between them.
pub open spec fn gesture_start(evs: Seq<Move>, i: int) -> int
    decreases i,
{
    if i <= 0 {
        0
    } else if evs[i].2 - evs[i - 1].2 > SWIPE_GAP {
        i
    } else {
        gesture_start(evs, i - 1)
    }
}

/// How far the events from `from` up to `to` moved sideways.
pub open spec fn total_x(evs: Seq<Move>, from: int, to: int) -> int
    decreases to - from,
{
    if to <= from { 0 } else { total_x(evs, from, to - 1) + evs[to - 1].0 }
}

/// How far the events from `from` up to `to` moved up or down.
pub open spec fn total_y(evs: Seq<Move>, from: int, to: int) -> int
    decreases to - from,
{
    if to <= from { 0 } else { total_y(evs, from, to - 1) + evs[to - 1].1 }
}

/// How far the gesture of event `i` has moved sideways, the event included.
pub open spec fn moved_x(evs: Seq<Move>, i: int) -> int {
    total_x(evs, gesture_start(evs, i), i + 1)
}

/// How far the gesture of event `i` has moved up or down, the event included.
pub open spec fn moved_y(evs: Seq<Move>, i: int) -> int {
    total_y(evs, gesture_start(evs, i), i + 1)
}

/// Whether the gesture, as far as event `i`, is a swipe: long enough, and more
/// than twice as wide as high.
pub open spec fn is_swipe(evs: Seq<Move>, i: int) -> bool {
    &&& fixed::magnitude(moved_x(evs, i)) >= HORIZ_THRESHOLD
    &&& fixed::magnitude(moved_x(evs, i)) > 2 * fixed::magnitude(moved_y(evs, i))
}

/// Whether an event of the gesture of event `i`, that one included, was a swipe.
pub open spec fn has_swiped(evs: Seq<Move>, i: int) -> bool {
    exists|k: int| gesture_start(evs, i) <= k <= i && #[trigger] is_swipe(evs, k)
}

/// A new detector after the first `n` events.
pub open spec fn after_events(evs: Seq<Move>, n: int) -> SwipeDetector
    decreases n,
{
    if n <= 0 {
        SwipeDetector { accum_x: 0, accum_y: 0, last_at: None, committed: false }
    } else {
        let e = evs[n - 1];
        after_events(evs, n - 1).fed(e.0, e.1, e.2).0
    }
}

/// What a new detector, fed with all events in turn, answers to event `i`.
pub open spec fn answer(evs: Seq<Move>, i: int) -> Option<SwipeAction> {
    after_events(evs, i).fed(evs[i].0, evs[i].1, evs[i].2).1
}

/// Events in the order of time.
pub open spec fn in_order(evs: Seq<Move>) -> bool {
    forall|i: int, j: int| 0 <= i <= j < evs.len() ==> (#[trigger] evs[i]).2 <= (#[trigger] evs[j]).2
}

/// As many events as the detector can sum whatever their sizes.
pub open spec fn countable(evs: Seq<Move>) -> bool {
    evs.len() <= u64::MAX
}

/// A sum of `n` amounts is at most `n` times the largest.
proof fn lemma_totals_are_bounded(evs: Seq<Move>, from: int, to: int)
    requires
        from <= to,
    ensures
        -(to - from) * 0x8000_0000_0000_0000 <= total_x(evs, from, to) <= (to - from)
            * 0x8000_0000_0000_0000,
        -(to - from) * 0x8000_0000_0000_0000 <= total_y(evs, from, to) <= (to - from)
            * 0x8000_0000_0000_0000,
    decreases to - from,
{
    if from < to {
        lemma_totals_are_bounded(evs, from, to - 1);
    }
}

/// A gesture begins with one of the events, and goes on until a pause.
proof fn lemma_gesture(evs: Seq<Move>, i: int)
    requires
        0 <= i < evs.len(),
    ensures
        0 <= gesture_start(evs, i) <= i,
        forall|k: int|
            gesture_start(evs, i) <= k <= i ==> #[trigger] gesture_start(evs, k) == gesture_start(
                evs,
                i,
            ),
    decreases i,
{
    if i > 0 && evs[i].2 - evs[i - 1].2 <= SWIPE_GAP {
        lemma_gesture(evs, i - 1);
    }
}

/// The detector holds the sums of the current gesture, and whether it has
/// navigated.
proof fn lemma_after_event(evs: Seq<Move>, i: int)
    requires
        0 <= i < evs.len(),
        in_order(evs),
        countable(evs),
    ensures
        ({
            let s = after_events(evs, i + 1);
            &&& s.accum_x == moved_x(evs, i)
            &&& s.accum_y == moved_y(evs, i)
            &&& s.last_at == Some(evs[i].2)
            &&& s.committed == has_swiped(evs, i)
        }),
        answer(evs, i) == if is_swipe(evs, i) && (forall|k: int|
            gesture_start(evs, i) <= k < i ==> !#[trigger] is_swipe(evs, k)) {
            Some(
                if moved_x(evs, i) > 0 {
                    SwipeAction::HistoryBack
                } else {
                    SwipeAction::HistoryForward
                },
            )
        } else {
            None
        },
    decreases i,
{
    let before = after_events(evs, i);
    let e = evs[i];
    let g = gesture_start(evs, i);
    lemma_gesture(evs, i);
    lemma_totals_are_bounded(evs, g, i + 1);
    assert(total_x(evs, g, i + 1) == total_x(evs, g, i) + e.0);
    assert(total_y(evs, g, i + 1) == total_y(evs, g, i) + e.1);
    assert(after_events(evs, i + 1) == before.fed(e.0, e.1, e.2).0);
    if i > 0 {
        lemma_after_event(evs, i - 1);
    }
    let m = before.moved(e.0, e.1, e.2);
    if i > 0 && !before.restarts(e.2) {
        assert(gesture_start(evs, i - 1) == g);
        assert(moved_x(evs, i - 1) == total_x(evs, g, i));
        assert(moved_y(evs, i - 1) == total_y(evs, g, i));
        assert(m.committed == has_swiped(evs, i - 1));
        if m.committed {
            let k = choose|k: int| g <= k <= i - 1 && #[trigger] is_swipe(evs, k);
            assert(g <= k <= i && is_swipe(evs, k));
        }
    } else {
        assert(g == i);
        assert(total_x(evs, g, i) == 0 && total_y(evs, g, i) == 0);
        assert(!m.committed);
    }
    assert(m.accum_x == moved_x(evs, i));
    assert(m.accum_y == moved_y(evs, i));
    assert(m.decided() == is_swipe(evs, i));
    assert(m.committed <==> exists|k: int| g <= k < i && #[trigger] is_swipe(evs, k));
    if is_swipe(evs, i) {
        assert(has_swiped(evs, i));
    }
}

/// Law: over any run of events in the order of time, the sums decide. An event
/// navigates exactly where the gesture, summed up to it, is the first swipe of
/// that gesture: to the right back, to the left forward. So a gesture navigates
/// at most once, and the sums start anew after a pause longer than the gap.
pub proof fn law_the_sums_decide(evs: Seq<Move>)
    requires
        in_order(evs),
        countable(evs),
    ensures
        forall|i: int|
            0 <= i < evs.len() ==> #[trigger] answer(evs, i) == if is_swipe(evs, i) && (forall|
                k: int,
            |
                gesture_start(evs, i) <= k < i ==> !#[trigger] is_swipe(evs, k)) {
                Some(
                    if moved_x(evs, i) > 0 {
                        SwipeAction::HistoryBack
                    } else {
                        SwipeAction::HistoryForward
                    },
                )
            } else {
                None
            },
        forall|i: int, j: int|
            0 <= i < j < evs.len() && gesture_start(evs, i) == gesture_start(evs, j) && (
            #[trigger] answer(evs, i)) is Some ==> (#[trigger] answer(evs, j)) is None,
{
    assert forall|i: int| 0 <= i < evs.len() implies #[trigger] answer(evs, i) == if is_swipe(evs, i)
        && (forall|k: int| gesture_start(evs, i) <= k < i ==> !#[trigger] is_swipe(evs, k)) {
        Some(
            if moved_x(evs, i) > 0 {
                SwipeAction::HistoryBack
            } else {
                SwipeAction::HistoryForward
            },
        )
    } else {
        None
    } by {
        lemma_after_event(evs, i);
    }
    assert forall|i: int, j: int|
        0 <= i < j < evs.len() && gesture_start(evs, i) == gesture_start(evs, j) && (
        #[trigger] answer(evs, i)) is Some implies (#[trigger] answer(evs, j)) is None by {
        lemma_gesture(evs, i);
        assert(is_swipe(evs, i));
    }
}

/// Law: a run of purely vertical scrolling never navigates.
pub proof fn law_vertical_run_never_navigates(evs: Seq<Move>, i: int)
    requires
        0 <= i < evs.len(),
        forall|k: int| 0 <= k < evs.len() ==> (#[trigger] evs[k]).0 == 0,
    ensures
        answer(evs, i) is None,
        after_events(evs, i + 1).accum_x == 0,
    decreases i,
{
    assert(evs[i].0 == 0);
    if i > 0 {
        law_vertical_run_never_navigates(evs, i - 1);
    }
    let s = after_events(evs, i);
    assert(s.accum_x == 0);
    law_vertical_never_navigates(s, evs[i].1, evs[i].2);
    assert(after_events(evs, i + 1) == s.fed(evs[i].0, evs[i].1, evs[i].2).0);
}

/// Law: a pause longer than the gap forgets the gesture before it.
pub proof fn law_pause_forgets(s: SwipeDetector, dx: i64, dy: i64, now: u64)
    requires
        s.restarts(now),
    ensures
        s.fed(dx, dy, now) == (SwipeDetector {
            accum_x: 0,
            accum_y: 0,
            last_at: None,
            committed: false,
        }).fed(dx, dy, now),
{
}

/// Law: events belong to one gesture while no more than a fifth of a second lies
/// between them.
pub proof fn law_gesture_ends_after_a_fifth_of_a_second(s: SwipeDetector, now: u64)
    ensures
        s.last_at is None ==> s.restarts(now),
        s.last_at matches Some(t) ==> (s.restarts(now) <==> now - t > 200_000_000),
{
}

/// Law: a gesture navigates with the event that brings its sum to 150 pixels sideways
/// and to more than twice the sum downwards: back where it went right, forward where
/// it went left. Each event adds what it moved.
pub proof fn law_sweep_of_150_pixels_navigates(s: SwipeDetector, dx: i64, dy: i64, now: u64)
    requires
        !s.restarts(now),
        !s.committed,
        -0x1000_0000_0000_0000_0000 <= s.accum_x <= 0x1000_0000_0000_0000_0000,
        -0x1000_0000_0000_0000_0000 <= s.accum_y <= 0x1000_0000_0000_0000_0000,
    ensures
        ({
            let x = s.accum_x + dx;
            let y = s.accum_y + dy;
            let sideways = if x < 0 { -x } else { x };
            let down = if y < 0 { -y } else { y };
            let (after, r) = s.fed(dx, dy, now);
            &&& r is Some <==> sideways >= 150 * 65_536 && sideways > 2 * down
            &&& r is Some ==> (r->0 is HistoryBack <==> x > 0)
            &&& after.committed <==> r is Some
            &&& after.accum_x == x && after.accum_y == y
            &&& after.last_at == Some(now)
        }),
{
}

} // verus!
