//! Decisions of the paint path: which path a frame takes, whether the window
//! looks occluded, when a resize has settled, where the strips and the page
//! land, and whether an off-screen frame is fresh enough to use.
use std::collections::VecDeque;
use vstd::prelude::*;
use crate::render::Submitted;

verus! {

/// How many present-time samples are kept.
pub const PRESENT_HISTORY_SIZE: usize = 5;

/// A present slower than this many microseconds counts as slow.
pub const SLOW_PRESENT_THRESHOLD_US: u64 = 100_000;

/// A probe faster than this many microseconds wakes a sleeping window.
pub const FAST_PRESENT_THRESHOLD_US: u64 = 30_000;

/// This many slow presents among the kept samples mean the window is hidden.
pub const SLOW_FRAMES_TO_OCCLUDE: usize = 3;

/// One present slower than this many microseconds means the window is hidden.
pub const IMMEDIATE_OCCLUDE_THRESHOLD_US: u64 = 500_000;

/// Pixels of slack between the page area asked for and the one painted.
pub const OSR_DIM_TOLERANCE: u32 = 32;

/// Space, in logical pixels, left of each tab.
pub const GUTTER: u32 = 4;

/// Whether the window's page is painted.
#[derive(Debug, Clone, Copy, PartialEq, Eq, Structural)]
pub enum PaintPolicy {
    /// The engine paints and every frame is presented.
    Active,
    /// The engine is paused and frames are skipped.
    Sleeping,
}

/// Which layer a frame shows in the page area.
#[derive(Debug, Clone, Copy, PartialEq, Eq, Structural)]
pub enum PaintPath {
    /// The loading animation.
    Animation,
    /// Pixels that arrived since the last frame.
    FreshOsr,
    /// The pixels of an earlier frame.
    SyntheticScratch,
    /// Nothing: no page pixels have ever arrived.
    DeadFallback,
}

/// Heights of the chrome strips, in the pixels of the rectangle they are laid
/// out in.
#[derive(Debug, Clone, Copy, PartialEq, Eq, Structural)]
pub struct StripHeights {
    pub statusline: u32,
    pub tab_strip: u32,
    pub notice: u32,
}

/// Sizes of the tab strip, in logical pixels.
#[derive(Debug, Clone, Copy, PartialEq, Eq, Structural)]
pub struct TabMetrics {
    pub strip_height: u32,
    pub notice_height: u32,
    pub pinned_width: u32,
    pub min_width: u32,
    pub max_width: u32,
}

/// Smaller of two integers.
pub open spec fn least(a: int, b: int) -> int {
    if a <= b { a } else { b }
}

/// Larger of two integers.
pub open spec fn greatest(a: int, b: int) -> int {
    if a >= b { a } else { b }
}

/// Smaller of two values.
pub fn min_u32(a: u32, b: u32) -> (r: u32)
    ensures
        r == least(a as int, b as int),
{
    if a <= b { a } else { b }
}

/// Larger of two values.
pub fn max_u32(a: u32, b: u32) -> (r: u32)
    ensures
        r == greatest(a as int, b as int),
{
    if a >= b { a } else { b }
}

/// Sleep exactly while the window is occluded.
///
/// Whether media is playing plays no part: a paused page keeps its audio.
pub fn decide_paint_policy(occluded: bool, _media_active: bool) -> (r: PaintPolicy)
    ensures
        r == if occluded { PaintPolicy::Sleeping } else { PaintPolicy::Active },
{
    if !occluded {
        PaintPolicy::Active
    } else {
        PaintPolicy::Sleeping
    }
}

/// The last `n` entries of a sequence, all of them where there are fewer.
pub open spec fn newest(s: Seq<u64>, n: int) -> Seq<u64> {
    if s.len() <= n { s } else { s.skip(s.len() - n) }
}

/// Add a present-time sample and keep the newest [`PRESENT_HISTORY_SIZE`].
pub fn record_present_us(history: &mut VecDeque<u64>, present_us: u64)
    requires
        old(history)@.len() < usize::MAX,
    ensures
        final(history)@ == newest(old(history)@.push(present_us), PRESENT_HISTORY_SIZE as int),
{
    history.push_back(present_us);
    let ghost all = history@;
    while history.len() > PRESENT_HISTORY_SIZE
        invariant
            history@.len() <= all.len(),
            history@ == all.skip(all.len() - history@.len()),
            all.len() <= PRESENT_HISTORY_SIZE ==> history@ == all,
            all.len() >= PRESENT_HISTORY_SIZE ==> history@.len() >= PRESENT_HISTORY_SIZE,
        decreases history@.len(),
    {
        let ghost before = history@;
        let _ = history.pop_front();
        proof {
            assert(history@ =~= before.skip(1));
            assert(history@ =~= all.skip(all.len() - history@.len()));
        }
    }
}

/// How many samples exceed a threshold.
pub open spec fn slow_count(s: Seq<u64>, threshold: u64) -> nat
    decreases s.len(),
{
    if s.len() == 0 {
        0
    } else {
        slow_count(s.drop_last(), threshold) + if s.last() > threshold { 1nat } else { 0nat }
    }
}

/// A count of slow samples never exceeds the number of samples.
pub proof fn lemma_slow_count_bound(s: Seq<u64>, threshold: u64)
    ensures
        slow_count(s, threshold) <= s.len(),
    decreases s.len(),
{
    if s.len() > 0 {
        lemma_slow_count_bound(s.drop_last(), threshold);
    }
}

/// Where no sample exceeds the threshold none is counted.
pub proof fn lemma_no_slow_samples(s: Seq<u64>, threshold: u64)
    requires
        forall|i: int| 0 <= i < s.len() ==> #[trigger] s[i] <= threshold,
    ensures
        slow_count(s, threshold) == 0,
    decreases s.len(),
{
    if s.len() > 0 {
        assert(s.last() == s[s.len() - 1]);
        assert forall|i: int| 0 <= i < s.drop_last().len() implies #[trigger] s.drop_last()[i]
            <= threshold by {
            assert(s.drop_last()[i] == s[i]);
        }
        lemma_no_slow_samples(s.drop_last(), threshold);
    }
}

/// Where three samples exceed the threshold, at least three are counted.
pub proof fn lemma_three_slow_samples(s: Seq<u64>, threshold: u64, a: int, b: int, c: int)
    requires
        0 <= a < b < c < s.len(),
        s[a] > threshold,
        s[b] > threshold,
        s[c] > threshold,
    ensures
        slow_count(s, threshold) >= 3,
{
    lemma_slow_sample_counts(s, threshold, c);
    lemma_slow_sample_counts(s.take(c), threshold, b);
    lemma_slow_sample_counts(s.take(c).take(b), threshold, a);
}

/// A slow sample is counted beside those before it.
proof fn lemma_slow_sample_counts(s: Seq<u64>, threshold: u64, k: int)
    requires
        0 <= k < s.len(),
        s[k] > threshold,
    ensures
        slow_count(s, threshold) >= slow_count(s.take(k), threshold) + 1,
    decreases s.len(),
{
    if k == s.len() - 1 {
        assert(s.take(k) =~= s.drop_last());
    } else {
        assert(s.drop_last().take(k) =~= s.take(k));
        lemma_slow_sample_counts(s.drop_last(), threshold, k);
    }
}

/// Whether at least `min_slow` samples exceed `slow_threshold_us`.
pub fn detect_occluded_from_history(
    history: &VecDeque<u64>,
    slow_threshold_us: u64,
    min_slow: usize,
) -> (r: bool)
    ensures
        r == (slow_count(history@, slow_threshold_us) >= min_slow),
{
    let mut count: usize = 0;
    let mut i: usize = 0;
    while i < history.len()
        invariant
            i <= history@.len(),
            count == slow_count(history@.take(i as int), slow_threshold_us),
            count <= i,
        decreases history@.len() - i,
    {
        proof {
            let t = history@.take(i as int + 1);
            assert(t.drop_last() =~= history@.take(i as int));
            assert(t.last() == history@[i as int]);
        }
        if history[i] > slow_threshold_us {
            count = count + 1;
        }
        i = i + 1;
    }
    proof {
        assert(history@.take(history@.len() as int) =~= history@);
    }
    count >= min_slow
}

/// Law: a history with fewer samples than the rule asks for never trips it.
pub proof fn law_short_history_never_occludes(history: Seq<u64>, threshold: u64, min_slow: nat)
    requires
        history.len() < min_slow,
    ensures
        slow_count(history, threshold) < min_slow,
{
    lemma_slow_count_bound(history, threshold);
}

/// Law: however many samples arrive, no more than [`PRESENT_HISTORY_SIZE`] are
/// kept, the newest one is always among them, and the order is kept.
pub proof fn law_history_keeps_the_newest(history: Seq<u64>, present_us: u64)
    ensures
        ({
            let next = newest(history.push(present_us), PRESENT_HISTORY_SIZE as int);
            &&& next.len() <= PRESENT_HISTORY_SIZE
            &&& next.len() > 0
            &&& next.last() == present_us
            &&& next.is_suffix_of(history.push(present_us))
        }),
{
    let all = history.push(present_us);
    let next = newest(all, PRESENT_HISTORY_SIZE as int);
    assert(next =~= all.subrange(all.len() - next.len(), all.len() as int));
}

/// The path a frame takes: the animation first, then fresh pixels, then the
/// pixels of an earlier frame.
pub open spec fn paint_path(
    want_anim: bool,
    has_osr_meta: bool,
    last_osr_dims: Option<(u32, u32)>,
) -> PaintPath {
    if want_anim {
        PaintPath::Animation
    } else if has_osr_meta {
        PaintPath::FreshOsr
    } else if last_osr_dims is Some {
        PaintPath::SyntheticScratch
    } else {
        PaintPath::DeadFallback
    }
}

/// Choose the path of a frame.
pub fn decide_paint_path(
    want_anim: bool,
    has_osr_meta: bool,
    last_osr_dims: Option<(u32, u32)>,
) -> (r: PaintPath)
    ensures
        r == paint_path(want_anim, has_osr_meta, last_osr_dims),
{
    if want_anim {
        PaintPath::Animation
    } else if has_osr_meta {
        PaintPath::FreshOsr
    } else if last_osr_dims.is_some() {
        PaintPath::SyntheticScratch
    } else {
        PaintPath::DeadFallback
    }
}

/// The "quiet since the last resize" deadline.
///
/// The dimensions are advisory: the caller recomputes them when it fires.
#[derive(Debug)]
pub struct ResizeDebounce {
    pub pending: Option<(u32, u32, u64)>,
}

impl Default for ResizeDebounce {
    fn default() -> (r: Self)
        ensures
            r.pending is None,
    {
        ResizeDebounce { pending: None }
    }
}

impl ResizeDebounce {
    /// Whether a pending resize is due at `now`.
    pub open spec fn due(self, now: u64) -> bool {
        self.pending matches Some(p) && now >= p.2
    }

    /// A resize to `w` by `h` at `now`.
    pub open spec fn resized(self, w: u32, h: u32, now: u64, debounce: u64) -> Self {
        ResizeDebounce { pending: Some((w, h, (now + debounce) as u64)) }
    }

    /// The size that is asked for, if a resize is pending.
    pub open spec fn size(self) -> Option<(u32, u32)> {
        match self.pending {
            Some(p) => Some((p.0, p.1)),
            None => None,
        }
    }

    /// Arm, or push the deadline `debounce` past `now`.
    pub fn arm(&mut self, w: u32, h: u32, now: u64, debounce: u64)
        requires
            now + debounce <= u64::MAX,
        ensures
            *final(self) == old(self).resized(w, h, now, debounce),
    {
        self.pending = Some((w, h, now + debounce));
    }

    /// Whether a pending resize is overdue.
    pub fn should_fire(&self, now: u64) -> (r: bool)
        ensures
            r == self.due(now),
    {
        match self.pending {
            Some((_, _, at)) => now >= at,
            None => false,
        }
    }

    /// Take the pending entry and return its dimensions.
    pub fn clear(&mut self) -> (r: Option<(u32, u32)>)
        ensures
            final(self).pending is None,
            r == old(self).size(),
    {
        match self.pending.take() {
            Some((w, h, _)) => Some((w, h)),
            None => None,
        }
    }

    /// When the pending resize is due.
    pub fn deadline(&self) -> (r: Option<u64>)
        ensures
            r == match self.pending {
                Some(p) => Some(p.2),
                None => None,
            },
    {
        match self.pending {
            Some((_, _, at)) => Some(at),
            None => None,
        }
    }
}

/// Law: a resize fires exactly once the window has been quiet for the whole
/// debounce since the last one, whatever was pending before, and asks for the
/// size of that last one.
pub proof fn law_resize_fires_when_quiet(
    s: ResizeDebounce,
    w: u32,
    h: u32,
    now: u64,
    debounce: u64,
    at: u64,
)
    requires
        now + debounce <= u64::MAX,
    ensures
        s.resized(w, h, now, debounce).due(at) <==> at >= now + debounce,
        s.resized(w, h, now, debounce).size() == Some((w, h)),
        s.due(at) ==> s.size() is Some,
{
}

/// Law: re-arming later pushes the deadline strictly later, so a resize fires
/// only once the drag has been quiet for the whole debounce.
pub proof fn law_rearming_postpones(first: u64, second: u64, debounce: u64, at: u64)
    requires
        first < second,
        second + debounce <= u64::MAX,
        at < second + debounce,
    ensures
        !(ResizeDebounce { pending: Some((0, 0, (second + debounce) as u64)) }).due(at),
        first + debounce < second + debounce,
{
}

/// Watches for the paint that has to follow a resize.
///
/// Holds the awaited width and height, the deadline, and the nudges so far.
#[derive(Debug)]
pub struct ResizePaintWatchdog {
    pub pending: Option<(u32, u32, u64, u32)>,
}

impl Default for ResizePaintWatchdog {
    fn default() -> (r: Self)
        ensures
            r.pending is None,
    {
        ResizePaintWatchdog { pending: None }
    }
}

impl ResizePaintWatchdog {
    /// Nudges before the watchdog gives up.
    pub const MAX_RETRIES: u32 = 3;

    /// The nudges so far stay below the cap while the watchdog is armed.
    pub open spec fn wf(self) -> bool {
        self.pending matches Some(p) ==> p.3 < Self::MAX_RETRIES
    }

    /// The state after one nudge at `now`.
    pub open spec fn nudged(self, now: u64, timeout: u64) -> Self {
        match self.pending {
            Some(p) => if p.3 + 1 >= Self::MAX_RETRIES {
                ResizePaintWatchdog { pending: None }
            } else {
                ResizePaintWatchdog {
                    pending: Some((p.0, p.1, (now + timeout) as u64, (p.3 + 1) as u32)),
                }
            },
            None => self,
        }
    }

    /// The state after a paint of the given size.
    pub open spec fn after_paint(self, w: u32, h: u32) -> Self {
        match self.pending {
            Some(p) => if p.0 == w && p.1 == h {
                ResizePaintWatchdog { pending: None }
            } else {
                self
            },
            None => self,
        }
    }

    /// A resize to `w` by `h` at `now`.
    pub open spec fn awaiting(self, w: u32, h: u32, now: u64, timeout: u64) -> Self {
        ResizePaintWatchdog { pending: Some((w, h, (now + timeout) as u64, 0u32)) }
    }

    /// Whether a nudge is due.
    pub open spec fn nudge_due(self, now: u64) -> bool {
        self.pending matches Some(p) && now >= p.2 && p.3 < Self::MAX_RETRIES
    }

    /// Await a paint of `w` by `h` until `timeout` past `now`.
    pub fn arm(&mut self, w: u32, h: u32, now: u64, timeout: u64)
        requires
            now + timeout <= u64::MAX,
        ensures
            *final(self) == old(self).awaiting(w, h, now, timeout),
            final(self).wf(),
    {
        self.pending = Some((w, h, now + timeout, 0));
    }

    /// A paint was accepted: stop waiting if it has the awaited size.
    /// Returns whether the watchdog was cleared.
    pub fn observe_paint(&mut self, painted_w: u32, painted_h: u32) -> (cleared: bool)
        ensures
            *final(self) == old(self).after_paint(painted_w, painted_h),
            cleared == (old(self).pending is Some && final(self).pending is None),
            old(self).wf() ==> final(self).wf(),
    {
        match self.pending {
            Some((w, h, _, _)) => {
                if painted_w == w && painted_h == h {
                    self.pending = None;
                    true
                } else {
                    false
                }
            },
            None => false,
        }
    }

    /// Whether a nudge is due.
    pub fn should_force_repaint(&self, now: u64) -> (r: bool)
        ensures
            r == self.nudge_due(now),
    {
        match self.pending {
            Some((_, _, deadline, retries)) => now >= deadline && retries < Self::MAX_RETRIES,
            None => false,
        }
    }

    /// A nudge was sent: count it and push the deadline, or give up at the cap.
    pub fn record_force_repaint(&mut self, now: u64, timeout: u64)
        requires
            old(self).wf(),
            now + timeout <= u64::MAX,
        ensures
            *final(self) == old(self).nudged(now, timeout),
            final(self).wf(),
    {
        match self.pending {
            Some((w, h, _, retries)) => {
                let next_retries: u32 = retries + 1;
                if next_retries >= Self::MAX_RETRIES {
                    self.pending = None;
                } else {
                    self.pending = Some((w, h, now + timeout, next_retries));
                }
            },
            None => {},
        }
    }

    /// When the next nudge is due.
    pub fn deadline(&self) -> (r: Option<u64>)
        ensures
            r == match self.pending {
                Some(p) => Some(p.2),
                None => None,
            },
    {
        match self.pending {
            Some((_, _, d, _)) => Some(d),
            None => None,
        }
    }

    /// Nudges sent so far; zero when nothing is awaited.
    pub fn retry_count(&self) -> (r: u32)
        ensures
            r == match self.pending {
                Some(p) => p.3,
                None => 0u32,
            },
    {
        match self.pending {
            Some((_, _, _, r)) => r,
            None => 0,
        }
    }

    /// Whether a paint is awaited.
    pub fn is_armed(&self) -> (r: bool)
        ensures
            r == (self.pending is Some),
    {
        self.pending.is_some()
    }
}

/// Law: a nudge is due exactly when the awaited paint has not come within the
/// timeout. A paint of the awaited size, and no other, ends the wait; a nudge
/// gives the paint the whole timeout again.
pub proof fn law_watchdog_waits_for_its_paint(
    s: ResizePaintWatchdog,
    w: u32,
    h: u32,
    now: u64,
    timeout: u64,
    at: u64,
    pw: u32,
    ph: u32,
)
    requires
        now + timeout <= u64::MAX,
        at + timeout <= u64::MAX,
    ensures
        ({
            let a = s.awaiting(w, h, now, timeout);
            let painted = a.after_paint(pw, ph);
            &&& a.nudge_due(at) <==> at >= now + timeout
            &&& pw == w && ph == h ==> painted.pending is None && !painted.nudge_due(at)
            &&& pw != w || ph != h ==> painted == a
            &&& a.nudged(at, timeout).nudge_due(at) == (timeout == 0)
            &&& a.nudged(at, timeout).after_paint(w, h).pending is None
        }),
{
}

/// Law: however late the nudges come, the watchdog gives up after exactly
/// `MAX_RETRIES` of them, and not before.
pub proof fn law_watchdog_gives_up(w: u32, h: u32, t0: u64, t1: u64, t2: u64, timeout: u64)
    ensures
        ({
            let armed = ResizePaintWatchdog { pending: Some((w, h, t0, 0u32)) };
            let one = armed.nudged(t0, timeout);
            let two = one.nudged(t1, timeout);
            let three = two.nudged(t2, timeout);
            &&& one.pending is Some
            &&& two.pending is Some
            &&& three.pending is None
        }),
{
}

/// Width of every unpinned tab.
pub open spec fn unpinned_width(m: TabMetrics, full_w: u32, pinned: u32, total: u32) -> int {
    let unpinned = if total >= pinned { total - pinned } else { 0 };
    let avail = greatest(
        greatest(full_w - pinned * m.pinned_width, 0) - (total + 1) * GUTTER,
        0,
    );
    let raw = if unpinned == 0 { 0 } else { avail / unpinned };
    least(greatest(raw, m.min_width as int), m.max_width as int)
}

/// Width of tab `i`: the pinned tabs come first.
pub open spec fn tab_width(m: TabMetrics, full_w: u32, pinned: u32, total: u32, i: int) -> int {
    if i < pinned {
        m.pinned_width as int
    } else {
        unpinned_width(m, full_w, pinned, total)
    }
}

/// Left edge of tab `i`: one gutter, then for each tab before it its width and
/// one gutter.
pub open spec fn tab_left(m: TabMetrics, full_w: u32, pinned: u32, total: u32, i: int) -> int
    decreases i,
{
    if i <= 0 {
        GUTTER as int
    } else {
        tab_left(m, full_w, pinned, total, i - 1) + tab_width(m, full_w, pinned, total, i - 1)
            + GUTTER
    }
}

/// Whether column `x` lies on tab `i`.
pub open spec fn on_tab(m: TabMetrics, full_w: u32, pinned: u32, total: u32, i: int, x: u32) -> bool {
    let left = tab_left(m, full_w, pinned, total, i);
    left <= x < left + tab_width(m, full_w, pinned, total, i)
}

/// Top row of the tab strip: below the download notice, where there is one.
pub open spec fn tab_band_top(m: TabMetrics, full_h: u32, has_notice: bool) -> int {
    least(if has_notice { m.notice_height as int } else { 0 }, full_h as int)
}

/// Whether row `y` lies in the tab strip.
pub open spec fn in_tab_band(m: TabMetrics, full_h: u32, has_notice: bool, y: u32) -> bool {
    let top = tab_band_top(m, full_h, has_notice);
    top <= y < top + m.strip_height
}

/// Tabs further right start further right.
pub proof fn lemma_tab_left_grows(
    m: TabMetrics,
    full_w: u32,
    pinned: u32,
    total: u32,
    i: int,
    j: int,
)
    requires
        0 <= i < j,
        m.min_width <= m.max_width,
    ensures
        tab_left(m, full_w, pinned, total, i) + tab_width(m, full_w, pinned, total, i) + GUTTER
            <= tab_left(m, full_w, pinned, total, j),
    decreases j,
{
    if i < j - 1 {
        lemma_tab_left_grows(m, full_w, pinned, total, i, j - 1);
        assert(tab_width(m, full_w, pinned, total, j - 1) >= 0);
    }
}

/// Law: the tabs stand side by side from the left, four pixels before each: the
/// pinned ones first and all of one width, then the others, all of one width that
/// keeps to its bounds.
pub proof fn law_tabs_stand_side_by_side(
    m: TabMetrics,
    full_w: u32,
    pinned: u32,
    total: u32,
    i: int,
    j: int,
)
    requires
        0 <= i < total,
        0 <= j < total,
        m.min_width <= m.max_width,
    ensures
        tab_left(m, full_w, pinned, total, 0) == 4,
        tab_left(m, full_w, pinned, total, i + 1) == tab_left(m, full_w, pinned, total, i)
            + tab_width(m, full_w, pinned, total, i) + 4,
        i < pinned ==> tab_width(m, full_w, pinned, total, i) == m.pinned_width,
        i >= pinned ==> m.min_width <= tab_width(m, full_w, pinned, total, i) <= m.max_width,
        i >= pinned && j >= pinned ==> tab_width(m, full_w, pinned, total, i) == tab_width(
            m,
            full_w,
            pinned,
            total,
            j,
        ),
{
}

/// Law: the tabs that are not pinned share the room that is left evenly. Where
/// their width is not at its upper bound they could not all be a pixel wider, and
/// where it is not at its lower bound they all fit.
pub proof fn law_tabs_share_the_room(m: TabMetrics, full_w: u32, pinned: u32, total: u32)
    requires
        pinned < total,
        m.min_width <= m.max_width,
    ensures
        ({
            let w = tab_width(m, full_w, pinned, total, pinned as int);
            let taken = pinned * m.pinned_width + (total + 1) * 4;
            &&& w > m.min_width ==> taken + (total - pinned) * w <= full_w
            &&& w < m.max_width ==> taken + (total - pinned) * (w + 1) > full_w
        }),
{
    let n = total - pinned;
    let a = greatest(full_w - pinned * m.pinned_width, 0) - (total + 1) * GUTTER;
    let avail = greatest(a, 0);
    let raw = avail / n;
    assert(n * raw <= avail < n * (raw + 1)) by (nonlinear_arith)
        requires
            n > 0,
            raw == avail / n,
            avail >= 0,
    ;
    let w = unpinned_width(m, full_w, pinned, total);
    assert(w > m.min_width ==> w <= raw);
    assert(w < m.max_width ==> w >= raw);
    assert(0 <= pinned * m.pinned_width) by (nonlinear_arith)
        requires
            0 <= pinned,
            0 <= m.pinned_width,
    ;
    if w > m.min_width {
        assert(n * w <= n * raw) by (nonlinear_arith)
            requires
                n > 0,
                w <= raw,
        ;
        assert(n * w >= 1) by (nonlinear_arith)
            requires
                n > 0,
                w >= 1,
        ;
    }
    if w < m.max_width {
        assert(n * (w + 1) >= n * (raw + 1)) by (nonlinear_arith)
            requires
                n > 0,
                w >= raw,
        ;
    }
}

/// Law: the rows of the tab strip lie right below the notice, where there is one,
/// and at the top of the window where there is none.
pub proof fn law_tab_band_lies_below_the_notice(m: TabMetrics, full_h: u32, y: u32)
    ensures
        in_tab_band(m, full_h, false, y) <==> y < m.strip_height,
        m.notice_height <= full_h ==> (in_tab_band(m, full_h, true, y) <==> m.notice_height <= y
            < m.notice_height + m.strip_height),
        m.notice_height > full_h ==> (in_tab_band(m, full_h, true, y) <==> full_h <= y < full_h
            + m.strip_height),
{
}

/// Law: a column lies on at most one tab.
pub proof fn law_tabs_do_not_overlap(
    m: TabMetrics,
    full_w: u32,
    pinned: u32,
    total: u32,
    i: int,
    j: int,
    x: u32,
)
    requires
        0 <= i < total,
        0 <= j < total,
        m.min_width <= m.max_width,
        on_tab(m, full_w, pinned, total, i, x),
        on_tab(m, full_w, pinned, total, j, x),
    ensures
        i == j,
{
    if i < j {
        lemma_tab_left_grows(m, full_w, pinned, total, i, j);
    } else if j < i {
        lemma_tab_left_grows(m, full_w, pinned, total, j, i);
    }
}

/// The left edge of a tab fits in 128 bits.
proof fn lemma_tab_left_bound(m: TabMetrics, full_w: u32, pinned: u32, total: u32, i: int)
    requires
        m.min_width <= m.max_width,
    ensures
        tab_left(m, full_w, pinned, total, i) <= 4 + greatest(i, 0) * 0x1_0000_0003,
    decreases i,
{
    if i > 0 {
        lemma_tab_left_bound(m, full_w, pinned, total, i - 1);
        assert(tab_width(m, full_w, pinned, total, i - 1) <= 0xffff_ffff);
    }
}

/// The tab under a cursor, in logical pixels, if there is one.
pub fn hit_test_tab_strip_pure(
    m: &TabMetrics,
    log_full_w: u32,
    log_full_h: u32,
    log_cursor_x: u32,
    log_cursor_y: u32,
    has_notice: bool,
    pinned_count: u32,
    total_count: u32,
) -> (r: Option<usize>)
    requires
        m.min_width <= m.max_width,
    ensures
        r matches Some(i) ==> i < total_count && in_tab_band(*m, log_full_h, has_notice, log_cursor_y)
            && on_tab(*m, log_full_w, pinned_count, total_count, i as int, log_cursor_x),
        r is None ==> !in_tab_band(*m, log_full_h, has_notice, log_cursor_y) || forall|i: int|
            0 <= i < total_count ==> !#[trigger] on_tab(
                *m,
                log_full_w,
                pinned_count,
                total_count,
                i,
                log_cursor_x,
            ),
{
    if total_count == 0 {
        return None;
    }
    let notice_h: u32 = if has_notice { m.notice_height } else { 0 };
    let tab_y: u32 = min_u32(notice_h, log_full_h);
    let tab_y_end: u64 = tab_y as u64 + m.strip_height as u64;
    if log_cursor_y < tab_y || log_cursor_y as u64 >= tab_y_end {
        return None;
    }
    let unpinned_count: u32 = total_count.saturating_sub(pinned_count);
    proof {
        assert(0 <= pinned_count * m.pinned_width <= 0xffff_ffff * 0xffff_ffff) by (nonlinear_arith)
            requires
                0 <= pinned_count <= 0xffff_ffff,
                0 <= m.pinned_width <= 0xffff_ffff,
        ;
        assert(0 <= (total_count + 1) * GUTTER <= 0x1_0000_0000 * 4) by (nonlinear_arith)
            requires
                0 <= total_count <= 0xffff_ffff,
                GUTTER == 4,
        ;
    }
    let pinned_total_w: u64 = pinned_count as u64 * m.pinned_width as u64;
    let gutter_total: u64 = (total_count as u64 + 1) * GUTTER as u64;
    let avail_for_unpinned: u64 = (log_full_w as u64).saturating_sub(pinned_total_w).saturating_sub(
        gutter_total,
    );
    let raw_w: u64 = if unpinned_count == 0 { 0 } else { avail_for_unpinned / unpinned_count as u64 };
    let at_least: u64 = if raw_w < m.min_width as u64 { m.min_width as u64 } else { raw_w };
    let unpinned_w: u64 = if at_least > m.max_width as u64 { m.max_width as u64 } else { at_least };
    assert(unpinned_w == unpinned_width(*m, log_full_w, pinned_count, total_count));
    let mut x: u128 = GUTTER as u128;
    let mut i: u32 = 0;
    while i < total_count
        invariant
            i <= total_count,
            m.min_width <= m.max_width,
            x == tab_left(*m, log_full_w, pinned_count, total_count, i as int),
            unpinned_w == unpinned_width(*m, log_full_w, pinned_count, total_count),
            unpinned_w <= 0xffff_ffff,
            forall|k: int|
                0 <= k < i ==> !#[trigger] on_tab(
                    *m,
                    log_full_w,
                    pinned_count,
                    total_count,
                    k,
                    log_cursor_x,
                ),
            in_tab_band(*m, log_full_h, has_notice, log_cursor_y),
        decreases total_count - i,
    {
        let pill_w: u128 = if i < pinned_count { m.pinned_width as u128 } else { unpinned_w as u128 };
        proof {
            lemma_tab_left_bound(*m, log_full_w, pinned_count, total_count, i as int);
            assert(x <= 4 + 0xffff_ffff * 0x1_0000_0003);
        }
        let right: u128 = x + pill_w;
        if log_cursor_x as u128 >= x && (log_cursor_x as u128) < right {
            return Some(i as usize);
        }
        x = right + GUTTER as u128;
        i = i + 1;
    }
    None
}

/// The page rectangle `(x, y, width, height)` of a window.
pub open spec fn page_rect(full_w: u32, full_h: u32, strips: StripHeights, has_notice: bool) -> (
    u32,
    u32,
    u32,
    u32,
) {
    let status = least(strips.statusline as int, full_h as int);
    let tab = least(strips.tab_strip as int, full_h - status);
    let notice = if has_notice { least(strips.notice as int, full_h - status - tab) } else { 0 };
    (
        0u32,
        (notice + tab) as u32,
        greatest(full_w as int, 1) as u32,
        greatest(full_h - status - tab - notice, 1) as u32,
    )
}

/// The page rectangle of the main window: what the statusline, the tab strip
/// and the notice, each cut to what is left, leave over.
pub fn cef_child_rect_pure(
    full_w: u32,
    full_h: u32,
    strips: StripHeights,
    has_notice: bool,
) -> (r: (u32, u32, u32, u32))
    ensures
        r == page_rect(full_w, full_h, strips, has_notice),
{
    let status_h: u32 = min_u32(strips.statusline, full_h);
    let remaining_after_status: u32 = full_h - status_h;
    let tab_h: u32 = min_u32(strips.tab_strip, remaining_after_status);
    let remaining_after_tabs: u32 = remaining_after_status - tab_h;
    let notice_h: u32 = if has_notice { min_u32(strips.notice, remaining_after_tabs) } else { 0 };
    let remaining_after_notice: u32 = remaining_after_tabs - notice_h;
    let cef_w: u32 = max_u32(full_w, 1);
    let cef_h: u32 = max_u32(remaining_after_notice, 1);
    let cef_y: u32 = notice_h + tab_h;
    (0, cef_y, cef_w, cef_h)
}

/// Law: the page rectangle is never empty, never wider than the window, ends
/// within the window, and a notice never moves it up.
///
/// A statusline of no height leaves no row for a page that the tab strip has
/// crowded out, so it is left aside.
pub proof fn law_page_rect_fits(full_w: u32, full_h: u32, strips: StripHeights, has_notice: bool)
    requires
        strips.statusline >= 1,
    ensures
        ({
            let (x, y, w, h) = page_rect(full_w, full_h, strips, has_notice);
            &&& x == 0
            &&& w >= 1 && h >= 1
            &&& w <= greatest(full_w as int, 1)
            &&& y + h <= greatest(full_h as int, 1)
            &&& has_notice ==> y >= page_rect(full_w, full_h, strips, false).1
        }),
{
}

/// Law: the strips and the page make up the window: wherever the strips leave a
/// row, the page begins right below the tab strip and the notice, ends right above
/// the statusline, and is as wide as the window.
pub proof fn law_page_fills_what_the_strips_leave(
    full_w: u32,
    full_h: u32,
    strips: StripHeights,
    has_notice: bool,
)
    requires
        full_w >= 1,
        strips.statusline + strips.tab_strip + (if has_notice { strips.notice as int } else { 0 })
            < full_h,
    ensures
        ({
            let (x, y, w, h) = page_rect(full_w, full_h, strips, has_notice);
            &&& x == 0 && w == full_w
            &&& y == strips.tab_strip + if has_notice { strips.notice as int } else { 0 }
            &&& y + h == full_h - strips.statusline
        }),
{
}

/// Law: dropping the notice gives its rows back to the page, one for one,
/// wherever the page had a row to spare.
pub proof fn law_notice_takes_its_height(full_w: u32, full_h: u32, strips: StripHeights)
    requires
        strips.statusline + strips.tab_strip + strips.notice < full_h,
    ensures
        page_rect(full_w, full_h, strips, false).3 - page_rect(full_w, full_h, strips, true).3
            == strips.notice,
{
}

/// The page rectangle of a popup window, whose only strip is an address bar of
/// height `bar_h`.
pub fn popup_cef_rect_pure(full_w: u32, full_h: u32, bar_h: u32) -> (r: (u32, u32, u32, u32))
    ensures
        r.0 == 0,
        r.1 == bar_h,
        r.2 == greatest(full_w as int, 1),
        r.3 == greatest(full_h - bar_h, 1),
{
    (0, bar_h, max_u32(full_w, 1), max_u32(full_h.saturating_sub(bar_h), 1))
}

/// Whether a shared frame holds pixels that have not been used yet: none are
/// awaited, its size is the one asked for and not empty, its buffer has that
/// size, and its generation is a new one.
pub open spec fn frame_fresh(
    frame_w: u32,
    frame_h: u32,
    pixels_len: usize,
    frame_generation: u64,
    last_seen_generation: u64,
    expected_w: u32,
    expected_h: u32,
    needs_fresh: bool,
) -> bool {
    &&& !needs_fresh
    &&& frame_w > 0
    &&& frame_h > 0
    &&& frame_w == expected_w
    &&& frame_h == expected_h
    &&& pixels_len == frame_w * frame_h * 4
    &&& frame_generation != last_seen_generation
}

/// Whether a shared frame holds pixels that have not been used yet.
pub fn is_osr_frame_fresh(
    frame_w: u32,
    frame_h: u32,
    pixels_len: usize,
    frame_generation: u64,
    last_seen_generation: u64,
    expected_w: u32,
    expected_h: u32,
    needs_fresh: bool,
) -> (r: bool)
    ensures
        r == frame_fresh(
            frame_w,
            frame_h,
            pixels_len,
            frame_generation,
            last_seen_generation,
            expected_w,
            expected_h,
            needs_fresh,
        ),
{
    proof {
        assert(0 <= frame_w * frame_h <= 0xffff_ffff * 0xffff_ffff) by (nonlinear_arith)
            requires
                0 <= frame_w <= 0xffff_ffff,
                0 <= frame_h <= 0xffff_ffff,
        ;
    }
    let expected_len: u128 = frame_w as u128 * frame_h as u128 * 4;
    !needs_fresh && frame_w > 0 && frame_h > 0 && frame_w == expected_w && frame_h == expected_h
        && pixels_len as u128 == expected_len && frame_generation != last_seen_generation
}

/// Law: a frame once consumed is not consumed again before its generation
/// moves on.
pub proof fn law_no_frame_is_consumed_twice(
    w: u32,
    h: u32,
    len: usize,
    generation: u64,
    expected_w: u32,
    expected_h: u32,
    needs_fresh: bool,
)
    ensures
        !frame_fresh(w, h, len, generation, generation, expected_w, expected_h, needs_fresh),
{
}

/// What may be committed after a frame.
#[derive(Debug, Clone, Copy, PartialEq, Eq, Structural)]
pub struct FrameCommit {
    /// The chrome that was dirty is now on screen.
    pub advance_chrome_gen: bool,
    /// A new timing sample.
    pub observe_us: Option<u64>,
    /// The pixels never reached the screen: paint again.
    pub retry_paint: bool,
}

impl Default for FrameCommit {
    fn default() -> (r: Self)
        ensures
            r == (FrameCommit { advance_chrome_gen: false, observe_us: None, retry_paint: false }),
    {
        FrameCommit { advance_chrome_gen: false, observe_us: None, retry_paint: false }
    }
}

/// What a frame's outcome allows: only a submitted frame retires dirty chrome
/// and yields a sample, only a skipped one is retried.
pub open spec fn frame_commit(outcome: Option<(u64, Submitted)>, chrome_dirty: bool) -> FrameCommit {
    match outcome {
        Some((us, Submitted::Yes)) => FrameCommit {
            advance_chrome_gen: chrome_dirty,
            observe_us: Some(us),
            retry_paint: false,
        },
        Some((_, Submitted::No)) => FrameCommit {
            advance_chrome_gen: false,
            observe_us: None,
            retry_paint: true,
        },
        None => FrameCommit { advance_chrome_gen: false, observe_us: None, retry_paint: false },
    }
}

/// Decide what may be committed. `outcome` is `None` when the renderer failed.
pub fn decide_frame_commit(
    outcome: Option<(u64, Submitted)>,
    chrome_dirty_effective: bool,
) -> (r: FrameCommit)
    ensures
        r == frame_commit(outcome, chrome_dirty_effective),
{
    match outcome {
        Some((submit_done_us, Submitted::Yes)) => FrameCommit {
            advance_chrome_gen: chrome_dirty_effective,
            observe_us: Some(submit_done_us),
            retry_paint: false,
        },
        Some((_, Submitted::No)) => FrameCommit {
            advance_chrome_gen: false,
            observe_us: None,
            retry_paint: true,
        },
        None => FrameCommit::default(),
    }
}

/// Whether the chrome has to be uploaded again: it changed, the animation is
/// running in it, or the animation has just left it.
pub fn should_force_chrome_repaint(
    chrome_dirty: bool,
    want_anim: bool,
    anim_just_deactivated: bool,
) -> (r: bool)
    ensures
        r == (chrome_dirty || want_anim || anim_just_deactivated),
{
    chrome_dirty || want_anim || anim_just_deactivated
}

/// Whether the page area shows the loading animation: no page pixels have
/// arrived, or the last ones differ from the page area by more than
/// [`OSR_DIM_TOLERANCE`] in either direction.
pub open spec fn loading_anim(
    last_osr_dims: Option<(u32, u32)>,
    browser_w: u32,
    browser_h: u32,
) -> bool {
    match last_osr_dims {
        None => true,
        Some(d) => {
            ||| d.0 - browser_w > OSR_DIM_TOLERANCE
            ||| browser_w - d.0 > OSR_DIM_TOLERANCE
            ||| d.1 - browser_h > OSR_DIM_TOLERANCE
            ||| browser_h - d.1 > OSR_DIM_TOLERANCE
        },
    }
}

/// Distance of two values.
fn distance(a: u32, b: u32) -> (r: u32)
    ensures
        r == greatest(a - b, b - a),
{
    if a >= b { a - b } else { b - a }
}

/// Whether the page area shows the loading animation.
pub fn should_show_loading_anim(
    last_osr_dims: Option<(u32, u32)>,
    browser_w: u32,
    browser_h: u32,
) -> (r: bool)
    ensures
        r == loading_anim(last_osr_dims, browser_w, browser_h),
{
    match last_osr_dims {
        None => true,
        Some((lw, lh)) => distance(lw, browser_w) > OSR_DIM_TOLERANCE || distance(lh, browser_h)
            > OSR_DIM_TOLERANCE,
    }
}

/// Law: the animation covers everything while it is wanted. Otherwise pixels that
/// have just arrived are shown; without them those of an earlier frame; and nothing
/// only where there never were any.
pub proof fn law_best_pixels_are_painted(anim: bool, arrived: bool, earlier: Option<(u32, u32)>)
    ensures
        paint_path(anim, arrived, earlier) is Animation <==> anim,
        paint_path(anim, arrived, earlier) is FreshOsr <==> !anim && arrived,
        paint_path(anim, arrived, earlier) is SyntheticScratch <==> !anim && !arrived
            && earlier is Some,
        paint_path(anim, arrived, earlier) is DeadFallback <==> !anim && !arrived && earlier is None,
{
}

/// Law: only a frame that reached the screen is timed and settles the strips; one
/// that was handed over in vain, and only that, is painted again.
pub proof fn law_only_shown_frames_count(us: u64, s: Submitted, dirty: bool)
    ensures
        frame_commit(Some((us, s)), dirty).observe_us == if s is Yes { Some(us) } else { None },
        frame_commit(Some((us, s)), dirty).advance_chrome_gen <==> s is Yes && dirty,
        frame_commit(Some((us, s)), dirty).retry_paint <==> s is No,
        frame_commit(None, dirty).observe_us is None,
        !frame_commit(None, dirty).advance_chrome_gen,
        !frame_commit(None, dirty).retry_paint,
{
}

/// Law: a pointer is on a tab from its left edge to four pixels before the next one's,
/// and in the gap between two tabs on neither.
pub proof fn law_tab_ends_before_the_next(
    m: TabMetrics,
    full_w: u32,
    pinned: u32,
    total: u32,
    i: int,
    x: u32,
)
    requires
        0 <= i < total,
    ensures
        on_tab(m, full_w, pinned, total, i, x) <==> tab_left(m, full_w, pinned, total, i) <= x
            < tab_left(m, full_w, pinned, total, i + 1) - 4,
        on_tab(m, full_w, pinned, total, i, x) ==> !on_tab(m, full_w, pinned, total, i + 1, x),
{
}

/// Law: the loading animation is shown until the page's pixels have the size of its
/// area, up to 32 pixels each way.
pub proof fn law_animation_hides_misfitting_pixels(w: u32, h: u32, page_w: u32, page_h: u32)
    ensures
        loading_anim(None, page_w, page_h),
        !loading_anim(Some((w, h)), page_w, page_h) <==> (page_w - 32 <= w <= page_w + 32
            && page_h - 32 <= h <= page_h + 32),
{
}

} // verus!
