//! One frame of the main window, from the decision to paint at all to the
//! bookkeeping after the renderer has answered.
//!
//! A paint runs in two halves around the renderer call: [`PaintState::plan`]
//! says what to hand to the renderer, [`PaintState::finish`] what its answer
//! means. [`PaintState::take_probe`] and [`PaintState::settle_probe`] stand
//! before and after.
use std::collections::VecDeque;
use vstd::prelude::*;
use crate::paint_policy::{
    cef_child_rect_pure, decide_frame_commit, decide_paint_path, decide_paint_policy,
    detect_occluded_from_history, is_osr_frame_fresh, max_u32, min_u32, record_present_us,
    should_force_chrome_repaint, should_show_loading_anim, PaintPath, PaintPolicy,
    ResizePaintWatchdog, StripHeights, FAST_PRESENT_THRESHOLD_US, IMMEDIATE_OCCLUDE_THRESHOLD_US,
    PRESENT_HISTORY_SIZE, SLOW_FRAMES_TO_OCCLUDE, SLOW_PRESENT_THRESHOLD_US,
};
use crate::paint_policy;
use crate::render::{FrameStats, Submitted};

verus! {

/// Between the report that the window is covered and its sleep: a window that is
/// uncovered again at once does not sleep.
pub const OCCLUDE_SLEEP_DEBOUNCE: u64 = 200_000_000;

/// Between two probes of a sleeping window.
pub const OCCLUSION_PROBE_INTERVAL: u64 = 2_000_000_000;

/// Before a skipped frame is painted again.
pub const SKIPPED_FRAME_RETRY_DELAY: u64 = 8_000_000;

/// Before a resize that brought no paint is nudged.
pub const RESIZE_PAINT_WATCHDOG_TIMEOUT: u64 = 500_000_000;

/// What the engines have to be told.
#[derive(Debug, Clone, Copy, PartialEq, Eq, Structural)]
pub enum EngineCall {
    /// Nothing.
    Nothing,
    /// Pause every engine.
    SleepAll,
    /// Resume every engine, invalidate its view, and request a redraw.
    WakeAll,
}

/// The header of a frame shared with the engine.
#[derive(Debug, Clone, Copy, PartialEq, Eq, Structural)]
pub struct FrameHeader {
    pub width: u32,
    pub height: u32,
    pub pixels_len: usize,
    pub generation: u64,
    pub needs_fresh: bool,
}

/// What the active engine shows of itself.
#[derive(Debug, Clone, Copy, PartialEq, Eq, Structural)]
pub struct EngineView {
    /// The shared frame, unless it could not be read.
    pub frame: Option<FrameHeader>,
    /// The size the engine was asked for.
    pub expected_w: u32,
    pub expected_h: u32,
    /// The engine draws into a surface of its own below the chrome.
    pub native_compositing: bool,
}

/// What a paint of the main window is told.
#[derive(Debug, Clone, Copy)]
pub struct PaintInput {
    pub now: u64,
    /// This paint is a wake probe.
    pub probe_pending: bool,
    /// Stats of a frame presented since the last paint.
    pub stats: Option<FrameStats>,
    /// Live physical size of the window, if there is one.
    pub window: Option<(u32, u32)>,
    /// A fresher size than the window reports.
    pub override_size: Option<(u32, u32)>,
    /// Logical size that goes with the used physical size.
    pub logical: (u32, u32),
    /// Strip heights in physical pixels.
    pub strips: StripHeights,
    /// Strip heights in logical pixels.
    pub logical_strips: StripHeights,
    pub has_notice: bool,
    pub engine: Option<EngineView>,
    pub has_renderer: bool,
    /// A prompt, an input bar or a menu floats over the page.
    pub floating: bool,
}

/// The page layer handed to the renderer.
#[derive(Debug, Clone, Copy, PartialEq, Eq)]
pub struct UploadPlan {
    pub width: u32,
    pub height: u32,
    pub generation: u64,
    pub dst_rect: (u32, u32, u32, u32),
    /// The pixels are already on the GPU.
    pub skip_pixels: bool,
}

/// One frame as the renderer is to paint it.
#[derive(Debug, Clone, Copy, PartialEq, Eq)]
pub struct FramePlan {
    pub width: u32,
    pub height: u32,
    pub logical: (u32, u32),
    /// Page rectangle in physical pixels.
    pub page: (u32, u32, u32, u32),
    /// Page rectangle in logical pixels.
    pub logical_page: (u32, u32, u32, u32),
    /// Top row of the tab strip, in logical pixels.
    pub tab_y: u32,
    pub want_anim: bool,
    /// The strips are painted and uploaded.
    pub repaint_chrome: bool,
    /// Rows uploaded at the top and at the bottom.
    pub top_band: u32,
    pub bottom_band: u32,
    pub path: PaintPath,
    pub upload: Option<UploadPlan>,
    /// The generation consumed once the renderer has been called.
    pub generation: u64,
}

/// Whether a paint reaches the renderer.
#[derive(Debug, Clone, Copy, PartialEq, Eq)]
pub enum PaintVerdict {
    /// The window sleeps.
    Asleep,
    NoWindow,
    NoRenderer,
    /// Nothing has changed since the last frame.
    Idle,
    Frame(FramePlan),
}

/// What the first half of a paint leads to.
#[derive(Debug, Clone, Copy, PartialEq, Eq)]
pub struct PaintStep {
    pub call: EngineCall,
    /// The shared frame's pixels were taken over.
    pub swap_pixels: bool,
    pub verdict: PaintVerdict,
}

/// What the second half of a paint leads to.
#[derive(Debug, Clone, Copy, PartialEq, Eq, Structural)]
pub struct FinishStep {
    pub call: EngineCall,
    /// The window has a newer size than the frame: paint again.
    pub redraw: bool,
    pub submitted: bool,
}

/// What the main window remembers from frame to frame.
pub struct PaintState {
    pub policy: PaintPolicy,
    pub occluded: bool,
    pub sleep_deadline: Option<u64>,
    pub media_active: bool,
    /// Present times in microseconds, newest last.
    pub history: VecDeque<u64>,
    pub next_probe_at: Option<u64>,
    pub probe_pending: bool,
    pub repaint_retry_at: Option<u64>,
    /// The last frame did not have the window's size.
    pub surface_drifted: bool,
    pub chrome_generation: u64,
    pub last_painted_chrome_gen: u64,
    pub last_osr_generation: u64,
    pub last_osr_dims: Option<(u32, u32)>,
    pub watchdog: ResizePaintWatchdog,
    pub loading_anim_active: bool,
    pub loading_anim_next_wake: Option<u64>,
}

/// The contents of a [`PaintState`].
#[verifier::ext_equal]
pub struct PaintView {
    pub policy: PaintPolicy,
    pub occluded: bool,
    pub sleep_deadline: Option<u64>,
    pub media_active: bool,
    pub history: Seq<u64>,
    pub next_probe_at: Option<u64>,
    pub probe_pending: bool,
    pub repaint_retry_at: Option<u64>,
    pub surface_drifted: bool,
    pub chrome_generation: u64,
    pub last_painted_chrome_gen: u64,
    pub last_osr_generation: u64,
    pub last_osr_dims: Option<(u32, u32)>,
    pub watchdog: ResizePaintWatchdog,
    pub loading_anim_active: bool,
    pub loading_anim_next_wake: Option<u64>,
}

impl View for PaintState {
    type V = PaintView;

    open spec fn view(&self) -> PaintView {
        PaintView {
            policy: self.policy,
            occluded: self.occluded,
            sleep_deadline: self.sleep_deadline,
            media_active: self.media_active,
            history: self.history@,
            next_probe_at: self.next_probe_at,
            probe_pending: self.probe_pending,
            repaint_retry_at: self.repaint_retry_at,
            surface_drifted: self.surface_drifted,
            chrome_generation: self.chrome_generation,
            last_painted_chrome_gen: self.last_painted_chrome_gen,
            last_osr_generation: self.last_osr_generation,
            last_osr_dims: self.last_osr_dims,
            watchdog: self.watchdog,
            loading_anim_active: self.loading_anim_active,
            loading_anim_next_wake: self.loading_anim_next_wake,
        }
    }
}

/// The sample history is never longer than it may be.
pub open spec fn paint_wf(v: PaintView) -> bool {
    v.history.len() <= PRESENT_HISTORY_SIZE
}

/// A window that has not painted yet: awake, its chrome dirty.
pub open spec fn unpainted() -> PaintView {
    PaintView {
        policy: PaintPolicy::Active,
        occluded: false,
        sleep_deadline: None,
        media_active: false,
        history: Seq::empty(),
        next_probe_at: None,
        probe_pending: false,
        repaint_retry_at: None,
        surface_drifted: false,
        chrome_generation: 1,
        last_painted_chrome_gen: 0,
        last_osr_generation: 0,
        last_osr_dims: None,
        watchdog: ResizePaintWatchdog { pending: None },
        loading_anim_active: false,
        loading_anim_next_wake: None,
    }
}

/// The chrome changed.
pub open spec fn dirtied(v: PaintView) -> PaintView {
    PaintView {
        chrome_generation: if v.chrome_generation == u64::MAX {
            0
        } else {
            (v.chrome_generation + 1) as u64
        },
        ..v
    }
}

/// The policy follows the occlusion flag; a change is told to the engines.
pub open spec fn recomputed(v: PaintView) -> (PaintView, EngineCall) {
    let policy = if v.occluded { PaintPolicy::Sleeping } else { PaintPolicy::Active };
    if policy == v.policy {
        (v, EngineCall::Nothing)
    } else {
        (
            PaintView { policy, ..v },
            if v.occluded { EngineCall::SleepAll } else { EngineCall::WakeAll },
        )
    }
}

/// The moment at which a window that is covered at `now` falls asleep.
pub open spec fn asleep_at(now: u64) -> u64 {
    if now + OCCLUDE_SLEEP_DEBOUNCE > u64::MAX {
        u64::MAX
    } else {
        (now + OCCLUDE_SLEEP_DEBOUNCE) as u64
    }
}

/// The compositor reports that the window is covered, or is not. An uncovered
/// window wakes at once, a covered one is given some time.
pub open spec fn reported(v: PaintView, occluded: bool, now: u64) -> (PaintView, EngineCall) {
    if occluded {
        (PaintView { sleep_deadline: Some(asleep_at(now)), ..v }, EngineCall::Nothing)
    } else {
        recomputed(PaintView { occluded: false, sleep_deadline: None, ..v })
    }
}

/// Time passed: a window that has been covered for long enough falls asleep.
pub open spec fn slept(v: PaintView, now: u64) -> (PaintView, EngineCall) {
    if v.sleep_deadline matches Some(t) && t <= now {
        recomputed(PaintView { occluded: true, sleep_deadline: None, ..v })
    } else {
        recomputed(v)
    }
}

/// A present took `us` microseconds.
///
/// Asleep, a fast present wakes the window and forgets the samples, a slow one
/// books the next probe. Awake, one very slow present or enough slow ones put
/// it to sleep.
pub open spec fn observed(v: PaintView, us: u64, now: u64) -> (PaintView, EngineCall) {
    let history = paint_policy::newest(v.history.push(us), PRESENT_HISTORY_SIZE as int);
    let probe = Some((now + OCCLUSION_PROBE_INTERVAL) as u64);
    if v.policy == PaintPolicy::Sleeping {
        if us < FAST_PRESENT_THRESHOLD_US {
            recomputed(
                PaintView { occluded: false, history: Seq::empty(), next_probe_at: None, ..v },
            )
        } else {
            (PaintView { history, next_probe_at: probe, ..v }, EngineCall::SleepAll)
        }
    } else if !v.occluded && (us > IMMEDIATE_OCCLUDE_THRESHOLD_US || paint_policy::slow_count(
        history,
        SLOW_PRESENT_THRESHOLD_US,
    ) >= SLOW_FRAMES_TO_OCCLUDE) {
        recomputed(PaintView { occluded: true, history, next_probe_at: probe, ..v })
    } else {
        (PaintView { history, ..v }, EngineCall::Nothing)
    }
}

/// The size a frame is painted at: at least one pixel each way.
pub open spec fn used_size(override_size: Option<(u32, u32)>, live: (u32, u32)) -> (u32, u32) {
    let s = match override_size {
        Some(o) => o,
        None => live,
    };
    (
        paint_policy::greatest(s.0 as int, 1) as u32,
        paint_policy::greatest(s.1 as int, 1) as u32,
    )
}

/// The shared frame, if its pixels are new.
pub open spec fn fresh_frame(engine: Option<EngineView>, last_seen: u64) -> Option<FrameHeader> {
    match engine {
        Some(e) => match e.frame {
            Some(f) => if paint_policy::frame_fresh(
                f.width,
                f.height,
                f.pixels_len,
                f.generation,
                last_seen,
                e.expected_w,
                e.expected_h,
                f.needs_fresh,
            ) {
                Some(f)
            } else {
                None
            },
            None => None,
        },
        None => None,
    }
}

/// Fresh pixels were taken over: their size is remembered and the wait for
/// them, if it was for that size, is over.
pub open spec fn consumed(v: PaintView, fresh: Option<FrameHeader>) -> PaintView {
    match fresh {
        Some(f) => PaintView {
            last_osr_dims: Some((f.width, f.height)),
            watchdog: v.watchdog.after_paint(f.width, f.height),
            ..v
        },
        None => v,
    }
}

/// Whether the page area shows the animation.
pub open spec fn wants_anim(v: PaintView, i: PaintInput, page: (u32, u32, u32, u32)) -> bool {
    &&& paint_policy::loading_anim(v.last_osr_dims, page.2, page.3) || v.surface_drifted
    &&& !(i.engine matches Some(e) && e.native_compositing)
}

/// The page layer of a frame: fresh pixels, or the pixels of an earlier frame
/// under the generation the GPU already has.
pub open spec fn upload_of(
    path: PaintPath,
    fresh: Option<FrameHeader>,
    v: PaintView,
    page: (u32, u32, u32, u32),
) -> Option<UploadPlan> {
    match path {
        PaintPath::FreshOsr => Some(
            UploadPlan {
                width: fresh->0.width,
                height: fresh->0.height,
                generation: fresh->0.generation,
                dst_rect: (0u32, page.1, page.2, page.3),
                skip_pixels: false,
            },
        ),
        PaintPath::SyntheticScratch => Some(
            UploadPlan {
                width: (v.last_osr_dims->0).0,
                height: (v.last_osr_dims->0).1,
                generation: v.last_osr_generation,
                dst_rect: (0u32, page.1, page.2, page.3),
                skip_pixels: true,
            },
        ),
        PaintPath::Animation | PaintPath::DeadFallback => None,
    }
}

/// The frame to paint, once it is known that one is painted.
pub open spec fn frame_plan(
    v: PaintView,
    i: PaintInput,
    fresh: Option<FrameHeader>,
    size: (u32, u32),
) -> FramePlan {
    let page = paint_policy::page_rect(size.0, size.1, i.strips, i.has_notice);
    let want_anim = wants_anim(v, i, page);
    let anim_left = v.loading_anim_active && !want_anim;
    let repaint = v.chrome_generation != v.last_painted_chrome_gen || want_anim || anim_left;
    let path = paint_policy::paint_path(want_anim, fresh is Some, v.last_osr_dims);
    let middle = want_anim || anim_left || (repaint && i.floating);
    FramePlan {
        width: size.0,
        height: size.1,
        logical: i.logical,
        page,
        logical_page: paint_policy::page_rect(
            i.logical.0,
            i.logical.1,
            i.logical_strips,
            i.has_notice,
        ),
        tab_y: paint_policy::least(
            if i.has_notice { i.logical_strips.notice as int } else { 0 },
            i.logical.1 as int,
        ) as u32,
        want_anim,
        repaint_chrome: repaint,
        top_band: if middle {
            i.logical.1
        } else {
            (i.logical_strips.tab_strip + i.logical_strips.notice) as u32
        },
        bottom_band: if middle { 0 } else { i.logical_strips.statusline },
        path,
        upload: upload_of(path, fresh, v, page),
        generation: if path == PaintPath::FreshOsr { fresh->0.generation } else { v.last_osr_generation },
    }
}

/// The first half of a paint.
pub open spec fn planned(v: PaintView, i: PaintInput) -> (PaintView, PaintStep) {
    let (v1, call) = match i.stats {
        Some(s) => observed(v, s.present_us, i.now),
        None => (v, EngineCall::Nothing),
    };
    if v1.policy == PaintPolicy::Sleeping && !v1.surface_drifted && !i.probe_pending {
        (v1, PaintStep { call, swap_pixels: false, verdict: PaintVerdict::Asleep })
    } else if i.window is None {
        (v1, PaintStep { call, swap_pixels: false, verdict: PaintVerdict::NoWindow })
    } else {
        let size = used_size(i.override_size, i.window->0);
        let fresh = fresh_frame(i.engine, v1.last_osr_generation);
        let v2 = consumed(v1, fresh);
        if !i.has_renderer {
            (v2, PaintStep { call, swap_pixels: fresh is Some, verdict: PaintVerdict::NoRenderer })
        } else {
            let plan = frame_plan(v2, i, fresh, size);
            if v2.chrome_generation == v2.last_painted_chrome_gen && fresh is None
                && !plan.want_anim && !v2.loading_anim_active {
                (v2, PaintStep { call, swap_pixels: false, verdict: PaintVerdict::Idle })
            } else {
                (
                    PaintView { loading_anim_active: plan.want_anim, ..v2 },
                    PaintStep {
                        call,
                        swap_pixels: fresh is Some,
                        verdict: PaintVerdict::Frame(plan),
                    },
                )
            }
        }
    }
}

/// The second half of a paint. `outcome` is `None` when the renderer failed,
/// `live` is the window's size after the call.
pub open spec fn finished(
    v: PaintView,
    plan: FramePlan,
    outcome: Option<(u64, Submitted)>,
    live: Option<(u32, u32)>,
    now: u64,
    splash_period: u64,
) -> (PaintView, FinishStep) {
    let commit = paint_policy::frame_commit(outcome, plan.repaint_chrome);
    let v1 = PaintView {
        last_osr_generation: plan.generation,
        loading_anim_next_wake: if plan.want_anim {
            Some((now + splash_period) as u64)
        } else {
            None
        },
        last_painted_chrome_gen: if commit.advance_chrome_gen {
            v.chrome_generation
        } else {
            v.last_painted_chrome_gen
        },
        ..v
    };
    let (v2, call) = match commit.observe_us {
        Some(us) => observed(v1, us, now),
        None => (v1, EngineCall::Nothing),
    };
    let drifted = live matches Some(s) && (s.0 != plan.width || s.1 != plan.height);
    (
        PaintView {
            repaint_retry_at: if commit.retry_paint {
                Some((now + SKIPPED_FRAME_RETRY_DELAY) as u64)
            } else {
                None
            },
            surface_drifted: drifted,
            ..v2
        },
        FinishStep {
            call,
            redraw: drifted,
            submitted: outcome matches Some(o) && o.1 == Submitted::Yes,
        },
    )
}

/// Another tab came to the front, whose shared frame has generation `current`.
pub open spec fn switched(v: PaintView, current: Option<u64>) -> PaintView {
    PaintView {
        last_osr_dims: None,
        last_osr_generation: match current {
            Some(g) => g,
            None => 0,
        },
        ..v
    }
}

/// The page size every engine is to be resized to.
pub open spec fn engine_size(
    window: Option<(u32, u32)>,
    strips: StripHeights,
    has_notice: bool,
) -> Option<(u32, u32)> {
    match window {
        Some(s) => {
            let size = used_size(None, s);
            let page = paint_policy::page_rect(size.0, size.1, strips, has_notice);
            Some((page.2, page.3))
        },
        None => None,
    }
}

/// The engines were resized to `size`; an active one has to paint.
pub open spec fn awaiting(
    v: PaintView,
    size: Option<(u32, u32)>,
    has_active_engine: bool,
    now: u64,
) -> PaintView {
    if has_active_engine && size is Some {
        PaintView {
            watchdog: ResizePaintWatchdog {
                pending: Some(
                    (
                        (size->0).0,
                        (size->0).1,
                        (now + RESIZE_PAINT_WATCHDOG_TIMEOUT) as u64,
                        0u32,
                    ),
                ),
            },
            ..v
        }
    } else {
        v
    }
}

/// After a probe that brought no sample, the next one is booked.
pub open spec fn settled(v: PaintView, probe_pending: bool, submitted: bool, now: u64) -> PaintView {
    if probe_pending && !submitted && v.policy == PaintPolicy::Sleeping && v.next_probe_at is None {
        PaintView { next_probe_at: Some((now + OCCLUSION_PROBE_INTERVAL) as u64), ..v }
    } else {
        v
    }
}

impl PaintState {
    /// A window that has not painted yet: awake, its chrome dirty.
    pub fn new() -> (r: Self)
        ensures
            paint_wf(r@),
            r@ == unpainted(),
    {
        PaintState {
            policy: PaintPolicy::Active,
            occluded: false,
            sleep_deadline: None,
            media_active: false,
            history: VecDeque::new(),
            next_probe_at: None,
            probe_pending: false,
            repaint_retry_at: None,
            surface_drifted: false,
            chrome_generation: 1,
            last_painted_chrome_gen: 0,
            last_osr_generation: 0,
            last_osr_dims: None,
            watchdog: ResizePaintWatchdog { pending: None },
            loading_anim_active: false,
            loading_anim_next_wake: None,
        }
    }

    /// The chrome has to be painted again.
    pub fn mark_chrome_dirty(&mut self)
        ensures
            final(self)@ == dirtied(old(self)@),
    {
        self.chrome_generation = self.chrome_generation.wrapping_add(1);
    }

    /// Bring the policy in line with the occlusion flag.
    pub fn recompute_paint_policy(&mut self) -> (call: EngineCall)
        ensures
            (final(self)@, call) == recomputed(old(self)@),
    {
        let new_policy = decide_paint_policy(self.occluded, self.media_active);
        if new_policy == self.policy {
            return EngineCall::Nothing;
        }
        self.policy = new_policy;
        match new_policy {
            PaintPolicy::Sleeping => EngineCall::SleepAll,
            PaintPolicy::Active => EngineCall::WakeAll,
        }
    }

    /// Take in that the window is covered, or is not.
    pub fn report_occlusion(&mut self, occluded: bool, now: u64) -> (call: EngineCall)
        ensures
            (final(self)@, call) == reported(old(self)@, occluded, now),
    {
        if occluded {
            self.sleep_deadline = Some(now.saturating_add(OCCLUDE_SLEEP_DEBOUNCE));
            return EngineCall::Nothing;
        }
        self.sleep_deadline = None;
        self.occluded = false;
        self.recompute_paint_policy()
    }

    /// Fall asleep if the window has been covered for long enough.
    pub fn sleep_if_due(&mut self, now: u64) -> (call: EngineCall)
        ensures
            (final(self)@, call) == slept(old(self)@, now),
    {
        if let Some(t) = self.sleep_deadline {
            if t <= now {
                self.sleep_deadline = None;
                self.occluded = true;
            }
        }
        self.recompute_paint_policy()
    }

    /// Take a present time into account.
    pub fn observe_present_us(&mut self, present_us: u64, now: u64) -> (call: EngineCall)
        requires
            paint_wf(old(self)@),
            now + OCCLUSION_PROBE_INTERVAL <= u64::MAX,
        ensures
            paint_wf(final(self)@),
            (final(self)@, call) == observed(old(self)@, present_us, now),
    {
        record_present_us(&mut self.history, present_us);
        if self.policy == PaintPolicy::Sleeping {
            if present_us < FAST_PRESENT_THRESHOLD_US {
                self.occluded = false;
                self.history.clear();
                self.next_probe_at = None;
                return self.recompute_paint_policy();
            }
            self.next_probe_at = Some(now + OCCLUSION_PROBE_INTERVAL);
            return EngineCall::SleepAll;
        }
        let immediate = present_us > IMMEDIATE_OCCLUDE_THRESHOLD_US;
        let sustained = detect_occluded_from_history(
            &self.history,
            SLOW_PRESENT_THRESHOLD_US,
            SLOW_FRAMES_TO_OCCLUDE,
        );
        if !self.occluded && (immediate || sustained) {
            self.occluded = true;
            self.next_probe_at = Some(now + OCCLUSION_PROBE_INTERVAL);
            return self.recompute_paint_policy();
        }
        EngineCall::Nothing
    }

    /// The size a frame is painted at.
    pub fn paint_size(override_size: Option<(u32, u32)>, live: (u32, u32)) -> (r: (u32, u32))
        ensures
            r == used_size(override_size, live),
    {
        let (w, h) = match override_size {
            Some(o) => o,
            None => live,
        };
        (max_u32(w, 1), max_u32(h, 1))
    }

    /// Consume the wake-probe flag.
    pub fn take_probe(&mut self) -> (probe_pending: bool)
        ensures
            probe_pending == old(self).probe_pending,
            final(self)@ == (PaintView { probe_pending: false, ..old(self)@ }),
    {
        let probe_pending = self.probe_pending;
        self.probe_pending = false;
        probe_pending
    }

    /// Take over the shared frame if its pixels are new.
    fn consume_frame(&mut self, engine: &Option<EngineView>) -> (fresh: Option<FrameHeader>)
        ensures
            fresh == fresh_frame(*engine, old(self).last_osr_generation),
            final(self)@ == consumed(old(self)@, fresh),
    {
        match engine {
            Some(e) => match e.frame {
                Some(f) => {
                    if is_osr_frame_fresh(
                        f.width,
                        f.height,
                        f.pixels_len,
                        f.generation,
                        self.last_osr_generation,
                        e.expected_w,
                        e.expected_h,
                        f.needs_fresh,
                    ) {
                        self.last_osr_dims = Some((f.width, f.height));
                        let _ = self.watchdog.observe_paint(f.width, f.height);
                        Some(f)
                    } else {
                        None
                    }
                },
                None => None,
            },
            None => None,
        }
    }

    /// The first half of a paint: whether to paint, and what.
    #[verifier::rlimit(60)]
    pub fn plan(&mut self, i: &PaintInput) -> (step: PaintStep)
        requires
            paint_wf(old(self)@),
            i.now + OCCLUSION_PROBE_INTERVAL <= u64::MAX,
            i.logical_strips.tab_strip + i.logical_strips.notice <= u32::MAX,
        ensures
            paint_wf(final(self)@),
            (final(self)@, step) == planned(old(self)@, *i),
    {
        let call = match i.stats {
            Some(s) => self.observe_present_us(s.present_us, i.now),
            None => EngineCall::Nothing,
        };
        if self.policy == PaintPolicy::Sleeping && !self.surface_drifted && !i.probe_pending {
            return PaintStep { call, swap_pixels: false, verdict: PaintVerdict::Asleep };
        }
        let live = match i.window {
            Some(s) => s,
            None => {
                return PaintStep { call, swap_pixels: false, verdict: PaintVerdict::NoWindow };
            },
        };
        let (width, height) = Self::paint_size(i.override_size, live);
        let page = cef_child_rect_pure(width, height, i.strips, i.has_notice);
        let fresh = self.consume_frame(&i.engine);
        if !i.has_renderer {
            return PaintStep {
                call,
                swap_pixels: fresh.is_some(),
                verdict: PaintVerdict::NoRenderer,
            };
        }
        let native = match i.engine {
            Some(e) => e.native_compositing,
            None => false,
        };
        let chrome_dirty = self.chrome_generation != self.last_painted_chrome_gen;
        let want_anim = (should_show_loading_anim(self.last_osr_dims, page.2, page.3)
            || self.surface_drifted) && !native;
        if !chrome_dirty && fresh.is_none() && !want_anim && !self.loading_anim_active {
            return PaintStep { call, swap_pixels: false, verdict: PaintVerdict::Idle };
        }
        let anim_just_deactivated = self.loading_anim_active && !want_anim;
        self.loading_anim_active = want_anim;
        let repaint_chrome = should_force_chrome_repaint(
            chrome_dirty,
            want_anim,
            anim_just_deactivated,
        );
        let path = decide_paint_path(want_anim, fresh.is_some(), self.last_osr_dims);
        let middle = want_anim || anim_just_deactivated || (repaint_chrome && i.floating);
        let dst_rect = (0u32, page.1, page.2, page.3);
        let mut generation: u64 = self.last_osr_generation;
        let upload = match path {
            PaintPath::FreshOsr => match fresh {
                Some(f) => {
                    generation = f.generation;
                    Some(
                        UploadPlan {
                            width: f.width,
                            height: f.height,
                            generation: f.generation,
                            dst_rect,
                            skip_pixels: false,
                        },
                    )
                },
                None => None,
            },
            PaintPath::SyntheticScratch => match self.last_osr_dims {
                Some((w, h)) => Some(
                    UploadPlan {
                        width: w,
                        height: h,
                        generation: self.last_osr_generation,
                        dst_rect,
                        skip_pixels: true,
                    },
                ),
                None => None,
            },
            PaintPath::Animation => None,
            PaintPath::DeadFallback => None,
        };
        let notice_h: u32 = if i.has_notice { i.logical_strips.notice } else { 0 };
        let top_band: u32 = if middle {
            i.logical.1
        } else {
            i.logical_strips.tab_strip + i.logical_strips.notice
        };
        let bottom_band: u32 = if middle { 0 } else { i.logical_strips.statusline };
        let plan = FramePlan {
            width,
            height,
            logical: i.logical,
            page,
            logical_page: cef_child_rect_pure(
                i.logical.0,
                i.logical.1,
                i.logical_strips,
                i.has_notice,
            ),
            tab_y: min_u32(notice_h, i.logical.1),
            want_anim,
            repaint_chrome,
            top_band,
            bottom_band,
            path,
            upload,
            generation,
        };
        PaintStep { call, swap_pixels: fresh.is_some(), verdict: PaintVerdict::Frame(plan) }
    }

    /// The second half of a paint: what the renderer's answer means.
    #[verifier::spinoff_prover]
    #[verifier::rlimit(60)]
    pub fn finish(
        &mut self,
        plan: &FramePlan,
        outcome: Option<(u64, Submitted)>,
        live: Option<(u32, u32)>,
        now: u64,
        splash_period: u64,
    ) -> (step: FinishStep)
        requires
            paint_wf(old(self)@),
            now + OCCLUSION_PROBE_INTERVAL <= u64::MAX,
            now + splash_period <= u64::MAX,
        ensures
            paint_wf(final(self)@),
            (final(self)@, step) == finished(
                old(self)@,
                *plan,
                outcome,
                live,
                now,
                splash_period,
            ),
    {
        self.last_osr_generation = plan.generation;
        self.loading_anim_next_wake = if plan.want_anim { Some(now + splash_period) } else { None };
        let commit = decide_frame_commit(outcome, plan.repaint_chrome);
        if commit.advance_chrome_gen {
            self.last_painted_chrome_gen = self.chrome_generation;
        }
        let ghost painted = self@;
        let call = match commit.observe_us {
            Some(us) => self.observe_present_us(us, now),
            None => EngineCall::Nothing,
        };
        assert((self@, call) == match commit.observe_us {
            Some(us) => observed(painted, us, now),
            None => (painted, EngineCall::Nothing),
        });
        let ghost sampled = self@;
        self.repaint_retry_at = if commit.retry_paint {
            Some(now + SKIPPED_FRAME_RETRY_DELAY)
        } else {
            None
        };
        let drifted = match live {
            Some((w, h)) => w != plan.width || h != plan.height,
            None => false,
        };
        self.surface_drifted = drifted;
        let submitted = match outcome {
            Some((_, s)) => s == Submitted::Yes,
            None => false,
        };
        assert(self@ == PaintView {
            repaint_retry_at: self.repaint_retry_at,
            surface_drifted: drifted,
            ..sampled
        });
        FinishStep { call, redraw: drifted, submitted }
    }

    /// Book the next probe where this one brought no sample.
    pub fn settle_probe(&mut self, probe_pending: bool, submitted: bool, now: u64)
        requires
            now + OCCLUSION_PROBE_INTERVAL <= u64::MAX,
        ensures
            final(self)@ == settled(old(self)@, probe_pending, submitted, now),
    {
        if probe_pending && !submitted && self.policy == PaintPolicy::Sleeping
            && self.next_probe_at.is_none() {
            self.next_probe_at = Some(now + OCCLUSION_PROBE_INTERVAL);
        }
    }

    /// Another tab came to the front, whose shared frame has generation
    /// `current`: its next new frame is awaited, whatever it painted before.
    pub fn on_tab_switch(&mut self, current: Option<u64>)
        ensures
            final(self)@ == switched(old(self)@, current),
    {
        self.last_osr_dims = None;
        self.last_osr_generation = match current {
            Some(g) => g,
            None => 0,
        };
    }

    /// The page size every engine is to be resized to, if there is a window.
    /// The paint that has to follow is awaited where an engine is active.
    pub fn resync_cef_rect(
        &mut self,
        window: Option<(u32, u32)>,
        strips: StripHeights,
        has_notice: bool,
        has_active_engine: bool,
        now: u64,
    ) -> (r: Option<(u32, u32)>)
        requires
            now + RESIZE_PAINT_WATCHDOG_TIMEOUT <= u64::MAX,
        ensures
            r == engine_size(window, strips, has_notice),
            final(self)@ == awaiting(old(self)@, r, has_active_engine, now),
    {
        let size = match window {
            Some(s) => Self::paint_size(None, s),
            None => {
                return None;
            },
        };
        let (_, _, w, h) = cef_child_rect_pure(size.0, size.1, strips, has_notice);
        if has_active_engine {
            self.watchdog.arm(w, h, now, RESIZE_PAINT_WATCHDOG_TIMEOUT);
        }
        Some((w, h))
    }
}

/// Law: a frame that the renderer skipped leaves the samples, the policy and
/// the probe as they were, keeps the chrome dirty, and is painted again.
pub proof fn law_skipped_frame_changes_no_policy(
    v: PaintView,
    plan: FramePlan,
    stale_us: u64,
    live: Option<(u32, u32)>,
    now: u64,
    splash_period: u64,
)
    ensures
        ({
            let (next, step) = finished(
                v,
                plan,
                Some((stale_us, Submitted::No)),
                live,
                now,
                splash_period,
            );
            &&& next.history == v.history
            &&& next.policy == v.policy
            &&& next.occluded == v.occluded
            &&& next.next_probe_at == v.next_probe_at
            &&& next.last_painted_chrome_gen == v.last_painted_chrome_gen
            &&& next.repaint_retry_at is Some
            &&& step.call == EngineCall::Nothing
            &&& !step.submitted
        }),
{
}

/// Law: chrome that was dirty when a frame was planned is clean afterwards only
/// if that frame was submitted.
pub proof fn law_dirty_until_submitted(
    v: PaintView,
    i: PaintInput,
    outcome: Option<(u64, Submitted)>,
    live: Option<(u32, u32)>,
    now: u64,
    splash_period: u64,
)
    requires
        v.chrome_generation != v.last_painted_chrome_gen,
        planned(v, i).1.verdict is Frame,
    ensures
        ({
            let (v1, step) = planned(v, i);
            let (v2, fin) = finished(v1, step.verdict->0, outcome, live, now, splash_period);
            (v2.chrome_generation == v2.last_painted_chrome_gen) == fin.submitted
        }),
{
}

/// Law: a probing paint never leaves the window asleep with no further probe
/// booked, whatever the renderer answers.
pub proof fn law_probe_never_strands_the_window(
    v: PaintView,
    i: PaintInput,
    outcome: Option<(u64, Submitted)>,
    live: Option<(u32, u32)>,
    now: u64,
    splash_period: u64,
)
    requires
        i.probe_pending,
    ensures
        ({
            let (v1, step) = planned(v, i);
            match step.verdict {
                PaintVerdict::Frame(plan) => {
                    let (v2, fin) = finished(v1, plan, outcome, live, now, splash_period);
                    let v3 = settled(v2, true, fin.submitted, now);
                    v3.policy == PaintPolicy::Sleeping ==> v3.next_probe_at is Some
                },
                _ => {
                    let v3 = settled(v1, true, false, now);
                    v3.policy == PaintPolicy::Sleeping ==> v3.next_probe_at is Some
                },
            }
        }),
{
}

/// Law: a sleeping window paints only for a probe or to mend a wrong size.
pub proof fn law_sleeping_window_does_not_paint(v: PaintView, i: PaintInput)
    requires
        v.policy == PaintPolicy::Sleeping,
        !v.surface_drifted,
        !i.probe_pending,
        i.stats is None,
    ensures
        planned(v, i) == (
            v,
            PaintStep {
                call: EngineCall::Nothing,
                swap_pixels: false,
                verdict: PaintVerdict::Asleep,
            },
        ),
{
}

/// Law: the upload of a frame never claims more pixels than were taken over:
/// fresh pixels go out under the size and generation they came with.
pub proof fn law_fresh_upload_matches_the_frame(v: PaintView, i: PaintInput)
    requires
        planned(v, i).1.verdict matches PaintVerdict::Frame(p) && p.path == PaintPath::FreshOsr,
    ensures
        ({
            let (v1, step) = planned(v, i);
            let u = step.verdict->0.upload->0;
            let f = i.engine->0.frame->0;
            &&& step.swap_pixels
            &&& u.width == f.width && u.height == f.height && u.generation == f.generation
            &&& f.pixels_len == u.width * u.height * 4
            &&& v1.last_osr_dims == Some((u.width, u.height))
        }),
{
}

/// Law: after a tab switch the frame that the tab shows already is not taken
/// for a new one, and the animation covers the page until one arrives.
pub proof fn law_tab_switch_waits_for_a_new_frame(
    v: PaintView,
    engine: EngineView,
    f: FrameHeader,
    browser_w: u32,
    browser_h: u32,
)
    requires
        engine.frame == Some(f),
    ensures
        ({
            let next = switched(v, Some(f.generation));
            &&& fresh_frame(Some(engine), next.last_osr_generation) is None
            &&& paint_policy::loading_anim(next.last_osr_dims, browser_w, browser_h)
        }),
{
}

/// Law: a window that is covered and uncovered again within the time it is given
/// never sleeps, and one that stays covered sleeps once that time has passed.
pub proof fn law_short_cover_does_not_sleep(v: PaintView, covered: u64, later: u64)
    requires
        v.policy == PaintPolicy::Active,
        !v.occluded,
        covered + OCCLUDE_SLEEP_DEBOUNCE <= u64::MAX,
    ensures
        ({
            let (w, call) = reported(v, true, covered);
            let (x, then) = slept(w, later);
            &&& call == EngineCall::Nothing
            &&& later < covered + OCCLUDE_SLEEP_DEBOUNCE ==> {
                &&& (x, then) == (w, EngineCall::Nothing)
                &&& reported(x, false, later) == (
                    PaintView { sleep_deadline: None, ..v },
                    EngineCall::Nothing,
                )
            }
            &&& later >= covered + OCCLUDE_SLEEP_DEBOUNCE ==> {
                &&& then == EngineCall::SleepAll
                &&& x.policy == PaintPolicy::Sleeping
                &&& reported(x, false, later) == (
                    PaintView { sleep_deadline: None, ..v },
                    EngineCall::WakeAll,
                )
            }
        }),
{
}

/// Law: the page layer of a frame fills the page rectangle exactly, and that
/// rectangle lies between the strips: it begins below the tab strip and the
/// notice, it is as wide as the window, and with the strips above and the
/// statusline below it makes up the window's height. Only where the strips leave
/// no row does it keep one of its own.
pub proof fn law_page_lies_between_the_strips(v: PaintView, i: PaintInput)
    requires
        planned(v, i).1.verdict is Frame,
    ensures
        ({
            let p = planned(v, i).1.verdict->0;
            let s = i.strips;
            let notice = if i.has_notice { s.notice as int } else { 0 };
            let (x, y, w, h) = p.page;
            &&& p.upload matches Some(u) ==> u.dst_rect == p.page
            &&& x == 0 && w == p.width && h >= 1
            &&& s.tab_strip + notice + s.statusline < p.height ==> {
                &&& y == s.tab_strip + notice
                &&& y + h + s.statusline == p.height
            }
            &&& s.tab_strip + notice + s.statusline >= p.height ==> h == 1 && y <= s.tab_strip
                + notice && y <= p.height
            &&& s.statusline < p.height ==> y + s.statusline <= p.height && (y == s.tab_strip
                + notice || y + s.statusline == p.height)
            &&& s.statusline >= p.height ==> y == 0
        }),
{
}

/// Law: what the painter of the strips is told agrees with the page: in logical
/// pixels too the page lies between the strips, and the tab strip begins below
/// the notice.
pub proof fn law_logical_page_lies_between_the_strips(v: PaintView, i: PaintInput)
    requires
        planned(v, i).1.verdict is Frame,
    ensures
        ({
            let p = planned(v, i).1.verdict->0;
            let s = i.logical_strips;
            let notice = if i.has_notice { s.notice as int } else { 0 };
            let (x, y, w, h) = p.logical_page;
            &&& p.logical == i.logical
            &&& x == 0 && w >= 1 && h >= 1 && (i.logical.0 > 0 ==> w == i.logical.0)
            &&& s.tab_strip + notice + s.statusline < i.logical.1 ==> {
                &&& y == s.tab_strip + notice
                &&& y + h + s.statusline == i.logical.1
                &&& p.tab_y + s.tab_strip == y
            }
            &&& p.tab_y <= i.logical.1 && (p.tab_y == notice || p.tab_y == i.logical.1
                && i.logical.1 < notice)
        }),
{
}

/// Law: a frame has the newest size that is known of the window, and never an
/// empty one.
pub proof fn law_frame_has_the_newest_size(v: PaintView, i: PaintInput)
    requires
        planned(v, i).1.verdict is Frame,
    ensures
        ({
            let p = planned(v, i).1.verdict->0;
            let size = if i.override_size is Some { i.override_size->0 } else { i.window->0 };
            &&& i.window is Some
            &&& p.width >= 1 && p.height >= 1
            &&& size.0 >= 1 ==> p.width == size.0
            &&& size.1 >= 1 ==> p.height == size.1
            &&& size.0 == 0 ==> p.width == 1
            &&& size.1 == 0 ==> p.height == 1
        }),
{
}

/// Law: page pixels are taken over exactly when the window can be painted and the
/// shared frame is complete, has the size the engine was asked for, is not
/// awaited anew and was not taken over before. What was taken over is remembered,
/// and nothing else is.
pub proof fn law_pixels_are_taken_over_once_and_whole(v: PaintView, i: PaintInput)
    ensures
        ({
            let (w, step) = planned(v, i);
            let whole = i.engine matches Some(e) && e.frame matches Some(f) && !f.needs_fresh
                && f.width == e.expected_w && f.height == e.expected_h && f.width > 0 && f.height > 0
                && f.pixels_len == f.width * f.height * 4 && f.generation != v.last_osr_generation;
            let can = !(step.verdict is Asleep) && !(step.verdict is NoWindow);
            &&& step.swap_pixels == (whole && can)
            &&& step.swap_pixels ==> w.last_osr_dims == Some(
                (i.engine->0.frame->0.width, i.engine->0.frame->0.height),
            )
            &&& !step.swap_pixels ==> w.last_osr_dims == v.last_osr_dims && w.watchdog == v.watchdog
            &&& w.last_osr_generation == v.last_osr_generation
            &&& w.chrome_generation == v.chrome_generation
            &&& w.last_painted_chrome_gen == v.last_painted_chrome_gen
            &&& w.surface_drifted == v.surface_drifted
            &&& w.repaint_retry_at == v.repaint_retry_at
            &&& w.loading_anim_next_wake == v.loading_anim_next_wake
            &&& w.probe_pending == v.probe_pending
            &&& w.sleep_deadline == v.sleep_deadline
            &&& w.media_active == v.media_active
        }),
{
}

/// Law: a paint of the awaited size ends the wait for it, any other paint leaves
/// the wait as it is.
pub proof fn law_awaited_paint_ends_the_wait(v: PaintView, i: PaintInput)
    requires
        planned(v, i).1.swap_pixels,
    ensures
        ({
            let (w, _) = planned(v, i);
            let f = i.engine->0.frame->0;
            match v.watchdog.pending {
                Some(p) => if p.0 == f.width && p.1 == f.height {
                    w.watchdog.pending is None
                } else {
                    w.watchdog.pending == Some(p)
                },
                None => w.watchdog.pending is None,
            }
        }),
{
}

/// Law: whether a paint reaches the renderer. Asleep, only for a probe or a wrong
/// size; without a window or a renderer, never; otherwise exactly when the strips
/// changed, page pixels came, or the animation runs or has to be wiped away.
pub proof fn law_something_new_is_painted(v: PaintView, i: PaintInput)
    requires
        i.stats is None,
    ensures
        ({
            let (w, step) = planned(v, i);
            let skip = v.policy == PaintPolicy::Sleeping && !v.surface_drifted && !i.probe_pending;
            &&& step.call == EngineCall::Nothing
            &&& step.verdict is Asleep == skip
            &&& step.verdict is NoWindow == (!skip && i.window is None)
            &&& step.verdict is NoRenderer == (!skip && i.window is Some && !i.has_renderer)
            &&& !skip && i.window is Some && i.has_renderer ==> {
                &&& v.chrome_generation != v.last_painted_chrome_gen ==> step.verdict is Frame
                &&& step.swap_pixels ==> step.verdict is Frame
                &&& v.loading_anim_active ==> step.verdict is Frame
                &&& w.last_osr_dims is None && !(i.engine matches Some(e) && e.native_compositing)
                    ==> step.verdict is Frame
                &&& step.verdict is Idle ==> !v.loading_anim_active && w == v
            }
        }),
{
}

/// Law: what the page area of a frame shows. The animation, exactly while the
/// frame's size was wrong, or no page pixels are at hand, or they are off by more
/// than 32 pixels, and never over an engine that draws for itself. Otherwise the
/// pixels that just came, with their own generation; otherwise those of before,
/// which are on the GPU already; otherwise nothing.
pub proof fn law_page_area_shows_the_newest_pixels(v: PaintView, i: PaintInput)
    requires
        planned(v, i).1.verdict is Frame,
    ensures
        ({
            let (w, step) = planned(v, i);
            let p = step.verdict->0;
            let native = i.engine matches Some(e) && e.native_compositing;
            let far = match w.last_osr_dims {
                Some(d) => !(-32 <= d.0 - p.page.2 <= 32 && -32 <= d.1 - p.page.3 <= 32),
                None => true,
            };
            &&& p.want_anim == (!native && (v.surface_drifted || far))
            &&& w.loading_anim_active == p.want_anim
            &&& p.want_anim ==> p.upload is None && p.path == PaintPath::Animation
            &&& !p.want_anim && step.swap_pixels ==> {
                let f = i.engine->0.frame->0;
                &&& p.path == PaintPath::FreshOsr
                &&& p.upload matches Some(u) && !u.skip_pixels && u.generation == f.generation
                    && u.width == f.width && u.height == f.height
                &&& p.generation == f.generation
            }
            &&& !p.want_anim && !step.swap_pixels ==> match v.last_osr_dims {
                Some(d) => {
                    &&& p.path == PaintPath::SyntheticScratch
                    &&& p.upload matches Some(u) && u.skip_pixels && u.width == d.0 && u.height == d.1
                        && u.generation == v.last_osr_generation
                },
                None => p.upload is None && p.path == PaintPath::DeadFallback,
            }
            &&& !(p.path is FreshOsr) ==> p.generation == v.last_osr_generation
        }),
{
}

/// Law: the strips are painted again exactly when they changed, or the animation
/// runs or has just stopped. The whole height goes out where the animation runs,
/// has just stopped, or something floats over the page; otherwise only the strips
/// do, and the page between them stays free.
pub proof fn law_strips_are_painted_when_they_changed(v: PaintView, i: PaintInput)
    requires
        planned(v, i).1.verdict is Frame,
    ensures
        ({
            let p = planned(v, i).1.verdict->0;
            let dirty = v.chrome_generation != v.last_painted_chrome_gen;
            let s = i.logical_strips;
            &&& p.repaint_chrome == (dirty || p.want_anim || v.loading_anim_active)
            &&& if p.want_anim || v.loading_anim_active || (dirty && i.floating) {
                p.top_band == i.logical.1 && p.bottom_band == 0
            } else {
                &&& s.tab_strip + s.notice <= u32::MAX ==> p.top_band == s.tab_strip + s.notice
                &&& p.bottom_band == s.statusline
            }
        }),
{
}

/// Law: after the renderer was called, the frame's generation is used up, the
/// next step of the animation is booked while it runs, a skipped frame is retried
/// after 8 milliseconds and no other is, and a window that has another size by
/// then is painted again.
pub proof fn law_finish_books_what_follows(
    v: PaintView,
    plan: FramePlan,
    outcome: Option<(u64, Submitted)>,
    live: Option<(u32, u32)>,
    now: u64,
    splash_period: u64,
)
    requires
        now + 2_000_000_000 <= u64::MAX,
        now + splash_period <= u64::MAX,
    ensures
        ({
            let (w, fin) = finished(v, plan, outcome, live, now, splash_period);
            let skipped = outcome matches Some(o) && o.1 == Submitted::No;
            &&& w.last_osr_generation == plan.generation
            &&& plan.want_anim ==> w.loading_anim_next_wake == Some((now + splash_period) as u64)
            &&& !plan.want_anim ==> w.loading_anim_next_wake is None
            &&& skipped ==> w.repaint_retry_at == Some((now + 8_000_000) as u64)
            &&& !skipped ==> w.repaint_retry_at is None
            &&& fin.redraw == w.surface_drifted
            &&& live matches Some(s) ==> fin.redraw == (s != (plan.width, plan.height))
            &&& live is None ==> !fin.redraw
            &&& fin.submitted == (outcome is Some && (outcome->0).1 == Submitted::Yes)
            &&& w.chrome_generation == v.chrome_generation
            &&& w.last_osr_dims == v.last_osr_dims
            &&& w.watchdog == v.watchdog
            &&& w.loading_anim_active == v.loading_anim_active
            &&& w.probe_pending == v.probe_pending
            &&& w.sleep_deadline == v.sleep_deadline
            &&& w.media_active == v.media_active
            &&& outcome is None ==> w.history == v.history && w.policy == v.policy && fin.call
                == EngineCall::Nothing && w.last_painted_chrome_gen == v.last_painted_chrome_gen
        }),
{
}

/// Law: a frame once submitted is not painted again: with nothing new, the next
/// paint is idle. So a paint that follows another shows only what is new.
pub proof fn law_submitted_frame_settles(
    v: PaintView,
    i: PaintInput,
    us: u64,
    now: u64,
    splash_period: u64,
)
    requires
        planned(v, i).1.verdict is Frame,
        !planned(v, i).1.verdict->0.want_anim,
        v.policy == PaintPolicy::Active,
        i.stats is None,
        us < 30_000,
        !(finished(
            planned(v, i).0,
            planned(v, i).1.verdict->0,
            Some((us, Submitted::Yes)),
            Some((planned(v, i).1.verdict->0.width, planned(v, i).1.verdict->0.height)),
            now,
            splash_period,
        ).0.policy is Sleeping),
    ensures
        ({
            let (v1, step) = planned(v, i);
            let p = step.verdict->0;
            let live = Some((p.width, p.height));
            let (v2, fin) = finished(v1, p, Some((us, Submitted::Yes)), live, now, splash_period);
            &&& fin.submitted && !fin.redraw
            &&& !(i.engine matches Some(e) && e.frame matches Some(f) && f.generation
                != p.generation) ==> planned(v2, i).1.verdict is Idle
        }),
{
}

/// Law: each present time is kept as the newest of at most five samples; asleep,
/// a fast one (below 30 ms) wakes the window and forgets the samples, any other
/// books the next probe two seconds ahead and keeps the engines paused.
pub proof fn law_probe_wakes_on_a_fast_present(v: PaintView, us: u64, now: u64)
    requires
        v.policy == PaintPolicy::Sleeping,
        paint_wf(v),
        now + 2_000_000_000 <= u64::MAX,
    ensures
        ({
            let (w, call) = observed(v, us, now);
            &&& us < 30_000 ==> {
                &&& w.policy == PaintPolicy::Active && !w.occluded
                &&& w.history.len() == 0 && w.next_probe_at is None
                &&& call == EngineCall::WakeAll
            }
            &&& us >= 30_000 ==> {
                &&& w.policy == PaintPolicy::Sleeping && w.occluded == v.occluded
                &&& w.history.len() >= 1 && w.history.last() == us
                &&& w.next_probe_at matches Some(t) && t == now + 2_000_000_000
                &&& call == EngineCall::SleepAll
            }
        }),
{
    paint_policy::law_history_keeps_the_newest(v.history, us);
}

/// Law: an awake window falls asleep on a present of more than half a second at
/// once, and by any other present only together with slow ones before it: a
/// present of at most 100 ms into a history with no slow ones never does it.
pub proof fn law_slow_presents_put_the_window_to_sleep(v: PaintView, us: u64, now: u64)
    requires
        v.policy == PaintPolicy::Active,
        !v.occluded,
        paint_wf(v),
        now + 2_000_000_000 <= u64::MAX,
    ensures
        ({
            let (w, call) = observed(v, us, now);
            &&& w.occluded == (w.policy == PaintPolicy::Sleeping)
            &&& call == if w.occluded { EngineCall::SleepAll } else { EngineCall::Nothing }
            &&& w.history.len() >= 1 && w.history.last() == us && w.history.len() <= 5
            &&& us > 500_000 ==> w.occluded
            &&& w.occluded ==> w.next_probe_at == Some((now + 2_000_000_000) as u64)
            &&& !w.occluded ==> w.next_probe_at == v.next_probe_at
            &&& us <= 500_000 && (forall|a: int|
                0 <= a < v.history.len() ==> #[trigger] v.history[a] <= 100_000) ==> !w.occluded
            &&& (exists|a: int, b: int, c: int|
                0 <= a < b < c < w.history.len() && #[trigger] w.history[a] > 100_000
                    && #[trigger] w.history[b] > 100_000 && #[trigger] w.history[c] > 100_000)
                ==> w.occluded
        }),
{
    paint_policy::law_history_keeps_the_newest(v.history, us);
    let h = paint_policy::newest(v.history.push(us), PRESENT_HISTORY_SIZE as int);
    assert(h.last() == us);
    assert forall|k: int| 0 <= k < h.len() - 1 implies v.history.contains(#[trigger] h[k]) by {
        let all = v.history.push(us);
        assert(h[k] == all[all.len() - h.len() + k]);
        assert(h[k] == v.history[all.len() - h.len() + k]);
    }
    if forall|a: int| 0 <= a < v.history.len() ==> #[trigger] v.history[a] <= 100_000 {
        assert forall|k: int| 0 <= k < h.drop_last().len() implies #[trigger] h.drop_last()[k]
            <= 100_000 by {
            assert(v.history.contains(h[k]));
        }
        paint_policy::lemma_no_slow_samples(h.drop_last(), 100_000);
    }
    if exists|a: int, b: int, c: int|
        0 <= a < b < c < h.len() && #[trigger] h[a] > 100_000 && #[trigger] h[b] > 100_000
            && #[trigger] h[c] > 100_000 {
        let (a, b, c) = choose|a: int, b: int, c: int|
            0 <= a < b < c < h.len() && #[trigger] h[a] > 100_000 && #[trigger] h[b] > 100_000
                && #[trigger] h[c] > 100_000;
        paint_policy::lemma_three_slow_samples(h, 100_000, a, b, c);
    }
}

/// Law: a change marks the chrome, so that the strips are painted with the next
/// frame, and touches nothing else.
pub proof fn law_marked_chrome_is_dirty(v: PaintView)
    ensures
        ({
            let w = dirtied(v);
            &&& w.chrome_generation != v.chrome_generation
            &&& v.chrome_generation == v.last_painted_chrome_gen ==> w.chrome_generation
                != w.last_painted_chrome_gen
            &&& w == (PaintView { chrome_generation: w.chrome_generation, ..v })
        }),
{
}

/// Law: the window sleeps exactly while it is covered, and the engines hear of
/// every change and of nothing else.
pub proof fn law_policy_follows_the_cover(v: PaintView)
    ensures
        ({
            let (w, call) = recomputed(v);
            &&& w.occluded == v.occluded
            &&& w.policy == PaintPolicy::Sleeping <==> v.occluded
            &&& call == EngineCall::SleepAll <==> (v.occluded && v.policy == PaintPolicy::Active)
            &&& call == EngineCall::WakeAll <==> (!v.occluded && v.policy
                == PaintPolicy::Sleeping)
            &&& w == (PaintView { policy: w.policy, ..v })
        }),
{
}

/// Law: after a tab switch nothing of the page shown before is used: until a frame
/// of another generation arrives the animation runs, unless the engine draws for
/// itself.
pub proof fn law_tab_switch_forgets_the_page(v: PaintView, current: Option<u64>, i: PaintInput)
    requires
        planned(switched(v, current), i).1.verdict is Frame,
        !planned(switched(v, current), i).1.swap_pixels,
    ensures
        ({
            let p = planned(switched(v, current), i).1.verdict->0;
            &&& p.upload is None
            &&& p.want_anim || (i.engine matches Some(e) && e.native_compositing)
            &&& current is Some ==> p.generation == current->0
            &&& switched(v, current).chrome_generation == v.chrome_generation
        }),
{
}

/// Law: the engines are resized to the page rectangle that frames are planned
/// with, so a frame of that size fills the page, and the paint of exactly that
/// size is awaited for half a second where an engine is active.
pub proof fn law_engines_get_the_size_of_the_page(
    v: PaintView,
    i: PaintInput,
    active: bool,
    now: u64,
)
    requires
        planned(v, i).1.verdict is Frame,
        i.override_size is None,
        now + 500_000_000 <= u64::MAX,
    ensures
        ({
            let p = planned(v, i).1.verdict->0;
            let size = engine_size(i.window, i.strips, i.has_notice);
            let w = awaiting(v, size, active, now);
            &&& size == Some((p.page.2, p.page.3))
            &&& engine_size(None, i.strips, i.has_notice) is None
            &&& active ==> w.watchdog.pending == Some(
                (p.page.2, p.page.3, (now + 500_000_000) as u64, 0u32),
            )
            &&& !active ==> w == v
            &&& awaiting(v, None, active, now) == v
        }),
{
}

/// Law: a submitted frame of an awake window gives its time as a sample, and
/// retires the strips that were dirty only if they were painted with it.
pub proof fn law_submitted_frame_is_sampled(
    v: PaintView,
    plan: FramePlan,
    us: u64,
    live: Option<(u32, u32)>,
    now: u64,
    splash_period: u64,
)
    requires
        v.policy == PaintPolicy::Active,
        paint_wf(v),
    ensures
        ({
            let (w, fin) = finished(
                v,
                plan,
                Some((us, Submitted::Yes)),
                live,
                now,
                splash_period,
            );
            &&& fin.submitted
            &&& w.history.len() > 0 && w.history.last() == us
            &&& us > 500_000 && !v.occluded ==> fin.call == EngineCall::SleepAll
            &&& w.last_painted_chrome_gen == if plan.repaint_chrome {
                v.chrome_generation
            } else {
                v.last_painted_chrome_gen
            }
        }),
{
    paint_policy::law_history_keeps_the_newest(v.history, us);
}

/// Law: the next probe of a sleeping window is booked two seconds after one that
/// brought no sample, once; nothing else is touched.
pub proof fn law_lost_probe_is_repeated(v: PaintView, probing: bool, submitted: bool, now: u64)
    requires
        now + 2_000_000_000 <= u64::MAX,
    ensures
        ({
            let w = settled(v, probing, submitted, now);
            &&& probing && !submitted && v.policy == PaintPolicy::Sleeping && v.next_probe_at is None
                ==> w.next_probe_at == Some((now + 2_000_000_000) as u64)
            &&& !probing || submitted || v.policy == PaintPolicy::Active || v.next_probe_at is Some
                ==> w.next_probe_at == v.next_probe_at
            &&& w == (PaintView { next_probe_at: w.next_probe_at, ..v })
        }),
{
}

/// Law: before the first frame the window is awake and in view, nothing is waited for, and
/// the strips are newer than anything painted.
pub proof fn law_first_frame_paints_the_chrome()
    ensures
        unpainted().chrome_generation != unpainted().last_painted_chrome_gen,
        unpainted().policy is Active,
        !unpainted().occluded,
        !unpainted().media_active,
        unpainted().sleep_deadline is None,
        unpainted().history.len() == 0,
        unpainted().next_probe_at is None,
        !unpainted().probe_pending,
        unpainted().repaint_retry_at is None,
        !unpainted().surface_drifted,
        unpainted().last_osr_generation == 0,
        unpainted().last_osr_dims is None,
        unpainted().watchdog.pending is None,
        !unpainted().loading_anim_active,
        unpainted().loading_anim_next_wake is None,
{
}

/// Law: the model of the paint state shows each part of it.
pub proof fn law_paint_state_is_seen_whole(x: PaintState)
    ensures
        x@.policy == x.policy,
        x@.occluded == x.occluded,
        x@.sleep_deadline == x.sleep_deadline,
        x@.media_active == x.media_active,
        x@.next_probe_at == x.next_probe_at,
        x@.probe_pending == x.probe_pending,
        x@.repaint_retry_at == x.repaint_retry_at,
        x@.surface_drifted == x.surface_drifted,
        x@.chrome_generation == x.chrome_generation,
        x@.last_painted_chrome_gen == x.last_painted_chrome_gen,
        x@.last_osr_generation == x.last_osr_generation,
        x@.last_osr_dims == x.last_osr_dims,
        x@.watchdog == x.watchdog,
        x@.loading_anim_active == x.loading_anim_active,
        x@.loading_anim_next_wake == x.loading_anim_next_wake,
        x@.history == x.history@,
{
}

/// Law: after a switch of tabs no pixels count as shown, and the next ones that are
/// taken over are those after the current frame of the new tab, or its very first.
pub proof fn law_tab_switch_starts_over(v: PaintView, current: Option<u64>)
    ensures
        switched(v, current).last_osr_dims is None,
        current is Some ==> switched(v, current).last_osr_generation == current->0,
        current is None ==> switched(v, current).last_osr_generation == 0,
        switched(v, current) == (PaintView {
            last_osr_dims: None,
            last_osr_generation: switched(v, current).last_osr_generation,
            ..v
        }),
{
}

/// Law: a window that is covered may sleep a fifth of a second later, as far as the
/// clock goes.
pub proof fn law_covered_window_sleeps_a_little_later(now: u64)
    ensures
        now + 200_000_000 <= u64::MAX ==> asleep_at(now) == now + 200_000_000,
        now + 200_000_000 > u64::MAX ==> asleep_at(now) == u64::MAX,
{
}

/// Law: of the times that presents took, the last five are kept, newest last, while
/// nothing wakes the window.
pub proof fn law_last_five_presents_are_kept(v: PaintView, us: u64, now: u64)
    requires
        v.history.len() <= 5,
    ensures
        ({
            let (w, _) = observed(v, us, now);
            let woken = v.policy is Sleeping && us < 30_000;
            &&& woken ==> w.history.len() == 0
            &&& !woken && v.history.len() < 5 ==> w.history =~= v.history.push(us)
            &&& !woken && v.history.len() == 5 ==> w.history =~= v.history.drop_first().push(us)
        }),
{
}

} // verus!
