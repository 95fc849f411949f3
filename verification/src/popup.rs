//! Popup windows: how one is painted, and where its events go.
use vstd::prelude::*;
use crate::frame::{FrameHeader, UploadPlan, SKIPPED_FRAME_RETRY_DELAY};
use crate::paint_policy;
use crate::paint_policy::{decide_frame_commit, is_osr_frame_fresh, max_u32, popup_cef_rect_pure};
use crate::render::Submitted;
use crate::swipe::{scroll_swipe_delta, SwipeAction, SwipeDetector};
use crate::windowing::event::WindowEvent;
use crate::windowing::keyboard;
use crate::windowing::keyboard::Modifiers;
use crate::windowing::pointer::{AxisDirection, AxisSource, PointerButtonState, ScrollEvent};

verus! {

/// A resize reaches the engine once the size has been the same for this long.
pub const CEF_RESIZE_DEBOUNCE: u64 = 150_000_000;

/// Presses of one button that come faster than this are one multiple click.
pub const DOUBLE_CLICK_WINDOW: u64 = 500_000_000;

/// A mouse button that the engine knows.
#[derive(Debug, Clone, Copy, PartialEq, Eq, Structural)]
pub enum MouseButton {
    Left,
    Middle,
    Right,
}

/// The flag of a button that is held.
pub open spec fn flag_of(b: MouseButton) -> u32 {
    match b {
        MouseButton::Left => 16,
        MouseButton::Middle => 32,
        MouseButton::Right => 64,
    }
}

/// The flag of a button that is held.
pub fn button_flag(b: MouseButton) -> (r: u32)
    ensures
        r == flag_of(b),
{
    match b {
        MouseButton::Left => 16,
        MouseButton::Middle => 32,
        MouseButton::Right => 64,
    }
}

/// A popup window.
#[derive(Debug, Clone, Copy)]
pub struct PopupWindow {
    /// The engine's number for it; negative if it has none.
    pub browser_id: i32,
    pub last_osr_generation: u64,
    /// The size of the last frame.
    pub last_osr_dims: Option<(u32, u32)>,
    pub chrome_generation: u64,
    pub last_painted_chrome_gen: u64,
    /// Where the pointer is, in physical pixels below the address bar.
    pub cursor: (i32, i32),
    /// The buttons that are held.
    pub mouse_buttons: u32,
    pub modifiers: Modifiers,
    pub last_click_at: u64,
    pub last_click_button: Option<MouseButton>,
    pub click_count: i32,
    /// The newest size, and when the engine is told.
    pub pending_cef_resize: Option<(u32, u32, u64)>,
    /// When a skipped frame is painted again.
    pub repaint_retry_at: Option<u64>,
}

/// One frame of a popup as the renderer is to paint it.
#[derive(Debug, Clone, Copy)]
pub struct PopupPlan {
    pub width: u32,
    pub height: u32,
    /// The address bar is painted and uploaded.
    pub chrome_dirty: bool,
    pub upload: Option<UploadPlan>,
    /// The generation consumed once the renderer has been called.
    pub generation: u64,
    /// The shared frame's pixels were taken over.
    pub swap_pixels: bool,
}

/// A moment later, or the last one.
pub open spec fn later(now: u64, by: u64) -> u64 {
    if now + by > u64::MAX { u64::MAX } else { (now + by) as u64 }
}

/// The next generation.
pub open spec fn next_generation(g: u64) -> u64 {
    if g == u64::MAX { 0 } else { (g + 1) as u64 }
}

/// Whether the shared frame holds pixels that have not been used.
pub open spec fn has_fresh(p: PopupWindow, frame: Option<FrameHeader>, expected: (u32, u32)) -> bool {
    match frame {
        Some(f) => paint_policy::frame_fresh(
            f.width,
            f.height,
            f.pixels_len,
            f.generation,
            p.last_osr_generation,
            expected.0,
            expected.1,
            f.needs_fresh,
        ),
        None => false,
    }
}

/// The page below the address bar of a popup.
pub open spec fn popup_rect(size: (u32, u32), bar_h: u32) -> (u32, u32, u32, u32) {
    (
        0,
        bar_h,
        paint_policy::greatest(size.0 as int, 1) as u32,
        paint_policy::greatest(size.1 - bar_h, 1) as u32,
    )
}

/// A size of at least one pixel each way.
pub open spec fn real_size(size: (u32, u32)) -> (u32, u32) {
    (
        paint_policy::greatest(size.0 as int, 1) as u32,
        paint_policy::greatest(size.1 as int, 1) as u32,
    )
}

/// The frame to paint: fresh pixels if there are any, else the last ones, which
/// the GPU has, else none.
pub open spec fn popup_plan(
    p: PopupWindow,
    size: (u32, u32),
    bar_h: u32,
    frame: Option<FrameHeader>,
    expected: (u32, u32),
) -> PopupPlan {
    let dims = real_size(size);
    let fresh = has_fresh(p, frame, expected);
    PopupPlan {
        width: dims.0,
        height: dims.1,
        chrome_dirty: p.chrome_generation != p.last_painted_chrome_gen,
        upload: if fresh {
            Some(
                UploadPlan {
                    width: frame->0.width,
                    height: frame->0.height,
                    generation: frame->0.generation,
                    dst_rect: popup_rect(dims, bar_h),
                    skip_pixels: false,
                },
            )
        } else {
            match p.last_osr_dims {
                Some((w, h)) => Some(
                    UploadPlan {
                        width: w,
                        height: h,
                        generation: p.last_osr_generation,
                        dst_rect: popup_rect(dims, bar_h),
                        skip_pixels: true,
                    },
                ),
                None => None,
            }
        },
        generation: if fresh { frame->0.generation } else { p.last_osr_generation },
        swap_pixels: fresh,
    }
}

/// The window once the frame has been looked at.
pub open spec fn popup_looked(
    p: PopupWindow,
    frame: Option<FrameHeader>,
    expected: (u32, u32),
) -> PopupWindow {
    if has_fresh(p, frame, expected) {
        PopupWindow { last_osr_dims: Some((frame->0.width, frame->0.height)), ..p }
    } else {
        p
    }
}

/// The window once the renderer has answered: only a submitted frame retires the
/// dirty address bar, only a skipped one is painted again.
pub open spec fn popup_finished(
    p: PopupWindow,
    plan: PopupPlan,
    outcome: Option<(u64, Submitted)>,
    now: u64,
) -> PopupWindow {
    let commit = paint_policy::frame_commit(outcome, plan.chrome_dirty);
    PopupWindow {
        last_osr_generation: plan.generation,
        last_painted_chrome_gen: if commit.advance_chrome_gen {
            p.chrome_generation
        } else {
            p.last_painted_chrome_gen
        },
        repaint_retry_at: if commit.retry_paint {
            Some(later(now, SKIPPED_FRAME_RETRY_DELAY))
        } else {
            None
        },
        ..p
    }
}

/// Where an event of a popup goes. Positions are physical pixels below the
/// address bar.
#[derive(Debug, Clone, Copy)]
pub enum PopupStep {
    Nothing,
    /// Take the window away; `close` tells the engine.
    Remove { close: bool },
    Paint,
    Focus(bool),
    /// The pointer moved; `buttons` are held.
    Move { x: i32, y: i32, buttons: u32 },
    Click {
        x: i32,
        y: i32,
        button: MouseButton,
        mouse_up: bool,
        click_count: i32,
        buttons: u32,
        /// Focus the popup before.
        focus: bool,
    },
    History(SwipeAction),
    Wheel { x: i32, y: i32 },
    /// The key goes to the page, as if into a text field.
    Keys,
}

/// What the handling of an event depends on besides the window.
#[derive(Debug, Clone, Copy)]
pub struct PopupEnv {
    pub has_engine: bool,
    pub now: u64,
    /// The height of the address bar in physical pixels.
    pub bar_h: i32,
    /// The button of a button event, if the engine knows it.
    pub button: Option<MouseButton>,
}

/// Whether the engine can be told about a window.
pub open spec fn reachable(p: PopupWindow, env: PopupEnv) -> bool {
    env.has_engine && p.browser_id >= 0
}

/// A step if the engine can be told, else nothing.
pub open spec fn told(p: PopupWindow, env: PopupEnv, step: PopupStep) -> PopupStep {
    if reachable(p, env) { step } else { PopupStep::Nothing }
}

/// The difference cut to what 32 bits hold.
pub open spec fn less(a: i32, b: i32) -> i32 {
    if a - b > i32::MAX {
        i32::MAX
    } else if a - b < i32::MIN {
        i32::MIN
    } else {
        (a - b) as i32
    }
}

/// The window after a button event.
pub open spec fn clicked(p: PopupWindow, b: MouseButton, up: bool, now: u64) -> PopupWindow {
    let flag = flag_of(b);
    if up {
        PopupWindow { mouse_buttons: p.mouse_buttons & !flag, ..p }
    } else {
        PopupWindow {
            mouse_buttons: p.mouse_buttons | flag,
            click_count: if p.last_click_button == Some(b) && now - p.last_click_at
                < DOUBLE_CLICK_WINDOW {
                if p.click_count + 1 < 3 { (p.click_count + 1) as i32 } else { 3 }
            } else {
                1
            },
            last_click_at: now,
            last_click_button: Some(b),
            ..p
        }
    }
}

/// Whether a scroll event comes from a touchpad.
pub open spec fn from_touchpad(ev: ScrollEvent) -> bool {
    ev.source == AxisSource::Finger || ev.source == AxisSource::Continuous
}

/// Whether fingers on a touchpad scroll: only those can swipe.
pub fn is_touchpad(ev: &ScrollEvent) -> (r: bool)
    ensures
        r == from_touchpad(*ev),
{
    ev.source == AxisSource::Finger || ev.source == AxisSource::Continuous
}

/// The swipe and the step after a scroll event: a swipe that navigates, or has
/// navigated, does not scroll.
pub open spec fn scrolled(p: PopupWindow, s: SwipeDetector, ev: ScrollEvent, env: PopupEnv) -> (
    SwipeDetector,
    PopupStep,
) {
    let wheel = told(p, env, PopupStep::Wheel { x: p.cursor.0, y: p.cursor.1 });
    if !from_touchpad(ev) {
        (s, wheel)
    } else {
        let (dx, dy) = match ev.axis {
            AxisDirection::Horizontal => (ev.delta, 0i64),
            AxisDirection::Vertical => (0i64, ev.delta),
        };
        let (t, action) = s.fed(dx, dy, env.now);
        match action {
            Some(a) => (t, told(p, env, PopupStep::History(a))),
            None => (t, if t.committed { PopupStep::Nothing } else { wheel }),
        }
    }
}

/// The window, the swipe and the step after an event.
pub open spec fn popup_event(p: PopupWindow, s: SwipeDetector, ev: WindowEvent, env: PopupEnv) -> (
    PopupWindow,
    SwipeDetector,
    PopupStep,
) {
    match ev {
        WindowEvent::CloseRequested => (p, s, PopupStep::Remove { close: reachable(p, env) }),
        WindowEvent::RedrawRequested => (p, s, PopupStep::Paint),
        WindowEvent::Resized(size) => (
            if p.browser_id >= 0 {
                PopupWindow {
                    pending_cef_resize: Some(
                        (
                            real_size((size.width, size.height)).0,
                            real_size((size.width, size.height)).1,
                            later(env.now, CEF_RESIZE_DEBOUNCE),
                        ),
                    ),
                    chrome_generation: next_generation(p.chrome_generation),
                    ..p
                }
            } else {
                p
            },
            s,
            PopupStep::Paint,
        ),
        WindowEvent::ModifiersChanged(m) => (
            PopupWindow { modifiers: m, ..p },
            s,
            PopupStep::Nothing,
        ),
        WindowEvent::Focused => (p, s, told(p, env, PopupStep::Focus(true))),
        WindowEvent::Unfocused => (p, s, told(p, env, PopupStep::Focus(false))),
        WindowEvent::PointerLeft => (
            p,
            s,
            told(p, env, PopupStep::Move { x: 0, y: 0, buttons: 0 }),
        ),
        WindowEvent::PointerMoved { position } => {
            let at = (position.0.x, less(position.0.y, env.bar_h));
            (
                PopupWindow { cursor: at, ..p },
                s,
                told(p, env, PopupStep::Move { x: at.0, y: at.1, buttons: p.mouse_buttons }),
            )
        },
        WindowEvent::PointerButton { state, modifiers, .. } => {
            let q = PopupWindow { modifiers, ..p };
            match env.button {
                None => (q, s, PopupStep::Nothing),
                Some(b) => {
                    let up = state != PointerButtonState::Pressed;
                    let c = clicked(q, b, up, env.now);
                    (
                        c,
                        s,
                        told(
                            p,
                            env,
                            PopupStep::Click {
                                x: p.cursor.0,
                                y: p.cursor.1,
                                button: b,
                                mouse_up: up,
                                click_count: c.click_count,
                                buttons: c.mouse_buttons,
                                focus: !up && p.cursor.1 >= 0,
                            },
                        ),
                    )
                },
            }
        },
        WindowEvent::Scroll(ev) => {
            let (t, step) = scrolled(p, s, ev, env);
            (p, t, step)
        },
        WindowEvent::Key(key) => (
            PopupWindow { modifiers: key.modifiers, ..p },
            s,
            told(p, env, PopupStep::Keys),
        ),
        _ => (p, s, PopupStep::Nothing),
    }
}

/// The difference cut to what 32 bits hold.
fn minus(a: i32, b: i32) -> (r: i32)
    ensures
        r == less(a, b),
{
    let d: i64 = a as i64 - b as i64;
    if d > i32::MAX as i64 {
        i32::MAX
    } else if d < i32::MIN as i64 {
        i32::MIN
    } else {
        d as i32
    }
}

/// Whether two buttons are the same.
fn same_button(a: Option<MouseButton>, b: MouseButton) -> (r: bool)
    ensures
        r == (a == Some(b)),
{
    match a {
        Some(x) => x == b,
        None => false,
    }
}

impl PopupWindow {
    /// The click count is one to three.
    pub open spec fn wf(self) -> bool {
        1 <= self.click_count <= 3
    }

    /// A new window.
    pub fn new(browser_id: i32, now: u64) -> (r: Self)
        ensures
            r.wf(),
            r.browser_id == browser_id,
            r.last_osr_generation == 0,
            r.last_osr_dims is None,
            r.chrome_generation == 1,
            r.last_painted_chrome_gen == 0,
            r.cursor == (0i32, 0i32),
            r.mouse_buttons == 0,
            r.modifiers == keyboard::modifiers(false, false, false, false),
            r.last_click_at == now,
            r.last_click_button is None,
            r.click_count == 1,
            r.pending_cef_resize is None,
            r.repaint_retry_at is None,
    {
        PopupWindow {
            browser_id,
            last_osr_generation: 0,
            last_osr_dims: None,
            chrome_generation: 1,
            last_painted_chrome_gen: 0,
            cursor: (0, 0),
            mouse_buttons: 0,
            modifiers: Modifiers::default(),
            last_click_at: now,
            last_click_button: None,
            click_count: 1,
            pending_cef_resize: None,
            repaint_retry_at: None,
        }
    }

    /// The first half of a paint: the frame to paint. `size` is the window's,
    /// `bar_h` the height of the address bar, both in physical pixels;
    /// `expected` is the size that the engine was asked for.
    pub fn plan(
        &mut self,
        size: (u32, u32),
        bar_h: u32,
        frame: Option<FrameHeader>,
        expected: (u32, u32),
    ) -> (plan: PopupPlan)
        ensures
            plan == popup_plan(*old(self), size, bar_h, frame, expected),
            *final(self) == popup_looked(*old(self), frame, expected),
    {
        let width: u32 = max_u32(size.0, 1);
        let height: u32 = max_u32(size.1, 1);
        let dst_rect = popup_cef_rect_pure(width, height, bar_h);
        let chrome_dirty = self.chrome_generation != self.last_painted_chrome_gen;
        if let Some(f) = frame {
            if is_osr_frame_fresh(
                f.width,
                f.height,
                f.pixels_len,
                f.generation,
                self.last_osr_generation,
                expected.0,
                expected.1,
                f.needs_fresh,
            ) {
                self.last_osr_dims = Some((f.width, f.height));
                let upload = UploadPlan {
                    width: f.width,
                    height: f.height,
                    generation: f.generation,
                    dst_rect,
                    skip_pixels: false,
                };
                return PopupPlan {
                    width,
                    height,
                    chrome_dirty,
                    upload: Some(upload),
                    generation: f.generation,
                    swap_pixels: true,
                };
            }
        }
        let generation: u64 = self.last_osr_generation;
        let upload = match self.last_osr_dims {
            Some((w, h)) => Some(
                UploadPlan { width: w, height: h, generation, dst_rect, skip_pixels: true },
            ),
            None => None,
        };
        PopupPlan { width, height, chrome_dirty, upload, generation, swap_pixels: false }
    }

    /// The second half of a paint: what the renderer's answer means.
    pub fn finish(&mut self, plan: &PopupPlan, outcome: Option<(u64, Submitted)>, now: u64)
        ensures
            *final(self) == popup_finished(*old(self), *plan, outcome, now),
    {
        self.last_osr_generation = plan.generation;
        let commit = decide_frame_commit(outcome, plan.chrome_dirty);
        if commit.advance_chrome_gen {
            self.last_painted_chrome_gen = self.chrome_generation;
        }
        self.repaint_retry_at = if commit.retry_paint {
            Some(now.saturating_add(SKIPPED_FRAME_RETRY_DELAY))
        } else {
            None
        };
    }

    /// Whether the engine can be told about the window.
    fn can_tell(&self, env: &PopupEnv) -> (r: bool)
        ensures
            r == reachable(*self, *env),
    {
        env.has_engine && self.browser_id >= 0
    }

    /// Take a button event in.
    fn click(&mut self, b: MouseButton, up: bool, now: u64)
        requires
            old(self).wf(),
        ensures
            *final(self) == clicked(*old(self), b, up, now),
            final(self).wf(),
    {
        let flag: u32 = button_flag(b);
        if up {
            self.mouse_buttons = self.mouse_buttons & !flag;
            return;
        }
        self.mouse_buttons = self.mouse_buttons | flag;
        let quick = now < self.last_click_at || now - self.last_click_at < DOUBLE_CLICK_WINDOW;
        if same_button(self.last_click_button, b) && quick {
            if self.click_count < 2 {
                self.click_count = self.click_count + 1;
            } else {
                self.click_count = 3;
            }
        } else {
            self.click_count = 1;
        }
        self.last_click_at = now;
        self.last_click_button = Some(b);
    }

    /// Take an event in: where it goes. `swipe` is shared with the main window.
    pub fn handle_popup_window_event(
        &mut self,
        swipe: &mut SwipeDetector,
        event: &WindowEvent,
        env: &PopupEnv,
    ) -> (step: PopupStep)
        requires
            old(self).wf(),
        ensures
            (*final(self), *final(swipe), step) == popup_event(
                *old(self),
                *old(swipe),
                *event,
                *env,
            ),
            final(self).wf(),
    {
        let tell = self.can_tell(env);
        match event {
            WindowEvent::CloseRequested => PopupStep::Remove { close: tell },
            WindowEvent::RedrawRequested => PopupStep::Paint,
            WindowEvent::Resized(size) => {
                if self.browser_id >= 0 {
                    self.pending_cef_resize = Some(
                        (
                            max_u32(size.width, 1),
                            max_u32(size.height, 1),
                            env.now.saturating_add(CEF_RESIZE_DEBOUNCE),
                        ),
                    );
                    self.chrome_generation = self.chrome_generation.wrapping_add(1);
                }
                PopupStep::Paint
            },
            WindowEvent::ModifiersChanged(m) => {
                self.modifiers = *m;
                PopupStep::Nothing
            },
            WindowEvent::Focused => {
                if tell {
                    PopupStep::Focus(true)
                } else {
                    PopupStep::Nothing
                }
            },
            WindowEvent::Unfocused => {
                if tell {
                    PopupStep::Focus(false)
                } else {
                    PopupStep::Nothing
                }
            },
            WindowEvent::PointerLeft => {
                if tell {
                    PopupStep::Move { x: 0, y: 0, buttons: 0 }
                } else {
                    PopupStep::Nothing
                }
            },
            WindowEvent::PointerMoved { position } => {
                let x: i32 = position.0.x;
                let y: i32 = minus(position.0.y, env.bar_h);
                self.cursor = (x, y);
                if tell {
                    PopupStep::Move { x, y, buttons: self.mouse_buttons }
                } else {
                    PopupStep::Nothing
                }
            },
            WindowEvent::PointerButton { state, modifiers, .. } => {
                self.modifiers = *modifiers;
                let button = match env.button {
                    Some(b) => b,
                    None => {
                        return PopupStep::Nothing;
                    },
                };
                let mouse_up = *state != PointerButtonState::Pressed;
                self.click(button, mouse_up, env.now);
                if !tell {
                    return PopupStep::Nothing;
                }
                PopupStep::Click {
                    x: self.cursor.0,
                    y: self.cursor.1,
                    button,
                    mouse_up,
                    click_count: self.click_count,
                    buttons: self.mouse_buttons,
                    focus: !mouse_up && self.cursor.1 >= 0,
                }
            },
            WindowEvent::Scroll(ev) => {
                if is_touchpad(ev) {
                    let (dx, dy) = scroll_swipe_delta(ev);
                    if let Some(action) = swipe.feed(dx, dy, env.now) {
                        if tell {
                            return PopupStep::History(action);
                        }
                        return PopupStep::Nothing;
                    }
                    if swipe.committed {
                        return PopupStep::Nothing;
                    }
                }
                if tell {
                    PopupStep::Wheel { x: self.cursor.0, y: self.cursor.1 }
                } else {
                    PopupStep::Nothing
                }
            },
            WindowEvent::Key(key) => {
                self.modifiers = key.modifiers;
                if tell {
                    PopupStep::Keys
                } else {
                    PopupStep::Nothing
                }
            },
            _ => PopupStep::Nothing,
        }
    }
}

/// Law: a skipped frame leaves the address bar dirty, so that a change of it is
/// not lost; a submitted one retires it.
pub proof fn law_popup_dirty_until_submitted(
    p: PopupWindow,
    size: (u32, u32),
    bar_h: u32,
    frame: Option<FrameHeader>,
    expected: (u32, u32),
    us: u64,
    now: u64,
)
    requires
        p.chrome_generation != p.last_painted_chrome_gen,
    ensures
        ({
            let plan = popup_plan(p, size, bar_h, frame, expected);
            let q = popup_looked(p, frame, expected);
            let skipped = popup_finished(q, plan, Some((us, Submitted::No)), now);
            let failed = popup_finished(q, plan, None, now);
            let done = popup_finished(q, plan, Some((us, Submitted::Yes)), now);
            &&& popup_plan(skipped, size, bar_h, None, expected).chrome_dirty
            &&& skipped.repaint_retry_at is Some
            &&& popup_plan(failed, size, bar_h, None, expected).chrome_dirty
            &&& !popup_plan(done, size, bar_h, None, expected).chrome_dirty
            &&& done.repaint_retry_at is None
        }),
{
}

/// Law: the pixels of a frame are taken over once: painting the same frame again
/// reuses what the GPU has.
pub proof fn law_popup_frame_is_taken_once(
    p: PopupWindow,
    size: (u32, u32),
    bar_h: u32,
    frame: FrameHeader,
    expected: (u32, u32),
    outcome: Option<(u64, Submitted)>,
    now: u64,
)
    requires
        has_fresh(p, Some(frame), expected),
    ensures
        ({
            let plan = popup_plan(p, size, bar_h, Some(frame), expected);
            let q = popup_finished(popup_looked(p, Some(frame), expected), plan, outcome, now);
            let again = popup_plan(q, size, bar_h, Some(frame), expected);
            &&& plan.swap_pixels && !again.swap_pixels
            &&& again.upload is Some
            &&& again.upload->0.skip_pixels
            &&& again.upload->0.generation == frame.generation
        }),
{
}

/// Law: a button that is pressed is held, one that is released is not, and the
/// other buttons stay as they are.
pub proof fn law_buttons_are_tracked(p: PopupWindow, b: MouseButton, other: MouseButton, now: u64)
    ensures
        clicked(p, b, false, now).mouse_buttons & flag_of(b) == flag_of(b),
        clicked(p, b, true, now).mouse_buttons & flag_of(b) == 0,
        other != b ==> {
            &&& clicked(p, b, false, now).mouse_buttons & flag_of(other) == p.mouse_buttons
                & flag_of(other)
            &&& clicked(p, b, true, now).mouse_buttons & flag_of(other) == p.mouse_buttons
                & flag_of(other)
        },
{
    let m = p.mouse_buttons;
    let f = flag_of(b);
    let g = flag_of(other);
    assert((m | f) & f == f) by (bit_vector);
    assert((m & !f) & f == 0) by (bit_vector);
    assert(f & g == 0 ==> (m | f) & g == m & g && (m & !f) & g == m & g) by (bit_vector);
    assert(16u32 & 32 == 0 && 16u32 & 64 == 0 && 32u32 & 64 == 0 && 32u32 & 16 == 0 && 64u32 & 16
        == 0 && 64u32 & 32 == 0) by (bit_vector);
}

/// Law: a swipe that has navigated does not scroll the page any more until it
/// ends.
pub proof fn law_committed_swipe_does_not_scroll(
    p: PopupWindow,
    s: SwipeDetector,
    ev: ScrollEvent,
    env: PopupEnv,
)
    requires
        from_touchpad(ev),
        s.committed,
        s.last_at is Some,
        env.now - s.last_at->0 <= crate::swipe::SWIPE_GAP,
    ensures
        !(scrolled(p, s, ev, env).1 is Wheel),
{
}

/// Law: a redraw request paints the popup, whatever its state, and changes
/// neither the window nor the swipe.
pub proof fn law_redraw_paints(p: PopupWindow, s: SwipeDetector, env: PopupEnv)
    ensures
        ({
            let (q, t, step) = popup_event(p, s, WindowEvent::RedrawRequested, env);
            q == p && t == s && step is Paint
        }),
{
}

/// Law: a close request takes the popup away in any case, and the engine closes
/// its page exactly where there is an engine and it knows the popup.
pub proof fn law_close_request_removes(p: PopupWindow, s: SwipeDetector, env: PopupEnv)
    ensures
        ({
            let (q, t, step) = popup_event(p, s, WindowEvent::CloseRequested, env);
            &&& q == p && t == s
            &&& step == (PopupStep::Remove { close: env.has_engine && p.browser_id >= 0 })
        }),
{
}

/// Law: a resize is painted at once, with a fresh address bar, and the engine is
/// told of the newest size, never an empty one, 150 milliseconds after it; a popup
/// that the engine does not know is only painted.
pub proof fn law_resize_is_painted_and_told_later(
    p: PopupWindow,
    s: SwipeDetector,
    size: crate::windowing::geometry::Size,
    env: PopupEnv,
)
    requires
        env.now + 150_000_000 <= u64::MAX,
    ensures
        ({
            let (q, t, step) = popup_event(p, s, WindowEvent::Resized(size), env);
            &&& step is Paint
            &&& t == s
            &&& p.browser_id < 0 ==> q == p
            &&& p.browser_id >= 0 ==> {
                let r = q.pending_cef_resize->0;
                &&& q.pending_cef_resize is Some
                &&& r.2 == env.now + 150_000_000
                &&& r.0 >= 1 && r.1 >= 1
                &&& size.width >= 1 ==> r.0 == size.width
                &&& size.height >= 1 ==> r.1 == size.height
                &&& size.width == 0 ==> r.0 == 1
                &&& size.height == 0 ==> r.1 == 1
                &&& q.chrome_generation != p.chrome_generation
                &&& q == (PopupWindow {
                    pending_cef_resize: q.pending_cef_resize,
                    chrome_generation: q.chrome_generation,
                    ..p
                })
            }
        }),
{
}

/// Law: focus and its loss are passed on as they are, the pointer that leaves is
/// at the origin with no button held, and none of them changes the window.
pub proof fn law_focus_and_leaving_are_passed_on(p: PopupWindow, s: SwipeDetector, env: PopupEnv)
    ensures
        ({
            let known = env.has_engine && p.browser_id >= 0;
            let (q1, t1, gained) = popup_event(p, s, WindowEvent::Focused, env);
            let (q2, t2, lost) = popup_event(p, s, WindowEvent::Unfocused, env);
            let (q3, t3, left) = popup_event(p, s, WindowEvent::PointerLeft, env);
            &&& q1 == p && q2 == p && q3 == p
            &&& t1 == s && t2 == s && t3 == s
            &&& known ==> gained == PopupStep::Focus(true) && lost == PopupStep::Focus(false)
                && left == (PopupStep::Move { x: 0, y: 0, buttons: 0 })
            &&& !known ==> gained is Nothing && lost is Nothing && left is Nothing
        }),
{
}

/// Law: without an engine, or with one that does not know the popup, no event
/// asks the engine for anything.
pub proof fn law_unknown_popup_asks_nothing_of_the_engine(
    p: PopupWindow,
    s: SwipeDetector,
    ev: WindowEvent,
    env: PopupEnv,
)
    requires
        !env.has_engine || p.browser_id < 0,
    ensures
        ({
            let step = popup_event(p, s, ev, env).2;
            step is Nothing || step is Paint || step == (PopupStep::Remove { close: false })
        }),
{
}

/// Law: the popup remembers where the pointer is, counted from below its address
/// bar, and the page hears of that place with the buttons that are held.
pub proof fn law_pointer_is_counted_from_below_the_bar(
    p: PopupWindow,
    s: SwipeDetector,
    position: crate::windowing::pointer::PointerPosition,
    env: PopupEnv,
)
    requires
        i32::MIN <= position.0.y - env.bar_h <= i32::MAX,
    ensures
        ({
            let (q, t, step) = popup_event(p, s, WindowEvent::PointerMoved { position }, env);
            &&& t == s
            &&& q.cursor.0 == position.0.x
            &&& q.cursor.1 + env.bar_h == position.0.y
            &&& q == (PopupWindow { cursor: q.cursor, ..p })
            &&& env.has_engine && p.browser_id >= 0 ==> step == (PopupStep::Move {
                x: q.cursor.0,
                y: q.cursor.1,
                buttons: p.mouse_buttons,
            })
        }),
{
}

/// Law: a press or a release reaches the page where the pointer is, with the
/// button itself, the buttons then held and the number of the click; a press on
/// the page, and nothing else, focuses the popup first. The modifiers are those of
/// the event.
pub proof fn law_click_goes_where_the_pointer_is(
    p: PopupWindow,
    s: SwipeDetector,
    ev: WindowEvent,
    env: PopupEnv,
)
    requires
        ev is PointerButton,
    ensures
        ({
            let (q, t, step) = popup_event(p, s, ev, env);
            let pressed = ev->PointerButton_state == PointerButtonState::Pressed;
            &&& t == s
            &&& q.cursor == p.cursor
            &&& q.modifiers == ev->PointerButton_modifiers
            &&& q.browser_id == p.browser_id && q.pending_cef_resize == p.pending_cef_resize
                && q.chrome_generation == p.chrome_generation
            &&& env.button is None ==> step is Nothing && q == (PopupWindow {
                modifiers: q.modifiers,
                ..p
            })
            &&& env.button is Some && env.has_engine && p.browser_id >= 0 ==> step == (
            PopupStep::Click {
                x: p.cursor.0,
                y: p.cursor.1,
                button: env.button->0,
                mouse_up: !pressed,
                click_count: q.click_count,
                buttons: q.mouse_buttons,
                focus: pressed && p.cursor.1 >= 0,
            })
        }),
{
}

/// Law: presses of one button within half a second count up to three, any other
/// press begins a new count, and a release leaves the count as it is.
pub proof fn law_quick_presses_are_counted(p: PopupWindow, b: MouseButton, now: u64)
    requires
        p.wf(),
        p.last_click_at <= now,
    ensures
        ({
            let down = clicked(p, b, false, now);
            let up = clicked(p, b, true, now);
            let quick = p.last_click_button == Some(b) && now < p.last_click_at + 500_000_000;
            &&& quick && p.click_count < 3 ==> down.click_count == p.click_count + 1
            &&& quick && p.click_count == 3 ==> down.click_count == 3
            &&& !quick ==> down.click_count == 1
            &&& down.last_click_at == now && down.last_click_button == Some(b)
            &&& up.click_count == p.click_count && up.last_click_at == p.last_click_at
                && up.last_click_button == p.last_click_button
            &&& down.cursor == p.cursor && up.cursor == p.cursor
        }),
{
}

/// Law: the flags of the buttons are the engine's: bit four for the left one, bit
/// five for the middle one, bit six for the right one.
pub proof fn law_button_flags_are_the_engines(b: MouseButton)
    ensures
        b is Left ==> flag_of(b) == 1u32 << 4,
        b is Middle ==> flag_of(b) == 1u32 << 5,
        b is Right ==> flag_of(b) == 1u32 << 6,
{
    assert(1u32 << 4 == 16 && 1u32 << 5 == 32 && 1u32 << 6 == 64) by (bit_vector);
}

/// Law: a wheel scrolls the page where the pointer is and never swipes. A touchpad
/// scrolls too until its swipe navigates; then the page goes back or forward once,
/// and the rest of that swipe does nothing.
pub proof fn law_wheel_scrolls_and_touchpad_swipes(
    p: PopupWindow,
    s: SwipeDetector,
    ev: ScrollEvent,
    env: PopupEnv,
)
    requires
        env.has_engine,
        p.browser_id >= 0,
    ensures
        ({
            let (q, t, step) = popup_event(p, s, WindowEvent::Scroll(ev), env);
            let wheel = PopupStep::Wheel { x: p.cursor.0, y: p.cursor.1 };
            let fingers = ev.source == AxisSource::Finger || ev.source == AxisSource::Continuous;
            let sideways = ev.axis == AxisDirection::Horizontal;
            let (fed, action) = s.fed(
                if sideways { ev.delta } else { 0 },
                if sideways { 0 } else { ev.delta },
                env.now,
            );
            &&& q == p
            &&& !fingers ==> t == s && step == wheel
            &&& fingers ==> t == fed && match action {
                Some(a) => step == PopupStep::History(a),
                None => if fed.committed { step is Nothing } else { step == wheel },
            }
        }),
{
}

/// Law: every key goes to the page, with the modifiers it came with, and a change
/// of the modifiers alone is only remembered.
pub proof fn law_keys_go_to_the_page(
    p: PopupWindow,
    s: SwipeDetector,
    key: keyboard::KeyEvent,
    m: Modifiers,
    env: PopupEnv,
)
    ensures
        ({
            let (q, t, step) = popup_event(p, s, WindowEvent::Key(key), env);
            let (q2, t2, step2) = popup_event(p, s, WindowEvent::ModifiersChanged(m), env);
            &&& t == s && t2 == s
            &&& q == (PopupWindow { modifiers: key.modifiers, ..p })
            &&& env.has_engine && p.browser_id >= 0 ==> step is Keys
            &&& q2 == (PopupWindow { modifiers: m, ..p }) && step2 is Nothing
        }),
{
}

/// Law: the page of a popup lies right below its address bar, is as wide as the
/// window and reaches its lower edge; only a window that the bar fills leaves it
/// one row. Every page layer fills it.
pub proof fn law_popup_page_lies_below_the_bar(
    p: PopupWindow,
    size: (u32, u32),
    bar_h: u32,
    frame: Option<FrameHeader>,
    expected: (u32, u32),
)
    ensures
        ({
            let plan = popup_plan(p, size, bar_h, frame, expected);
            &&& plan.width >= 1 && plan.height >= 1
            &&& size.0 >= 1 ==> plan.width == size.0
            &&& size.1 >= 1 ==> plan.height == size.1
            &&& size.0 == 0 ==> plan.width == 1
            &&& size.1 == 0 ==> plan.height == 1
            &&& plan.upload matches Some(u) ==> {
                let (x, y, w, h) = u.dst_rect;
                &&& x == 0 && y == bar_h && w == plan.width
                &&& bar_h < plan.height ==> y + h == plan.height
                &&& bar_h >= plan.height ==> h == 1
            }
        }),
{
}

/// Law: a popup shows the newest pixels. A frame that is whole, of the size asked
/// for, and not yet taken over is uploaded under its own size and generation and
/// remembered; otherwise the last one is shown again from the GPU, and before the
/// first one nothing is.
pub proof fn law_popup_shows_the_newest_pixels(
    p: PopupWindow,
    size: (u32, u32),
    bar_h: u32,
    frame: Option<FrameHeader>,
    expected: (u32, u32),
)
    ensures
        ({
            let plan = popup_plan(p, size, bar_h, frame, expected);
            let q = popup_looked(p, frame, expected);
            let whole = frame matches Some(f) && !f.needs_fresh && (f.width, f.height) == expected
                && f.width > 0 && f.height > 0 && f.pixels_len == f.width * f.height * 4
                && f.generation != p.last_osr_generation;
            &&& plan.swap_pixels == whole
            &&& plan.chrome_dirty == (p.chrome_generation != p.last_painted_chrome_gen)
            &&& whole ==> {
                let f = frame->0;
                let u = plan.upload->0;
                &&& plan.upload is Some
                &&& !u.skip_pixels && u.width == f.width && u.height == f.height
                &&& u.generation == f.generation && plan.generation == f.generation
                &&& q == (PopupWindow { last_osr_dims: Some((f.width, f.height)), ..p })
            }
            &&& !whole ==> {
                &&& q == p
                &&& plan.generation == p.last_osr_generation
                &&& plan.upload is Some == p.last_osr_dims is Some
                &&& plan.upload matches Some(u) ==> u.skip_pixels && Some((u.width, u.height))
                    == p.last_osr_dims && u.generation == p.last_osr_generation
            }
        }),
{
}

/// Law: after the renderer was called the frame is used up; a skipped one, and no
/// other, is painted again after 8 milliseconds; the rest of the window stays.
pub proof fn law_popup_finish_books_what_follows(
    p: PopupWindow,
    plan: PopupPlan,
    outcome: Option<(u64, Submitted)>,
    now: u64,
)
    requires
        now + 8_000_000 <= u64::MAX,
    ensures
        ({
            let q = popup_finished(p, plan, outcome, now);
            let done = outcome is Some && (outcome->0).1 == Submitted::Yes;
            let skipped = outcome is Some && (outcome->0).1 == Submitted::No;
            &&& q.last_osr_generation == plan.generation
            &&& skipped ==> q.repaint_retry_at == Some((now + 8_000_000) as u64)
            &&& !skipped ==> q.repaint_retry_at is None
            &&& q.last_painted_chrome_gen == if done && plan.chrome_dirty {
                p.chrome_generation
            } else {
                p.last_painted_chrome_gen
            }
            &&& q == (PopupWindow {
                last_osr_generation: q.last_osr_generation,
                repaint_retry_at: q.repaint_retry_at,
                last_painted_chrome_gen: q.last_painted_chrome_gen,
                ..p
            })
        }),
{
}

/// Law: what a popup has no use for leaves it alone.
pub proof fn law_other_events_do_nothing(
    p: PopupWindow,
    s: SwipeDetector,
    ev: WindowEvent,
    env: PopupEnv,
)
    requires
        ev is Occluded || ev is Ime || ev is ScaleFactorChanged || ev is PointerEntered,
    ensures
        ({
            let (q, t, step) = popup_event(p, s, ev, env);
            q == p && t == s && step is Nothing
        }),
{
}

/// Law: a time that lies later lies later by just that much, as far as the clock goes.
pub proof fn law_later_is_later_by_as_much(now: u64, by: u64)
    ensures
        now + by <= u64::MAX ==> later(now, by) == now + by,
        now + by > u64::MAX ==> later(now, by) == u64::MAX,
{
}

} // verus!
