//! The state of the browser window, put together from its parts. Whatever
//! changes what the chrome shows marks the chrome, and whatever changes the list
//! of tabs marks the session.
use vstd::prelude::*;
use vstd::string::*;
use crate::commands;
use crate::commands::{ActionInput, ActionStep, PageAction};
use crate::edit_focus;
use crate::edit_focus::EditState;
use crate::favicons::{Favicons, TabFavicon};
use crate::frame;
use crate::frame::PaintState;
use crate::keys::PromptOutcome;
use crate::overlay;
use crate::overlay::{CloseStep, FindStep, OpenStep, Overlay, OverlayKind};
use crate::paint_policy::ResizeDebounce;
use crate::prompts;
use crate::prompts::{PendingPermission, Prompts, ResolveStep};
use crate::restore;
use crate::restore::SessionSaver;
use crate::swipe::SwipeDetector;
use crate::tabs;
use crate::tabs::{
    CloseConfirm, CloseTabStep, EngineMark, PageMode, PinnedCloseStep, SplashPush, TabStrip,
    TabSummary, TitleState, TitleStep,
};
use crate::windowing::keyboard;
use crate::windowing::keyboard::Modifiers;

verus! {

/// The engine that is active at first.
pub open spec fn first_engine() -> Seq<char> {
    "cef"@
}

/// The state of the browser window.
pub struct AppState {
    pub homepage: String,
    pub new_tab_url: String,
    /// The engine that shows the pages.
    pub active_engine: String,
    pub title: TitleState,
    pub strip: TabStrip,
    pub icons: Favicons,
    pub overlay: Overlay,
    pub edit: EditState,
    pub prompts: Prompts,
    pub confirm: CloseConfirm,
    pub paint: PaintState,
    pub saver: SessionSaver,
    pub resize: ResizeDebounce,
    pub swipe: SwipeDetector,
    pub splash: SplashPush,
    pub modifiers: Modifiers,
    /// Where the pointer is.
    pub cursor: (i32, i32),
    pub mouse_buttons: u32,
    pub click_count: i32,
    pub window_focused: bool,
}

/// The contents of an [`AppState`].
pub struct AppView {
    pub homepage: Seq<char>,
    pub new_tab_url: Seq<char>,
    pub active_engine: Seq<char>,
    pub title: tabs::TitleView,
    pub overlay: overlay::OverlayView,
    pub edit: edit_focus::EditView,
    pub prompt: Option<prompts::PromptView>,
    pub confirm: Option<u64>,
    pub paint: frame::PaintView,
    pub saver: restore::SaverView,
    pub strip: Seq<tabs::ShownTab>,
    pub strip_active: Option<usize>,
    pub strip_ids: Seq<u64>,
    pub icons: Map<i32, TabFavicon>,
    pub icons_shown: bool,
    pub icons_cached: bool,
    pub icons_prefill: Map<i32, String>,
    pub icons_checked: Map<i32, String>,
    pub resize: Option<(u32, u32, u64)>,
    pub swipe: SwipeDetector,
    pub splash: SplashPush,
    pub modifiers: Modifiers,
    pub cursor: (i32, i32),
    pub mouse_buttons: u32,
    pub click_count: i32,
    pub window_focused: bool,
}

impl View for AppState {
    type V = AppView;

    open spec fn view(&self) -> AppView {
        AppView {
            homepage: self.homepage@,
            new_tab_url: self.new_tab_url@,
            active_engine: self.active_engine@,
            title: self.title@,
            overlay: self.overlay@,
            edit: self.edit@,
            prompt: self.prompts@,
            confirm: self.confirm.pending,
            paint: self.paint@,
            saver: self.saver@,
            strip: tabs::strip_view(self.strip.tabs@),
            strip_active: self.strip.active,
            strip_ids: self.strip.ids@,
            icons: self.icons.icons@,
            icons_shown: self.icons.show,
            icons_cached: self.icons.has_cache,
            icons_prefill: self.icons.prefill@,
            icons_checked: self.icons.checked@,
            resize: self.resize.pending,
            swipe: self.swipe,
            splash: self.splash,
            modifiers: self.modifiers,
            cursor: self.cursor,
            mouse_buttons: self.mouse_buttons,
            click_count: self.click_count,
            window_focused: self.window_focused,
        }
    }
}

/// The chrome marked if something it shows changed.
pub open spec fn marked(v: frame::PaintView, changed: bool) -> frame::PaintView {
    if changed { frame::dirtied(v) } else { v }
}

/// The session after a change at `now`, if there was one.
pub open spec fn unsaved(v: restore::SaverView, changed: bool, now: u64) -> restore::SaverView {
    if changed { restore::changed_at(v, now) } else { v }
}

/// The window after a bar of a kind opened.
pub open spec fn bar_opened(v: AppView, kind: OverlayKind, now: u64) -> (AppView, OpenStep) {
    let (bar, step) = overlay::opened(v.overlay, kind, now);
    (AppView { overlay: bar, paint: frame::dirtied(v.paint), ..v }, step)
}

/// The window after a tab beside the active one opened, or could not be.
pub open spec fn tab_added(v: AppView, tab: Option<u64>, now: u64) -> AppView {
    match tab {
        Some(tab) => AppView {
            overlay: overlay::opened(
                overlay::OverlayView { cancel_closes_tab: Some(tab), ..v.overlay },
                OverlayKind::Omnibar,
                now,
            ).0,
            paint: frame::dirtied(v.paint),
            ..v
        },
        None => v,
    }
}

/// The window after its bar was cancelled.
pub open spec fn bar_cancelled(v: AppView, tab_count: Option<usize>, now: u64) -> (
    AppView,
    Option<CloseStep>,
) {
    let (bar, step) = overlay::cancelled(v.overlay, tab_count);
    (
        AppView {
            overlay: bar,
            paint: marked(v.paint, step is Some),
            saver: unsaved(v.saver, step matches Some(s) && s.close_tab is Some, now),
            ..v
        },
        step,
    )
}

/// The window after time passed while `value` is in its bar.
pub open spec fn live_find_run(v: AppView, now: u64, value: Seq<char>, has_engine: bool) -> (
    AppView,
    overlay::FindStepView,
) {
    let (bar, step) = overlay::live_find(v.overlay, now, value, has_engine);
    (AppView { overlay: bar, paint: marked(v.paint, !(step is Nothing)), ..v }, step)
}

/// The window that shows a mode and a count.
pub open spec fn title_shown(v: AppView, mode: PageMode, count: Option<u32>) -> (
    AppView,
    TitleStep,
) {
    let (title, step) = tabs::retitled(v.title, mode, count);
    (AppView { title, paint: marked(v.paint, step.repaint), ..v }, step)
}

/// The window that shows the tabs of the engine.
pub open spec fn strip_shown(
    v: AppView,
    list: Seq<tabs::SummaryView>,
    active: Option<usize>,
    mark: EngineMark,
    hovered: Option<usize>,
) -> (AppView, bool) {
    let icons = v.icons.restrict(tabs::live_browsers(list));
    let strip = tabs::shown_tabs(list, icons, mark, hovered);
    let changed = strip != v.strip || active != v.strip_active;
    (
        AppView {
            icons,
            strip,
            strip_active: active,
            strip_ids: tabs::tab_numbers(list),
            paint: marked(v.paint, changed),
            ..v
        },
        changed,
    )
}

/// The window that shows the front of the permission queue.
pub open spec fn prompt_synced(v: AppView, queue: Option<Seq<prompts::PendingView>>) -> (
    AppView,
    bool,
) {
    let (prompt, changed) = prompts::synced(v.prompt, queue);
    (
        AppView {
            prompt,
            paint: marked(marked(v.paint, changed && v.prompt is Some), changed && prompt is Some),
            ..v
        },
        changed,
    )
}

/// The window after an answer to its permission prompt, the queue that is left,
/// and what the answer leads to.
pub open spec fn prompt_answered(
    v: AppView,
    queue: Seq<prompts::PendingView>,
    outcome: PromptOutcome,
) -> (AppView, Seq<prompts::PendingView>, prompts::ResolveView) {
    let (prompt, left, step) = prompts::answered(v.prompt, queue, outcome);
    (
        AppView {
            prompt,
            paint: frame::dirtied(
                marked(marked(v.paint, step is Stale && v.prompt is Some), prompt is Some),
            ),
            ..v
        },
        left,
        step,
    )
}

/// The window after its active tab was to be closed.
pub open spec fn close_asked(v: AppView, has_engine: bool, active: Option<(u64, bool)>) -> (
    AppView,
    CloseTabStep,
) {
    let (pending, step) = tabs::close_step(v.confirm, has_engine, active);
    (
        AppView { confirm: pending, paint: marked(v.paint, step == CloseTabStep::Ask), ..v },
        step,
    )
}

/// The window after an answer to the question about a pinned tab.
pub open spec fn close_answered(v: AppView, confirm: bool, has_engine: bool, now: u64) -> (
    AppView,
    PinnedCloseStep,
) {
    let (pending, step) = tabs::close_answer(v.confirm, confirm);
    (
        AppView {
            confirm: pending,
            paint: marked(v.paint, !(step is Nothing)),
            saver: unsaved(v.saver, step is Close && has_engine, now),
            ..v
        },
        step,
    )
}

/// The window after an action.
pub open spec fn acted(v: AppView, action: PageAction, input: ActionInput<'_>, now: u64) -> (
    AppView,
    commands::ActionView,
) {
    let step = commands::action_step(action, input, v.edit.last_focused_field);
    (
        AppView {
            edit: commands::edit_after(action, input.has_engine, v.edit, now),
            saver: unsaved(v.saver, step is TogglePin, now),
            ..v
        },
        step,
    )
}

/// The window after a page was opened in another engine, or could not be.
pub open spec fn engine_switched(v: AppView, target: Seq<char>, opened: bool, now: u64) -> AppView {
    if opened {
        AppView {
            active_engine: target,
            paint: frame::dirtied(v.paint),
            saver: unsaved(v.saver, true, now),
            ..v
        }
    } else {
        v
    }
}

/// Whether the chrome has to be painted.
pub open spec fn chrome_due(v: AppView) -> bool {
    v.paint.chrome_generation != v.paint.last_painted_chrome_gen
}

impl AppState {
    /// The parts are valid.
    pub open spec fn wf(self) -> bool {
        &&& self.icons.wf()
        &&& self.saver.wf()
        &&& frame::paint_wf(self.paint@)
    }

    /// A window before anything has happened in it.
    pub fn new(
        homepage: String,
        new_tab_url: String,
        private: bool,
        pending_find: Option<String>,
        show_favicons: bool,
        has_favicon_cache: bool,
    ) -> (r: Self)
        ensures
            r.wf(),
            r@ == (AppView {
                homepage: homepage@,
                new_tab_url: new_tab_url@,
                active_engine: first_engine(),
                title: tabs::untitled(private, homepage@),
                overlay: overlay::no_bar(
                    match pending_find {
                        Some(p) => Some(p@),
                        None => None,
                    },
                    None,
                ),
                edit: edit_focus::untouched(),
                prompt: None,
                confirm: None,
                paint: frame::unpainted(),
                saver: restore::nothing_saved(),
                strip: Seq::empty(),
                strip_active: None,
                strip_ids: Seq::empty(),
                icons: Map::empty(),
                icons_shown: show_favicons,
                icons_cached: has_favicon_cache,
                icons_prefill: Map::empty(),
                icons_checked: Map::empty(),
                resize: None,
                swipe: SwipeDetector { accum_x: 0, accum_y: 0, last_at: None, committed: false },
                splash: SplashPush { last_tick: None, next_push: None },
                modifiers: keyboard::modifiers(false, false, false, false),
                cursor: (0i32, 0i32),
                mouse_buttons: 0,
                click_count: 1,
                window_focused: false,
            }),
    {
        let shown = homepage.clone();
        let r = AppState {
            homepage,
            new_tab_url,
            active_engine: "cef".to_string(),
            title: TitleState::new(private, shown),
            strip: TabStrip::new(),
            icons: Favicons::new(show_favicons, has_favicon_cache),
            overlay: Overlay::new(pending_find, None),
            edit: EditState::new(),
            prompts: Prompts::new(),
            confirm: CloseConfirm::new(),
            paint: PaintState::new(),
            saver: SessionSaver::new(),
            resize: ResizeDebounce::default(),
            swipe: SwipeDetector::default(),
            splash: SplashPush::new(),
            modifiers: Modifiers::default(),
            cursor: (0, 0),
            mouse_buttons: 0,
            click_count: 1,
            window_focused: false,
        };
        proof {
            assert(tabs::strip_view(r.strip.tabs@) =~= Seq::empty());
            assert(r.strip.ids@ =~= Seq::empty());
        }
        r
    }

    /// What the chrome shows changed, or did not.
    fn mark_if(&mut self, changed: bool)
        ensures
            final(self)@ == (AppView { paint: marked(old(self)@.paint, changed), ..old(self)@ }),
            old(self).wf() ==> final(self).wf(),
    {
        if changed {
            self.paint.mark_chrome_dirty();
        }
    }

    /// The list of tabs changed, or did not.
    fn mark_session_if(&mut self, changed: bool, now: u64)
        ensures
            final(self)@ == (AppView {
                saver: unsaved(old(self)@.saver, changed, now),
                ..old(self)@
            }),
            old(self).wf() ==> final(self).wf(),
    {
        if changed {
            self.saver.mark_session_dirty(now);
        }
    }

    /// Open the command line.
    pub fn open_command_line(&mut self, now: u64) -> (r: OpenStep)
        ensures
            (final(self)@, r) == bar_opened(old(self)@, OverlayKind::Command, now),
            old(self).wf() ==> final(self).wf(),
    {
        let r = self.overlay.open_command_line(now);
        self.mark_if(true);
        r
    }

    /// Open the omnibar.
    pub fn open_omnibar(&mut self, now: u64) -> (r: OpenStep)
        ensures
            (final(self)@, r) == bar_opened(old(self)@, OverlayKind::Omnibar, now),
            old(self).wf() ==> final(self).wf(),
    {
        let r = self.overlay.open_omnibar(now);
        self.mark_if(true);
        r
    }

    /// Open the find bar.
    pub fn open_find(&mut self, forward: bool, now: u64) -> (r: OpenStep)
        ensures
            (final(self)@, r) == bar_opened(old(self)@, OverlayKind::Find { forward }, now),
            old(self).wf() ==> final(self).wf(),
    {
        let r = self.overlay.open_find(forward, now);
        self.mark_if(true);
        r
    }

    /// A new tab beside the active one opened, or could not be: the omnibar opens
    /// with it.
    pub fn adjacent_tab_opened(&mut self, tab: Option<u64>, now: u64)
        ensures
            final(self)@ == tab_added(old(self)@, tab, now),
            old(self).wf() ==> final(self).wf(),
    {
        if let Some(tab) = tab {
            commands::adjacent_tab_opened(&mut self.overlay, tab, now);
            self.mark_if(true);
        }
    }

    /// Cancel the input bar.
    pub fn close_overlay(&mut self, tab_count: Option<usize>, now: u64) -> (r: Option<CloseStep>)
        ensures
            (final(self)@, r) == bar_cancelled(old(self)@, tab_count, now),
            old(self).wf() ==> final(self).wf(),
    {
        let r = self.overlay.close_overlay(tab_count);
        match r {
            Some(s) => {
                self.mark_if(true);
                self.mark_session_if(s.close_tab.is_some(), now);
            },
            None => {},
        }
        r
    }

    /// Start the find for what has been typed, once the user has paused.
    pub fn maybe_dispatch_find_live(&mut self, now: u64, value: &str, has_engine: bool) -> (r:
        FindStep)
        ensures
            (final(self)@, r@) == live_find_run(old(self)@, now, value@, has_engine),
            old(self).wf() ==> final(self).wf(),
    {
        let r = self.overlay.maybe_dispatch_find_live(now, value, has_engine);
        let changed = match r {
            FindStep::Nothing => false,
            _ => true,
        };
        self.mark_if(changed);
        r
    }

    /// Show a mode and a count.
    pub fn refresh_title(&mut self, mode: PageMode, count: Option<u32>) -> (r: TitleStep)
        ensures
            (final(self)@, r) == title_shown(old(self)@, mode, count),
            old(self).wf() ==> final(self).wf(),
    {
        let step = self.title.refresh_title(mode, count);
        self.mark_if(step.repaint);
        step
    }

    /// Show the tabs of the engine. Returns whether the strip changed.
    pub fn refresh_tab_strip(
        &mut self,
        summaries: &Vec<TabSummary>,
        active: Option<usize>,
        mark: &EngineMark,
        hovered: Option<usize>,
    ) -> (changed: bool)
        requires
            old(self).wf(),
        ensures
            final(self).wf(),
            (final(self)@, changed) == strip_shown(
                old(self)@,
                tabs::summaries_view(summaries@),
                active,
                *mark,
                hovered,
            ),
    {
        let changed = self.strip.refresh_tab_strip(
            summaries,
            active,
            &mut self.icons,
            mark,
            hovered,
        );
        self.mark_if(changed);
        changed
    }

    /// Show the front of the permission queue. Returns whether the prompt
    /// changed. The chrome is marked for the prompt that goes and for the one that
    /// comes.
    pub fn sync_permissions_prompt(&mut self, queue: Option<&Vec<PendingPermission>>) -> (changed:
        bool)
        ensures
            (final(self)@, changed) == prompt_synced(
                old(self)@,
                match queue {
                    Some(q) => Some(prompts::queue_view(q@)),
                    None => None,
                },
            ),
            old(self).wf() ==> final(self).wf(),
    {
        let had = self.prompts.shown.is_some();
        let changed = self.prompts.sync_permissions_prompt(queue);
        let has = self.prompts.shown.is_some();
        self.mark_if(changed && had);
        self.mark_if(changed && has);
        changed
    }

    /// Answer the permission prompt. The chrome is marked for the answer, for a
    /// prompt that was out of date and for the one that comes.
    pub fn resolve_permission(
        &mut self,
        queue: &mut Vec<PendingPermission>,
        outcome: PromptOutcome,
    ) -> (step: ResolveStep)
        ensures
            (final(self)@, prompts::queue_view(final(queue)@), step@) == prompt_answered(
                old(self)@,
                prompts::queue_view(old(queue)@),
                outcome,
            ),
            old(self).wf() ==> final(self).wf(),
    {
        let had = self.prompts.shown.is_some();
        let step = self.prompts.resolve_permission(queue, outcome);
        let stale = match &step {
            ResolveStep::Stale => true,
            ResolveStep::Apply { .. } => false,
        };
        let has = self.prompts.shown.is_some();
        self.mark_if(stale && had);
        self.mark_if(has);
        self.mark_if(true);
        step
    }

    /// Close the active tab, or ask about it.
    pub fn close_active_tab_or_exit(&mut self, has_engine: bool, active: Option<(u64, bool)>) -> (
    step: CloseTabStep)
        ensures
            (final(self)@, step) == close_asked(old(self)@, has_engine, active),
            old(self).wf() ==> final(self).wf(),
    {
        let step = self.confirm.close_active_tab_or_exit(has_engine, active);
        self.mark_if(step == CloseTabStep::Ask);
        step
    }

    /// Answer the question about a pinned tab.
    pub fn resolve_pinned_close(&mut self, confirm: bool, has_engine: bool, now: u64) -> (step:
        PinnedCloseStep)
        ensures
            (final(self)@, step) == close_answered(old(self)@, confirm, has_engine, now),
            old(self).wf() ==> final(self).wf(),
    {
        let step = self.confirm.resolve_pinned_close(confirm);
        match step {
            PinnedCloseStep::Nothing => {},
            PinnedCloseStep::Dismiss => {
                self.mark_if(true);
            },
            PinnedCloseStep::Close(_) => {
                self.mark_if(true);
                self.mark_session_if(has_engine, now);
            },
        }
        step
    }

    /// Decide what an action leads to.
    pub fn dispatch_action(&mut self, action: &PageAction, input: &ActionInput<'_>, now: u64) -> (
    step: ActionStep)
        ensures
            (final(self)@, step@) == acted(old(self)@, *action, *input, now),
            old(self).wf() ==> final(self).wf(),
    {
        let step = commands::dispatch_action(action, input, &mut self.edit, now);
        let pinned = match step {
            ActionStep::TogglePin => true,
            _ => false,
        };
        self.mark_session_if(pinned, now);
        step
    }

    /// A page was opened in another engine, or could not be. Returns whether the
    /// other engine is the active one now, and the tab in the one before is to
    /// be closed.
    pub fn engine_opened(&mut self, target: &str, opened: bool, now: u64) -> (switch: bool)
        ensures
            switch == opened,
            final(self)@ == engine_switched(old(self)@, target@, opened, now),
            old(self).wf() ==> final(self).wf(),
    {
        let switch = commands::engine_opened(&mut self.active_engine, target, opened);
        self.mark_if(switch);
        self.mark_session_if(switch, now);
        switch
    }

    /// Whether the chrome has to be painted.
    pub fn chrome_is_dirty(&self) -> (r: bool)
        ensures
            r == chrome_due(self@),
    {
        self.paint.chrome_generation != self.paint.last_painted_chrome_gen
    }
}

/// Law: whatever changed, the chrome stays due for painting until a frame with
/// it has been submitted.
pub proof fn law_marked_chrome_is_dirty(v: frame::PaintView)
    requires
        v.last_painted_chrome_gen <= v.chrome_generation < u64::MAX,
    ensures
        marked(v, true).chrome_generation != v.last_painted_chrome_gen,
        marked(v, true).last_painted_chrome_gen == v.last_painted_chrome_gen,
        marked(v, true).last_painted_chrome_gen <= marked(v, true).chrome_generation,
        marked(v, false) == v,
{
}

/// Law: what changes the list of tabs leaves the session to be saved, with the
/// clock at that change, and what was saved before is not forgotten.
pub proof fn law_changed_session_is_saved_again(
    v: restore::SaverView,
    earlier: bool,
    before: u64,
    now: u64,
)
    ensures
        ({
            let u = unsaved(unsaved(v, earlier, before), true, now);
            &&& u.dirty
            &&& u.dirty_since == Some(now)
            &&& u.last_url == v.last_url
            &&& u.last_active == v.last_active
            &&& u.last_tab_ids == v.last_tab_ids
        }),
        unsaved(v, false, now) == v,
{
}

/// Law: an opened bar, of whichever kind, is shown: it is in the window, the chrome
/// is due for painting, and nothing else changes. A tab opened beside another
/// brings the omnibar, which takes the tab along if it is cancelled.
pub proof fn law_opened_bar_is_painted(v: AppView, kind: OverlayKind, tab: u64, now: u64)
    ensures
        ({
            let (w, step) = bar_opened(v, kind, now);
            let x = tab_added(v, Some(tab), now);
            &&& w.overlay.kind == Some(kind)
            &&& w.paint.chrome_generation != v.paint.chrome_generation
            &&& w.paint == (frame::PaintView {
                chrome_generation: w.paint.chrome_generation,
                ..v.paint
            })
            &&& w == (AppView { overlay: w.overlay, paint: w.paint, ..v })
            &&& x.overlay.kind == Some(OverlayKind::Omnibar)
            &&& x.overlay.cancel_closes_tab == Some(tab)
            &&& x.paint.chrome_generation != v.paint.chrome_generation
            &&& x == (AppView { overlay: x.overlay, paint: x.paint, ..v })
            &&& tab_added(v, None, now) == v
        }),
{
}

/// Law: a cancelled bar is gone, the chrome is due for painting, and where a tab is
/// closed with it, and only there, the session is to be saved. Without a bar nothing
/// happens.
pub proof fn law_cancelled_bar_is_wiped_away(v: AppView, tab_count: Option<usize>, now: u64)
    ensures
        ({
            let (w, step) = bar_cancelled(v, tab_count, now);
            &&& w.overlay.kind is None
            &&& step is Some <==> v.overlay.kind is Some
            &&& step is None ==> w == v
            &&& step is Some ==> w.paint.chrome_generation != v.paint.chrome_generation
            &&& step is Some && step->0.close_tab is Some ==> w.saver.dirty && w.saver.dirty_since
                == Some(now)
            &&& step is Some && step->0.close_tab is None ==> w.saver == v.saver
            &&& w == (AppView { overlay: w.overlay, paint: w.paint, saver: w.saver, ..v })
        }),
{
}

/// Law: the chrome is due for painting exactly where the live find starts or stops,
/// where the mode, the count or the title changes, and where the tabs or the active
/// one do.
pub proof fn law_visible_changes_are_painted(
    v: AppView,
    now: u64,
    value: Seq<char>,
    has_engine: bool,
    mode: PageMode,
    count: Option<u32>,
    list: Seq<tabs::SummaryView>,
    active: Option<usize>,
    mark: EngineMark,
    hovered: Option<usize>,
)
    ensures
        ({
            let (a, find) = live_find_run(v, now, value, has_engine);
            let (b, title) = title_shown(v, mode, count);
            let (c, changed) = strip_shown(v, list, active, mark, hovered);
            &&& a.paint.chrome_generation != v.paint.chrome_generation <==> !(find is Nothing)
            &&& a == (AppView { overlay: a.overlay, paint: a.paint, ..v })
            &&& b.paint.chrome_generation != v.paint.chrome_generation <==> title.repaint
            &&& b == (AppView { title: b.title, paint: b.paint, ..v })
            &&& b.title.mode == mode && b.title.count_buffer == count
            &&& c.paint.chrome_generation != v.paint.chrome_generation <==> changed
            &&& changed <==> (c.strip != v.strip || active != v.strip_active)
            &&& c.strip_active == active
            &&& c.strip.len() == list.len() && c.strip_ids.len() == list.len()
            &&& c == (AppView {
                icons: c.icons,
                strip: c.strip,
                strip_active: c.strip_active,
                strip_ids: c.strip_ids,
                paint: c.paint,
                ..v
            })
        }),
{
}

/// Law: the strip of the window shows each listed tab, in its place, by its own
/// title and under its own number.
pub proof fn law_window_shows_the_listed_tabs(
    v: AppView,
    list: Seq<tabs::SummaryView>,
    active: Option<usize>,
    mark: EngineMark,
    hovered: Option<usize>,
    i: int,
)
    requires
        0 <= i < list.len(),
    ensures
        ({
            let (w, _) = strip_shown(v, list, active, mark, hovered);
            &&& w.strip[i].title == list[i].title
            &&& w.strip[i].pinned == list[i].pinned
            &&& w.strip[i].private == list[i].private
            &&& w.strip[i].progress == list[i].progress
            &&& w.strip_ids[i] == list[i].id
            &&& v.icons.dom().contains(list[i].browser_id) ==> w.icons.dom().contains(
                list[i].browser_id,
            ) && w.icons[list[i].browser_id] == v.icons[list[i].browser_id]
        }),
{
    tabs::law_strip_keeps_the_numbers(list, i, 0);
    tabs::law_strip_shows_the_listed_tabs(
        list,
        v.icons.restrict(tabs::live_browsers(list)),
        mark,
        hovered,
        i,
    );
}

/// Law: a permission prompt that changes, and every answer to one, is painted; a
/// look at the queue that changes nothing is not.
pub proof fn law_prompts_are_painted(
    v: AppView,
    q: Seq<prompts::PendingView>,
    outcome: PromptOutcome,
)
    ensures
        ({
            let (a, changed) = prompt_synced(v, Some(q));
            let (n, gone) = prompt_synced(v, None);
            let (b, left, _) = prompt_answered(v, q, outcome);
            &&& a.paint.chrome_generation != v.paint.chrome_generation <==> changed
            &&& !changed ==> a == v
            &&& a == (AppView { prompt: a.prompt, paint: a.paint, ..v })
            &&& n.prompt is None && (gone <==> v.prompt is Some)
            &&& n.paint.chrome_generation != v.paint.chrome_generation <==> gone
            &&& b.paint.chrome_generation != v.paint.chrome_generation
            &&& b == (AppView { prompt: b.prompt, paint: b.paint, ..v })
            &&& left.len() <= q.len()
        }),
{
}

/// Law: the question about a pinned tab is painted when it comes and when it goes,
/// and the session is to be saved exactly where the answer closes the tab.
pub proof fn law_question_is_painted(
    v: AppView,
    has_engine: bool,
    active: Option<(u64, bool)>,
    yes: bool,
    now: u64,
)
    ensures
        ({
            let (a, step) = close_asked(v, has_engine, active);
            let (b, answer) = close_answered(v, yes, has_engine, now);
            &&& a.paint.chrome_generation != v.paint.chrome_generation <==> step == CloseTabStep::Ask
            &&& step == CloseTabStep::Ask ==> a.confirm == Some((active->0).0)
            &&& step != CloseTabStep::Ask ==> a == v
            &&& b.confirm is None
            &&& b.paint.chrome_generation != v.paint.chrome_generation <==> v.confirm is Some
            &&& b.saver.dirty_since == Some(now) && b.saver.dirty || !(v.confirm is Some && yes
                && has_engine)
            &&& !(v.confirm is Some && yes && has_engine) ==> b.saver == v.saver
            &&& v.confirm is Some && yes ==> answer == PinnedCloseStep::Close(v.confirm->0)
            &&& v.confirm is Some && !yes ==> answer is Dismiss
            &&& b == (AppView { confirm: b.confirm, paint: b.paint, saver: b.saver, ..v })
        }),
{
}

/// Law: of all actions only pinning a tab leaves the session to be saved by itself,
/// and none touches more than that and the caret. A page that moves to another
/// engine changes the engine, is painted and saved; one that does not move changes
/// nothing.
pub proof fn law_actions_save_what_they_change(
    v: AppView,
    action: PageAction,
    input: ActionInput<'_>,
    target: Seq<char>,
    now: u64,
)
    ensures
        ({
            let (a, step) = acted(v, action, input, now);
            let b = engine_switched(v, target, true, now);
            &&& action is PinTab && input.has_engine ==> a.saver.dirty && a.saver.dirty_since
                == Some(now)
            &&& !(action is PinTab && input.has_engine) ==> a.saver == v.saver
            &&& a == (AppView { edit: a.edit, saver: a.saver, ..v })
            &&& b.active_engine == target
            &&& b.paint.chrome_generation != v.paint.chrome_generation
            &&& b.saver.dirty && b.saver.dirty_since == Some(now)
            &&& b == (AppView {
                active_engine: b.active_engine,
                paint: b.paint,
                saver: b.saver,
                ..v
            })
            &&& engine_switched(v, target, false, now) == v
        }),
{
}

/// Law: the chrome is due from a change on until it has been painted, and not
/// before one.
pub proof fn law_chrome_is_due_after_a_change(v: AppView, kind: OverlayKind, now: u64)
    requires
        !chrome_due(v),
    ensures
        chrome_due(bar_opened(v, kind, now).0),
        !chrome_due(
            AppView {
                paint: frame::PaintView {
                    last_painted_chrome_gen: v.paint.chrome_generation,
                    ..v.paint
                },
                ..v
            },
        ),
{
}

/// Law: the model of the window shows each part of it, and `cef` is the first engine.
pub proof fn law_window_state_is_seen_whole(x: AppState)
    ensures
        x@.swipe == x.swipe,
        x@.splash == x.splash,
        x@.modifiers == x.modifiers,
        x@.cursor == x.cursor,
        x@.mouse_buttons == x.mouse_buttons,
        x@.click_count == x.click_count,
        x@.window_focused == x.window_focused,
        x@.homepage == x.homepage@,
        x@.new_tab_url == x.new_tab_url@,
        x@.active_engine == x.active_engine@,
        x@.title == x.title@,
        x@.overlay == x.overlay@,
        x@.edit == x.edit@,
        x@.paint == x.paint@,
        x@.saver == x.saver@,
        x@.prompt == x.prompts@,
        x@.confirm == x.confirm.pending,
        x@.strip == tabs::strip_view(x.strip.tabs@),
        x@.strip_active == x.strip.active,
        x@.strip_ids == x.strip.ids@,
        x@.icons == x.icons.icons@,
        x@.icons_shown == x.icons.show,
        x@.icons_cached == x.icons.has_cache,
        x@.icons_prefill == x.icons.prefill@,
        x@.icons_checked == x.icons.checked@,
        x@.resize == x.resize.pending,
        first_engine() == "cef"@,
{
}

/// Law: the window lets its parts decide: what the bar, the title, the prompt, the
/// question and the page's actions come to is what each of them comes to by itself,
/// on what the window holds of it.
pub proof fn law_parts_decide_for_themselves(
    v: AppView,
    kind: OverlayKind,
    tabs_open: Option<usize>,
    value: Seq<char>,
    has_engine: bool,
    mode: PageMode,
    count: Option<u32>,
    queue: Option<Seq<prompts::PendingView>>,
    q: Seq<prompts::PendingView>,
    outcome: PromptOutcome,
    active: Option<(u64, bool)>,
    yes: bool,
    action: PageAction,
    input: ActionInput<'_>,
    now: u64,
)
    ensures
        (bar_opened(v, kind, now).0.overlay, bar_opened(v, kind, now).1) == overlay::opened(
            v.overlay,
            kind,
            now,
        ),
        (bar_cancelled(v, tabs_open, now).0.overlay, bar_cancelled(v, tabs_open, now).1)
            == overlay::cancelled(v.overlay, tabs_open),
        (
            live_find_run(v, now, value, has_engine).0.overlay,
            live_find_run(v, now, value, has_engine).1,
        ) == overlay::live_find(v.overlay, now, value, has_engine),
        (title_shown(v, mode, count).0.title, title_shown(v, mode, count).1) == tabs::retitled(
            v.title,
            mode,
            count,
        ),
        (prompt_synced(v, queue).0.prompt, prompt_synced(v, queue).1) == prompts::synced(
            v.prompt,
            queue,
        ),
        (
            prompt_answered(v, q, outcome).0.prompt,
            prompt_answered(v, q, outcome).1,
            prompt_answered(v, q, outcome).2,
        ) == prompts::answered(v.prompt, q, outcome),
        (close_asked(v, has_engine, active).0.confirm, close_asked(v, has_engine, active).1)
            == tabs::close_step(v.confirm, has_engine, active),
        (
            close_answered(v, yes, has_engine, now).0.confirm,
            close_answered(v, yes, has_engine, now).1,
        ) == tabs::close_answer(v.confirm, yes),
        acted(v, action, input, now).1 == commands::action_step(
            action,
            input,
            v.edit.last_focused_field,
        ),
        acted(v, action, input, now).0.edit == commands::edit_after(
            action,
            input.has_engine,
            v.edit,
            now,
        ),
{
}

/// Law: of the paint state, the window's own operations change the strips' age alone.
pub proof fn law_window_only_ages_the_strips(
    v: AppView,
    tab: Option<u64>,
    tabs_open: Option<usize>,
    value: Seq<char>,
    has_engine: bool,
    mode: PageMode,
    count: Option<u32>,
    queue: Option<Seq<prompts::PendingView>>,
    q: Seq<prompts::PendingView>,
    outcome: PromptOutcome,
    active: Option<(u64, bool)>,
    yes: bool,
    target: Seq<char>,
    now: u64,
    p: frame::PaintView,
)
    requires
        p == tab_added(v, tab, now).paint || p == bar_cancelled(v, tabs_open, now).0.paint || p
            == live_find_run(v, now, value, has_engine).0.paint || p == title_shown(
            v,
            mode,
            count,
        ).0.paint || p == prompt_synced(v, queue).0.paint || p == prompt_answered(
            v,
            q,
            outcome,
        ).0.paint || p == close_asked(v, has_engine, active).0.paint || p == close_answered(
            v,
            yes,
            has_engine,
            now,
        ).0.paint || p == engine_switched(v, target, yes, now).paint,
    ensures
        p == (frame::PaintView { chrome_generation: p.chrome_generation, ..v.paint }),
{
}

/// Law: the window keeps the icons of the tabs that are open, and no others.
pub proof fn law_window_keeps_the_open_tabs_icons(
    v: AppView,
    list: Seq<tabs::SummaryView>,
    active: Option<usize>,
    mark: EngineMark,
    hovered: Option<usize>,
    id: i32,
)
    ensures
        ({
            let (w, _) = strip_shown(v, list, active, mark, hovered);
            let open = exists|i: int| 0 <= i < list.len() && (#[trigger] list[i]).browser_id == id;
            &&& w.icons.dom().contains(id) <==> (v.icons.dom().contains(id) && open)
            &&& w.icons.dom().contains(id) ==> w.icons[id] == v.icons[id]
            &&& w.paint == (frame::PaintView {
                chrome_generation: w.paint.chrome_generation,
                ..v.paint
            })
        }),
{
    let ids = list.map_values(|t: tabs::SummaryView| t.browser_id);
    assert(tabs::live_browsers(list).contains(id) <==> ids.contains(id));
    if ids.contains(id) {
        let i = choose|i: int| 0 <= i < ids.len() && ids[i] == id;
        assert(list[i].browser_id == id);
    }
    if exists|i: int| 0 <= i < list.len() && (#[trigger] list[i]).browser_id == id {
        let i = choose|i: int| 0 <= i < list.len() && (#[trigger] list[i]).browser_id == id;
        assert(ids[i] == id);
    }
}

} // verus!
