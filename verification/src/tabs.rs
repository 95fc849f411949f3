//! The tab strip, the window title, and what closing a tab takes.
use vstd::prelude::*;
use vstd::string::*;
use crate::favicons::{Favicons, TabFavicon};
use crate::restore::same_index;
use crate::text::same_text;

verus! {

/// The mode that keys are read in.
#[derive(Debug, Clone, Copy, PartialEq, Eq, Structural)]
pub enum PageMode {
    Normal,
    Visual,
    Command,
    Hint,
    Insert,
}

/// The name of a mode as the title shows it.
pub open spec fn label_of(mode: PageMode) -> Seq<char> {
    match mode {
        PageMode::Normal => "NORMAL"@,
        PageMode::Visual => "VISUAL"@,
        PageMode::Command => "COMMAND"@,
        PageMode::Hint => "HINT"@,
        PageMode::Insert => "INSERT"@,
    }
}

/// The name of a mode as the title shows it.
pub fn mode_label(mode: PageMode) -> (r: &'static str)
    ensures
        r@ == label_of(mode),
{
    match mode {
        PageMode::Normal => "NORMAL",
        PageMode::Visual => "VISUAL",
        PageMode::Command => "COMMAND",
        PageMode::Hint => "HINT",
        PageMode::Insert => "INSERT",
    }
}

/// The title of the window: the browser, a mark in private mode, the mode, and
/// the page if there is one.
pub open spec fn title_text(private: bool, label: Seq<char>, url: Seq<char>) -> Seq<char> {
    let head = (if private { "buffr — PRIVATE — "@ } else { "buffr — "@ }) + label;
    if url.len() == 0 { head } else { head + " — "@ + url }
}

/// The title of the window.
pub fn title_for(private: bool, label: &str, url: &str) -> (r: String)
    ensures
        r@ == title_text(private, label@, url@),
{
    let mut r = String::new();
    if private {
        r.append("buffr — PRIVATE — ");
    } else {
        r.append("buffr — ");
    }
    proof {
        assert(r@ =~= if private { "buffr — PRIVATE — "@ } else { "buffr — "@ });
    }
    r.append(label);
    if !url.is_empty() {
        r.append(" — ");
        r.append(url);
    }
    r
}

/// What the status line and the title show.
pub struct TitleState {
    pub private: bool,
    pub mode: PageMode,
    /// The count that has been typed.
    pub count_buffer: Option<u32>,
    pub url: String,
    pub title: String,
}

/// The contents of a [`TitleState`].
pub struct TitleView {
    pub private: bool,
    pub mode: PageMode,
    pub count_buffer: Option<u32>,
    pub url: Seq<char>,
    pub title: Seq<char>,
}

impl View for TitleState {
    type V = TitleView;

    open spec fn view(&self) -> TitleView {
        TitleView {
            private: self.private,
            mode: self.mode,
            count_buffer: self.count_buffer,
            url: self.url@,
            title: self.title@,
        }
    }
}

/// Normal mode on the first page, without a title yet.
pub open spec fn untitled(private: bool, homepage: Seq<char>) -> TitleView {
    TitleView {
        private,
        mode: PageMode::Normal,
        count_buffer: None,
        url: homepage,
        title: Seq::empty(),
    }
}

/// What a change of the mode leads to.
#[derive(Debug, Clone, Copy, PartialEq, Eq, Structural)]
pub struct TitleStep {
    /// Give the window its new title.
    pub set_title: bool,
    /// Visual mode was left: drop the selection of the page.
    pub clear_selection: bool,
    /// What is shown changed.
    pub repaint: bool,
}

/// The title and the status line for a mode and a count.
pub open spec fn retitled(v: TitleView, mode: PageMode, count: Option<u32>) -> (
    TitleView,
    TitleStep,
) {
    let title = title_text(v.private, label_of(mode), v.url);
    (
        TitleView { mode, count_buffer: count, title, ..v },
        TitleStep {
            set_title: title != v.title,
            clear_selection: v.mode == PageMode::Visual && mode != PageMode::Visual,
            repaint: v.mode != mode || v.count_buffer != count || title != v.title,
        },
    )
}

/// Whether two counts are the same.
fn same_count(a: Option<u32>, b: Option<u32>) -> (r: bool)
    ensures
        r == (a == b),
{
    match (a, b) {
        (Some(x), Some(y)) => x == y,
        (None, None) => true,
        _ => false,
    }
}

impl TitleState {
    /// Normal mode on the first page, without a title yet.
    pub fn new(private: bool, homepage: String) -> (r: Self)
        ensures
            r@ == untitled(private, homepage@),
    {
        TitleState {
            private,
            mode: PageMode::Normal,
            count_buffer: None,
            url: homepage,
            title: String::new(),
        }
    }

    /// Show a mode and a count.
    pub fn refresh_title(&mut self, mode: PageMode, count: Option<u32>) -> (step: TitleStep)
        ensures
            (final(self)@, step) == retitled(old(self)@, mode, count),
    {
        let title = title_for(self.private, mode_label(mode), self.url.as_str());
        let set_title = !same_text(title.as_str(), self.title.as_str());
        if set_title {
            self.title = title;
        }
        let repaint = self.mode != mode || !same_count(self.count_buffer, count) || set_title;
        let clear_selection = self.mode == PageMode::Visual && mode != PageMode::Visual;
        self.mode = mode;
        self.count_buffer = count;
        TitleStep { set_title, clear_selection, repaint }
    }
}

/// Law: showing the same mode and count again changes nothing.
pub proof fn law_title_settles(v: TitleView, mode: PageMode, count: Option<u32>)
    ensures
        ({
            let (w, _) = retitled(v, mode, count);
            let (again, step) = retitled(w, mode, count);
            &&& again == w
            &&& !step.set_title && !step.clear_selection && !step.repaint
        }),
{
}

/// Law: a private window always says so.
pub proof fn law_private_title_says_so(label: Seq<char>, url: Seq<char>)
    ensures
        "buffr — PRIVATE — "@.is_prefix_of(title_text(true, label, url)),
{
    let mark = "buffr — PRIVATE — "@;
    let t = title_text(true, label, url);
    assert(t.subrange(0, mark.len() as int) =~= mark);
}

/// A tab as the engine lists it.
#[derive(Debug)]
pub struct TabSummary {
    pub id: u64,
    pub browser_id: i32,
    pub title: String,
    /// How much is loaded; equal numbers stand for equal amounts.
    pub progress: u32,
    pub pinned: bool,
    pub private: bool,
}

/// The contents of a [`TabSummary`].
pub struct SummaryView {
    pub id: u64,
    pub browser_id: i32,
    pub title: Seq<char>,
    pub progress: u32,
    pub pinned: bool,
    pub private: bool,
}

impl View for TabSummary {
    type V = SummaryView;

    open spec fn view(&self) -> SummaryView {
        SummaryView {
            id: self.id,
            browser_id: self.browser_id,
            title: self.title@,
            progress: self.progress,
            pinned: self.pinned,
            private: self.private,
        }
    }
}

/// The views of a list of tabs.
pub open spec fn summaries_view(v: Seq<TabSummary>) -> Seq<SummaryView> {
    v.map_values(|t: TabSummary| t@)
}

/// The contents of a favicon.
pub struct IconView {
    pub width: u32,
    pub height: u32,
    pub pixels: Seq<u8>,
}

/// The contents of a favicon.
pub open spec fn icon_view(f: TabFavicon) -> IconView {
    IconView { width: f.width, height: f.height, pixels: f.pixels@ }
}

/// A tab as the strip shows it.
pub struct TabView {
    pub title: String,
    pub progress: u32,
    pub pinned: bool,
    pub private: bool,
    pub favicon: Option<TabFavicon>,
    /// The colour that marks the engine.
    pub engine_badge: Option<u32>,
    /// The letters that mark the engine.
    pub engine_label: Option<String>,
    pub hovered: bool,
}

/// The contents of a [`TabView`].
pub struct ShownTab {
    pub title: Seq<char>,
    pub progress: u32,
    pub pinned: bool,
    pub private: bool,
    pub favicon: Option<IconView>,
    pub engine_badge: Option<u32>,
    pub engine_label: Option<Seq<char>>,
    pub hovered: bool,
}

/// The text in an option.
pub open spec fn text_in(s: Option<String>) -> Option<Seq<char>> {
    match s {
        Some(t) => Some(t@),
        None => None,
    }
}

/// The favicon in an option.
pub open spec fn icon_in(f: Option<TabFavicon>) -> Option<IconView> {
    match f {
        Some(i) => Some(icon_view(i)),
        None => None,
    }
}

impl View for TabView {
    type V = ShownTab;

    open spec fn view(&self) -> ShownTab {
        ShownTab {
            title: self.title@,
            progress: self.progress,
            pinned: self.pinned,
            private: self.private,
            favicon: icon_in(self.favicon),
            engine_badge: self.engine_badge,
            engine_label: text_in(self.engine_label),
            hovered: self.hovered,
        }
    }
}

/// The views of a strip.
pub open spec fn strip_view(v: Seq<TabView>) -> Seq<ShownTab> {
    v.map_values(|t: TabView| t@)
}

/// How the engine is marked on every tab.
pub struct EngineMark {
    pub badge: Option<u32>,
    pub label: Option<String>,
}

/// How one tab is shown.
pub open spec fn shown_tab(
    t: SummaryView,
    i: int,
    icons: Map<i32, TabFavicon>,
    mark: EngineMark,
    hovered: Option<usize>,
) -> ShownTab {
    ShownTab {
        title: t.title,
        progress: t.progress,
        pinned: t.pinned,
        private: t.private,
        favicon: if icons.dom().contains(t.browser_id) {
            Some(icon_view(icons[t.browser_id]))
        } else {
            None
        },
        engine_badge: mark.badge,
        engine_label: text_in(mark.label),
        hovered: hovered matches Some(h) && h == i,
    }
}

/// How all tabs are shown.
pub open spec fn shown_tabs(
    tabs: Seq<SummaryView>,
    icons: Map<i32, TabFavicon>,
    mark: EngineMark,
    hovered: Option<usize>,
) -> Seq<ShownTab> {
    tabs.map(|i: int, t: SummaryView| shown_tab(t, i, icons, mark, hovered))
}

/// The browsers of the tabs.
pub open spec fn live_browsers(tabs: Seq<SummaryView>) -> Set<i32> {
    tabs.map_values(|t: SummaryView| t.browser_id).to_set()
}

/// The numbers of the tabs.
pub open spec fn tab_numbers(tabs: Seq<SummaryView>) -> Seq<u64> {
    tabs.map_values(|t: SummaryView| t.id)
}

/// The tab strip.
pub struct TabStrip {
    pub tabs: Vec<TabView>,
    pub active: Option<usize>,
    pub ids: Vec<u64>,
}

/// Whether two byte strings are the same.
fn same_bytes(a: &Vec<u8>, b: &Vec<u8>) -> (r: bool)
    ensures
        r == (a@ == b@),
{
    if a.len() != b.len() {
        return false;
    }
    let mut i: usize = 0;
    while i < a.len()
        invariant
            i <= a.len(),
            a.len() == b.len(),
            forall|k: int| 0 <= k < i ==> a@[k] == b@[k],
        decreases a.len() - i,
    {
        if a[i] != b[i] {
            return false;
        }
        i += 1;
    }
    proof {
        assert(a@ =~= b@);
    }
    true
}

/// A copy of a favicon.
fn copy_icon(f: &TabFavicon) -> (r: TabFavicon)
    ensures
        icon_view(r) == icon_view(*f),
{
    let pixels = f.pixels.clone();
    proof {
        assert(pixels@ =~= f.pixels@);
    }
    TabFavicon { width: f.width, height: f.height, pixels }
}

/// Whether two favicons are the same.
fn same_icon(a: &Option<TabFavicon>, b: &Option<TabFavicon>) -> (r: bool)
    ensures
        r == (icon_in(*a) == icon_in(*b)),
{
    match (a, b) {
        (Some(x), Some(y)) => x.width == y.width && x.height == y.height && same_bytes(
            &x.pixels,
            &y.pixels,
        ),
        (None, None) => true,
        _ => false,
    }
}

/// Whether two optional texts are the same.
fn same_label(a: &Option<String>, b: &Option<String>) -> (r: bool)
    ensures
        r == (text_in(*a) == text_in(*b)),
{
    match (a, b) {
        (Some(x), Some(y)) => same_text(x.as_str(), y.as_str()),
        (None, None) => true,
        _ => false,
    }
}

/// Whether two tabs are shown the same.
fn same_tab(a: &TabView, b: &TabView) -> (r: bool)
    ensures
        r == (a@ == b@),
{
    same_text(a.title.as_str(), b.title.as_str()) && a.progress == b.progress && a.pinned
        == b.pinned && a.private == b.private && same_icon(&a.favicon, &b.favicon) && same_count(
        a.engine_badge,
        b.engine_badge,
    ) && same_label(&a.engine_label, &b.engine_label) && a.hovered == b.hovered
}

/// Whether two strips show the same tabs.
fn same_tabs(a: &Vec<TabView>, b: &Vec<TabView>) -> (r: bool)
    ensures
        r == (strip_view(a@) == strip_view(b@)),
{
    if a.len() != b.len() {
        proof {
            assert(strip_view(a@).len() != strip_view(b@).len());
        }
        return false;
    }
    let mut i: usize = 0;
    while i < a.len()
        invariant
            i <= a.len(),
            a.len() == b.len(),
            forall|k: int| 0 <= k < i ==> strip_view(a@)[k] == strip_view(b@)[k],
        decreases a.len() - i,
    {
        if !same_tab(&a[i], &b[i]) {
            proof {
                assert(strip_view(a@)[i as int] != strip_view(b@)[i as int]);
            }
            return false;
        }
        i += 1;
    }
    proof {
        assert(strip_view(a@) =~= strip_view(b@));
    }
    true
}

/// How one tab is shown.
fn show_tab(
    t: &TabSummary,
    i: usize,
    icons: &Favicons,
    mark: &EngineMark,
    hovered: Option<usize>,
) -> (r: TabView)
    requires
        icons.wf(),
    ensures
        r@ == shown_tab(t@, i as int, icons.icons@, *mark, hovered),
{
    let favicon = match icons.icons.get(t.browser_id) {
        Some(f) => Some(copy_icon(f)),
        None => None,
    };
    let engine_label = match &mark.label {
        Some(l) => Some(l.clone()),
        None => None,
    };
    let is_hovered = match hovered {
        Some(h) => h == i,
        None => false,
    };
    TabView {
        title: t.title.clone(),
        progress: t.progress,
        pinned: t.pinned,
        private: t.private,
        favicon,
        engine_badge: mark.badge,
        engine_label,
        hovered: is_hovered,
    }
}

impl TabStrip {
    /// No tabs.
    pub fn new() -> (r: Self)
        ensures
            r.tabs@.len() == 0,
            r.active is None,
            r.ids@.len() == 0,
    {
        TabStrip { tabs: Vec::new(), active: None, ids: Vec::new() }
    }

    /// Show the tabs of the engine, and forget the favicons of those that are
    /// gone. Returns whether the strip changed.
    pub fn refresh_tab_strip(
        &mut self,
        summaries: &Vec<TabSummary>,
        active: Option<usize>,
        icons: &mut Favicons,
        mark: &EngineMark,
        hovered: Option<usize>,
    ) -> (changed: bool)
        requires
            old(icons).wf(),
        ensures
            final(icons).wf(),
            final(icons).icons@ == old(icons).icons@.restrict(
                live_browsers(summaries_view(summaries@)),
            ),
            final(icons).prefill == old(icons).prefill,
            final(icons).checked == old(icons).checked,
            final(icons).show == old(icons).show,
            final(icons).has_cache == old(icons).has_cache,
            strip_view(final(self).tabs@) == shown_tabs(
                summaries_view(summaries@),
                final(icons).icons@,
                *mark,
                hovered,
            ),
            final(self).tabs@.len() == summaries@.len(),
            final(self).ids@.len() == summaries@.len(),
            forall|i: int|
                #![trigger final(self).tabs@[i]]
                0 <= i < summaries@.len() ==> {
                    let shown = final(self).tabs@[i];
                    let listed = summaries@[i];
                    &&& shown.title@ == listed.title@
                    &&& shown.progress == listed.progress
                    &&& shown.pinned == listed.pinned
                    &&& shown.private == listed.private
                    &&& shown.engine_badge == mark.badge
                    &&& shown.hovered == (hovered == Some(i as usize))
                    &&& final(self).ids@[i] == listed.id
                },
            final(self).active == active,
            final(self).ids@ == tab_numbers(summaries_view(summaries@)),
            changed == (strip_view(final(self).tabs@) != strip_view(old(self).tabs@) || active
                != old(self).active),
    {
        let ghost sv = summaries_view(summaries@);
        let mut live: Vec<i32> = Vec::new();
        let mut ids: Vec<u64> = Vec::new();
        let mut i: usize = 0;
        while i < summaries.len()
            invariant
                i <= summaries.len(),
                sv == summaries_view(summaries@),
                live@ == sv.map_values(|t: SummaryView| t.browser_id).take(i as int),
                ids@ == tab_numbers(sv).take(i as int),
            decreases summaries.len() - i,
        {
            let ghost bs = sv.map_values(|t: SummaryView| t.browser_id);
            proof {
                assert(sv[i as int] == summaries@[i as int]@);
                assert(bs.take(i + 1) =~= bs.take(i as int).push(bs[i as int]));
                assert(tab_numbers(sv).take(i + 1) =~= tab_numbers(sv).take(i as int).push(
                    tab_numbers(sv)[i as int],
                ));
            }
            live.push(summaries[i].browser_id);
            ids.push(summaries[i].id);
            i += 1;
        }
        proof {
            let bs = sv.map_values(|t: SummaryView| t.browser_id);
            assert(bs.take(bs.len() as int) =~= bs);
            assert(tab_numbers(sv).take(sv.len() as int) =~= tab_numbers(sv));
        }
        icons.retain_live(&live);
        let mut tabs: Vec<TabView> = Vec::new();
        let mut j: usize = 0;
        let ghost all = shown_tabs(sv, icons.icons@, *mark, hovered);
        while j < summaries.len()
            invariant
                j <= summaries.len(),
                icons.wf(),
                sv == summaries_view(summaries@),
                all == shown_tabs(sv, icons.icons@, *mark, hovered),
                strip_view(tabs@) == all.take(j as int),
            decreases summaries.len() - j,
        {
            let t = show_tab(&summaries[j], j, &*icons, mark, hovered);
            let ghost tv = t@;
            let ghost before = tabs@;
            proof {
                assert(sv[j as int] == summaries@[j as int]@);
                assert(all[j as int] == tv);
            }
            tabs.push(t);
            proof {
                assert(strip_view(tabs@) =~= strip_view(before).push(tv));
                assert(all.take(j + 1) =~= all.take(j as int).push(all[j as int]));
            }
            j += 1;
        }
        proof {
            assert(all.take(all.len() as int) =~= all);
        }
        let changed = !same_tabs(&tabs, &self.tabs) || !same_index(active, self.active);
        proof {
            assert(strip_view(tabs@).len() == sv.len());
            assert forall|k: int| #![trigger tabs@[k]] 0 <= k < summaries@.len() implies {
                &&& tabs@[k].title@ == summaries@[k].title@
                &&& tabs@[k].progress == summaries@[k].progress
                &&& tabs@[k].pinned == summaries@[k].pinned
                &&& tabs@[k].private == summaries@[k].private
                &&& tabs@[k].engine_badge == mark.badge
                &&& tabs@[k].hovered == (hovered == Some(k as usize))
                &&& ids@[k] == summaries@[k].id
            } by {
                assert(strip_view(tabs@)[k] == tabs@[k]@);
                assert(sv[k] == summaries@[k]@);
                assert(all[k] == shown_tab(sv[k], k, icons.icons@, *mark, hovered));
                assert(k <= usize::MAX);
            }
        }
        self.tabs = tabs;
        self.active = active;
        self.ids = ids;
        changed
    }

    /// How many of the tabs are pinned.
    pub fn pinned_count(&self) -> (r: usize)
        ensures
            r == strip_view(self.tabs@).filter(|t: ShownTab| t.pinned).len(),
    {
        let ghost v = strip_view(self.tabs@);
        let ghost pinned = |t: ShownTab| t.pinned;
        let mut n: usize = 0;
        let mut i: usize = 0;
        proof {
            reveal(Seq::filter);
            assert(v.take(0) =~= Seq::empty());
        }
        while i < self.tabs.len()
            invariant
                i <= self.tabs.len(),
                n <= i,
                v == strip_view(self.tabs@),
                pinned == (|t: ShownTab| t.pinned),
                n == v.take(i as int).filter(pinned).len(),
            decreases self.tabs.len() - i,
        {
            proof {
                reveal(Seq::filter);
                assert(v.take(i + 1).drop_last() =~= v.take(i as int));
                assert(v.take(i + 1).last() == v[i as int]);
                assert(v[i as int] == self.tabs@[i as int]@);
            }
            if self.tabs[i].pinned {
                n += 1;
            }
            i += 1;
        }
        proof {
            assert(v.take(v.len() as int) =~= v);
        }
        n
    }
}

/// What closing the active tab takes.
#[derive(Debug, Clone, Copy, PartialEq, Eq, Structural)]
pub enum CloseTabStep {
    /// There is no engine.
    Nothing,
    /// The tab is pinned: ask first.
    Ask,
    /// Close it.
    Close,
}

/// What follows a close.
#[derive(Debug, Clone, Copy, PartialEq, Eq, Structural)]
pub struct AfterClose {
    /// Save the session, record a clean shutdown and leave.
    pub exit: bool,
    /// Tabs remain.
    pub remains: bool,
}

/// What the answer to the question leads to.
#[derive(Debug, Clone, Copy, PartialEq, Eq, Structural)]
pub enum PinnedCloseStep {
    /// Nothing was asked.
    Nothing,
    /// The tab stays.
    Dismiss,
    /// Close this tab, whichever is active.
    Close(u64),
}

/// The question whether to close a pinned tab, with the tab it is about.
pub struct CloseConfirm {
    pub pending: Option<u64>,
}

/// What closing the active tab takes; `active` is its number and whether it is
/// pinned.
pub open spec fn close_step(pending: Option<u64>, has_engine: bool, active: Option<(u64, bool)>) -> (
    Option<u64>,
    CloseTabStep,
) {
    if !has_engine {
        (pending, CloseTabStep::Nothing)
    } else if pending is None && active is Some && (active->0).1 {
        (Some((active->0).0), CloseTabStep::Ask)
    } else {
        (pending, CloseTabStep::Close)
    }
}

/// What the answer to the question leads to.
pub open spec fn close_answer(pending: Option<u64>, confirm: bool) -> (
    Option<u64>,
    PinnedCloseStep,
) {
    (
        None,
        match pending {
            None => PinnedCloseStep::Nothing,
            Some(id) => if confirm {
                PinnedCloseStep::Close(id)
            } else {
                PinnedCloseStep::Dismiss
            },
        },
    )
}

/// Whether no engine has a tab left.
pub open spec fn all_gone(counts: Seq<usize>) -> bool {
    forall|i: int| 0 <= i < counts.len() ==> counts[i] == 0
}

/// Whether no engine has a tab left.
pub fn all_tabs_gone(counts: &Vec<usize>) -> (r: bool)
    ensures
        r == all_gone(counts@),
{
    let mut i: usize = 0;
    while i < counts.len()
        invariant
            i <= counts.len(),
            forall|k: int| 0 <= k < i ==> counts@[k] == 0,
        decreases counts.len() - i,
    {
        if counts[i] != 0 {
            return false;
        }
        i += 1;
    }
    true
}

impl CloseConfirm {
    /// Nothing is being asked.
    pub fn new() -> (r: Self)
        ensures
            r.pending is None,
    {
        CloseConfirm { pending: None }
    }

    /// Close the active tab. A pinned one is asked about first.
    pub fn close_active_tab_or_exit(&mut self, has_engine: bool, active: Option<(u64, bool)>) -> (
    step: CloseTabStep)
        ensures
            (final(self).pending, step) == close_step(old(self).pending, has_engine, active),
    {
        if !has_engine {
            return CloseTabStep::Nothing;
        }
        if self.pending.is_none() {
            if let Some((id, pinned)) = active {
                if pinned {
                    self.pending = Some(id);
                    return CloseTabStep::Ask;
                }
            }
        }
        CloseTabStep::Close
    }

    /// Answer the question.
    pub fn resolve_pinned_close(&mut self, confirm: bool) -> (step: PinnedCloseStep)
        ensures
            (final(self).pending, step) == close_answer(old(self).pending, confirm),
    {
        let pending = self.pending;
        self.pending = None;
        match pending {
            None => PinnedCloseStep::Nothing,
            Some(id) => {
                if confirm {
                    PinnedCloseStep::Close(id)
                } else {
                    PinnedCloseStep::Dismiss
                }
            },
        }
    }
}

/// What follows a close of the active tab.
pub open spec fn close_outcome(still_open: Option<bool>, counts: Seq<usize>) -> AfterClose {
    AfterClose {
        exit: still_open is Some && all_gone(counts),
        remains: match still_open {
            Some(_) => !all_gone(counts),
            None => true,
        },
    }
}

/// What follows a close of the active tab; `still_open` is what the engine
/// answered, `None` if it failed, `counts` how many tabs each engine has. The
/// last tab is the last one of all engines, whatever the one that closed it
/// answered of its own.
pub fn after_close(still_open: Option<bool>, counts: &Vec<usize>) -> (r: AfterClose)
    ensures
        r == close_outcome(still_open, counts@),
{
    let exit = match still_open {
        Some(_) => all_tabs_gone(counts),
        None => false,
    };
    AfterClose { exit, remains: !exit }
}

/// Law: a pinned tab is asked about before it is closed, the answer yes closes
/// that tab, the answer no closes none, and either way it is asked about again
/// the next time.
pub proof fn law_pinned_tab_is_asked_about(id: u64)
    ensures
        ({
            let (pending, step) = close_step(None, true, Some((id, true)));
            let (after_yes, yes) = close_answer(pending, true);
            let (after_no, no) = close_answer(pending, false);
            &&& step == CloseTabStep::Ask
            &&& yes == PinnedCloseStep::Close(id)
            &&& no == PinnedCloseStep::Dismiss
            &&& after_yes is None && after_no is None
        }),
{
}

/// Law: forgetting the favicons of tabs that are gone changes nothing of what is
/// shown.
pub proof fn law_live_favicons_stay(
    tabs: Seq<SummaryView>,
    icons: Map<i32, TabFavicon>,
    mark: EngineMark,
    hovered: Option<usize>,
)
    ensures
        shown_tabs(tabs, icons.restrict(live_browsers(tabs)), mark, hovered) == shown_tabs(
            tabs,
            icons,
            mark,
            hovered,
        ),
{
    let kept = icons.restrict(live_browsers(tabs));
    let bs = tabs.map_values(|t: SummaryView| t.browser_id);
    assert forall|i: int| 0 <= i < tabs.len() implies shown_tab(
        tabs[i],
        i,
        kept,
        mark,
        hovered,
    ) == shown_tab(tabs[i], i, icons, mark, hovered) by {
        assert(bs[i] == tabs[i].browser_id);
        assert(bs.contains(tabs[i].browser_id));
        assert(live_browsers(tabs).contains(tabs[i].browser_id));
    }
    assert(shown_tabs(tabs, kept, mark, hovered) =~= shown_tabs(tabs, icons, mark, hovered));
}

/// The state of the page that shows an animation while no page is loaded.
#[derive(Debug, Clone, Copy, PartialEq, Eq, Structural)]
pub struct SplashPush {
    pub last_tick: Option<u64>,
    pub next_push: Option<u64>,
}

/// What the animation does now.
#[derive(Debug, Clone, Copy, PartialEq, Eq, Structural)]
pub enum SplashStep {
    /// It is not time yet, or there is nothing to show it on.
    Nothing,
    /// Show the frame of this tick.
    Push(u64),
}

/// One turn of the animation: `on_new_tab` is `None` without an engine.
pub open spec fn splash_turn(
    s: SplashPush,
    on_new_tab: Option<bool>,
    tick: u64,
    now: u64,
    period: u64,
) -> (SplashPush, SplashStep) {
    if s.next_push is Some && s.next_push->0 > now || on_new_tab is None {
        (s, SplashStep::Nothing)
    } else if !on_new_tab->0 {
        (SplashPush { last_tick: None, next_push: None }, SplashStep::Nothing)
    } else {
        (
            SplashPush {
                last_tick: Some(tick),
                next_push: Some(
                    if now + period > u64::MAX {
                        u64::MAX
                    } else {
                        (now + period) as u64
                    },
                ),
            },
            if s.last_tick == Some(tick) {
                SplashStep::Nothing
            } else {
                SplashStep::Push(tick)
            },
        )
    }
}

impl SplashPush {
    /// Nothing was shown yet.
    pub fn new() -> (r: Self)
        ensures
            r == (SplashPush { last_tick: None, next_push: None }),
    {
        SplashPush { last_tick: None, next_push: None }
    }

    /// Show the next frame of the animation when its time has come.
    pub fn tick_splash_js_push(
        &mut self,
        on_new_tab: Option<bool>,
        tick: u64,
        now: u64,
        period: u64,
    ) -> (step: SplashStep)
        ensures
            (*final(self), step) == splash_turn(*old(self), on_new_tab, tick, now, period),
    {
        if let Some(at) = self.next_push {
            if at > now {
                return SplashStep::Nothing;
            }
        }
        let on = match on_new_tab {
            Some(on) => on,
            None => {
                return SplashStep::Nothing;
            },
        };
        if !on {
            self.last_tick = None;
            self.next_push = None;
            return SplashStep::Nothing;
        }
        let same = match self.last_tick {
            Some(t) => t == tick,
            None => false,
        };
        self.last_tick = Some(tick);
        self.next_push = Some(now.saturating_add(period));
        if same {
            SplashStep::Nothing
        } else {
            SplashStep::Push(tick)
        }
    }
}

/// Law: no frame of the animation is shown twice in a row, and none before its
/// time.
pub proof fn law_splash_frames_are_pushed_once(
    s: SplashPush,
    tick: u64,
    now: u64,
    later: u64,
    period: u64,
)
    requires
        s.next_push is None || s.next_push->0 <= now,
        now + period <= u64::MAX,
    ensures
        ({
            let (w, _) = splash_turn(s, Some(true), tick, now, period);
            let (_, again) = splash_turn(w, Some(true), tick, later, period);
            &&& again == SplashStep::Nothing
            &&& forall|other: u64|
                later < now + period ==> (#[trigger] splash_turn(
                    w,
                    Some(true),
                    other,
                    later,
                    period,
                )) == (w, SplashStep::Nothing)
        }),
{
}

/// Law: the strip shows each listed tab in its place, with its own title, its
/// progress, its pin and its private mark, and no tab besides. Every tab bears the
/// engine's mark, at most the hovered one is shown as hovered, and a tab has the
/// favicon of its own browser or none.
pub proof fn law_strip_shows_the_listed_tabs(
    tabs: Seq<SummaryView>,
    icons: Map<i32, TabFavicon>,
    mark: EngineMark,
    hovered: Option<usize>,
    i: int,
)
    requires
        0 <= i < tabs.len(),
    ensures
        ({
            let s = shown_tabs(tabs, icons, mark, hovered);
            &&& s.len() == tabs.len()
            &&& s[i].title == tabs[i].title
            &&& s[i].progress == tabs[i].progress
            &&& s[i].pinned == tabs[i].pinned
            &&& s[i].private == tabs[i].private
            &&& s[i].engine_badge == mark.badge
            &&& mark.label is Some ==> s[i].engine_label == Some(mark.label->0@)
            &&& mark.label is None ==> s[i].engine_label is None
            &&& s[i].hovered <==> (hovered is Some && hovered->0 == i)
            &&& s[i].favicon is Some <==> icons.dom().contains(tabs[i].browser_id)
            &&& icons.dom().contains(tabs[i].browser_id) ==> {
                let icon = icons[tabs[i].browser_id];
                &&& s[i].favicon->0.width == icon.width
                &&& s[i].favicon->0.height == icon.height
                &&& s[i].favicon->0.pixels == icon.pixels@
            }
        }),
{
}

/// Law: the numbers that the strip keeps are those of the listed tabs, in order,
/// and the browsers whose favicons are kept are exactly those of the listed tabs.
pub proof fn law_strip_keeps_the_numbers(tabs: Seq<SummaryView>, i: int, b: i32)
    requires
        0 <= i < tabs.len(),
    ensures
        tab_numbers(tabs).len() == tabs.len(),
        tab_numbers(tabs)[i] == tabs[i].id,
        live_browsers(tabs).contains(tabs[i].browser_id),
        live_browsers(tabs).contains(b) ==> exists|k: int|
            0 <= k < tabs.len() && (#[trigger] tabs[k]).browser_id == b,
{
    let bs = tabs.map_values(|t: SummaryView| t.browser_id);
    assert(bs[i] == tabs[i].browser_id);
    assert(bs.contains(tabs[i].browser_id));
    if live_browsers(tabs).contains(b) {
        let k = choose|k: int| 0 <= k < bs.len() && bs[k] == b;
        assert(tabs[k].browser_id == b);
    }
}

/// Law: the title names the browser, then the mode, then the page where there is
/// one, and two pages of one mode differ in nothing but the page.
pub proof fn law_title_names_mode_and_page(label: Seq<char>, url: Seq<char>)
    ensures
        title_text(false, label, Seq::empty()) == "buffr — "@ + label,
        title_text(true, label, Seq::empty()) == "buffr — PRIVATE — "@ + label,
        url.len() > 0 ==> title_text(false, label, url) == title_text(false, label, Seq::empty())
            + " — "@ + url,
        url.len() > 0 ==> title_text(true, label, url) == title_text(true, label, Seq::empty())
            + " — "@ + url,
{
}

/// Law: no two modes have the same name.
pub proof fn law_modes_have_names_of_their_own(a: PageMode, b: PageMode)
    ensures
        label_of(a) == label_of(b) ==> a == b,
        a is Normal ==> label_of(a) == "NORMAL"@,
        a is Insert ==> label_of(a) == "INSERT"@,
        a is Visual ==> label_of(a) == "VISUAL"@,
        a is Command ==> label_of(a) == "COMMAND"@,
        a is Hint ==> label_of(a) == "HINT"@,
{
    reveal_strlit("NORMAL");
    reveal_strlit("VISUAL");
    reveal_strlit("COMMAND");
    reveal_strlit("HINT");
    reveal_strlit("INSERT");
    assert("NORMAL"@[0] == 'N' && "VISUAL"@[0] == 'V' && "COMMAND"@[0] == 'C' && "HINT"@[0] == 'H'
        && "INSERT"@[0] == 'I');
}

/// Law: after a refresh the title and the status line show the mode, the count and
/// the page at hand. The window gets a title exactly when it is another one, the
/// selection goes exactly when visual mode is left, and the strips are painted
/// exactly when the mode, the count or the title is another.
pub proof fn law_title_shows_what_is_at_hand(v: TitleView, mode: PageMode, count: Option<u32>)
    ensures
        ({
            let (w, step) = retitled(v, mode, count);
            &&& w.mode == mode && w.count_buffer == count
            &&& w.private == v.private && w.url == v.url
            &&& w.title == title_text(v.private, label_of(mode), v.url)
            &&& step.set_title <==> w.title != v.title
            &&& step.clear_selection <==> (v.mode is Visual && !(mode is Visual))
            &&& v.mode != mode ==> step.repaint
            &&& v.count_buffer != count ==> step.repaint
            &&& w.title != v.title ==> step.repaint
            &&& w == v ==> !step.repaint && !step.set_title
        }),
{
}

/// Law: a tab that is not pinned closes without a question, and without an engine
/// nothing happens; neither leaves a question open. While a question is open the
/// close goes through.
pub proof fn law_unpinned_tab_closes_at_once(id: u64, pending: Option<u64>, active: Option<(u64, bool)>)
    ensures
        close_step(None, true, Some((id, false))) == (None::<u64>, CloseTabStep::Close),
        close_step(None, true, None) == (None::<u64>, CloseTabStep::Close),
        close_step(pending, false, active) == (pending, CloseTabStep::Nothing),
        pending is Some ==> close_step(pending, true, active) == (pending, CloseTabStep::Close),
        close_answer(None, true) == (None::<u64>, PinnedCloseStep::Nothing),
        close_answer(None, false) == (None::<u64>, PinnedCloseStep::Nothing),
{
}

/// Law: the program ends with the last tab of all engines and with no other, and
/// never by a close that failed; it is told that tabs remain exactly where it does
/// not end.
pub proof fn law_program_ends_with_the_last_tab(still_open: Option<bool>, counts: Seq<usize>, i: int)
    requires
        0 <= i < counts.len(),
    ensures
        ({
            let r = close_outcome(still_open, counts);
            &&& r.remains == !r.exit
            &&& counts[i] > 0 ==> !r.exit
            &&& still_open is None ==> !r.exit
            &&& still_open is Some && (forall|k: int|
                0 <= k < counts.len() ==> #[trigger] counts[k] == 0) ==> r.exit
        }),
{
}

/// Law: on the new-tab page every new frame of the animation is shown as soon as
/// its time has come, and the next one is due a period later. Away from that page
/// nothing is shown and the next visit begins anew; without an engine it waits.
pub proof fn law_splash_runs_on_the_new_tab_page(
    s: SplashPush,
    tick: u64,
    now: u64,
    period: u64,
)
    requires
        s.next_push is None || s.next_push->0 <= now,
        now + period <= u64::MAX,
    ensures
        ({
            let (w, step) = splash_turn(s, Some(true), tick, now, period);
            let (away, none) = splash_turn(s, Some(false), tick, now, period);
            &&& s.last_tick != Some(tick) ==> step == SplashStep::Push(tick)
            &&& w.last_tick == Some(tick) && w.next_push == Some((now + period) as u64)
            &&& none is Nothing && away.last_tick is None && away.next_push is None
            &&& splash_turn(s, None, tick, now, period) == (s, SplashStep::Nothing)
            &&& splash_turn(away, Some(true), tick, now, period).1 == SplashStep::Push(tick)
        }),
{
}

/// Law: at first the mode is the normal one, nothing is counted, and the page is the
/// homepage.
pub proof fn law_title_starts_with_the_homepage(private: bool, homepage: Seq<char>)
    ensures
        untitled(private, homepage).mode is Normal,
        untitled(private, homepage).private == private,
        untitled(private, homepage).url == homepage,
        untitled(private, homepage).count_buffer is None,
        untitled(private, homepage).title.len() == 0,
{
}

/// Law: the models of the tabs, of the strip and of the title show each part of them, the
/// tabs in their order.
pub proof fn law_strip_is_seen_whole(v: Seq<TabSummary>, w: Seq<TabView>, t: TabSummary, x: TabView, y: TitleState)
    ensures
        summaries_view(v).len() == v.len(),
        forall|i: int| 0 <= i < v.len() ==> #[trigger] summaries_view(v)[i] == v[i]@,
        strip_view(w).len() == w.len(),
        forall|i: int| 0 <= i < w.len() ==> #[trigger] strip_view(w)[i] == w[i]@,
        t@.id == t.id,
        t@.browser_id == t.browser_id,
        t@.title == t.title@,
        t@.progress == t.progress,
        t@.pinned == t.pinned,
        t@.private == t.private,
        x@.progress == x.progress,
        x@.pinned == x.pinned,
        x@.private == x.private,
        x@.engine_badge == x.engine_badge,
        x@.hovered == x.hovered,
        x@.title == x.title@,
        x@.engine_label is Some <==> x.engine_label is Some,
        x.engine_label is Some ==> x@.engine_label->0 == x.engine_label->0@,
        x@.favicon is Some <==> x.favicon is Some,
        x.favicon is Some ==> x@.favicon->0.width == x.favicon->0.width,
        x.favicon is Some ==> x@.favicon->0.height == x.favicon->0.height,
        x.favicon is Some ==> x@.favicon->0.pixels == x.favicon->0.pixels@,
        y@.private == y.private,
        y@.mode == y.mode,
        y@.count_buffer == y.count_buffer,
        y@.url == y.url@,
        y@.title == y.title@,
{
}

} // verus!
