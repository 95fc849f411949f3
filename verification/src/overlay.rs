//! The input bar that floats over a page: the command line, the omnibar and the
//! find bar, and the find that runs while the user types.
use vstd::prelude::*;
use vstd::string::*;
use crate::keys::{Chord, Key, NamedKey};
use crate::tabs::PageMode;
use crate::text;
use crate::text::{chars_of, has_prefix, trim};

verus! {

/// A find starts when the user has stopped typing for this long.
pub const FIND_LIVE_DEBOUNCE: u64 = 300_000_000;

/// What an input bar is for.
#[derive(Debug, Clone, Copy, PartialEq, Eq, Structural)]
pub enum OverlayKind {
    Command,
    Omnibar,
    Find { forward: bool },
}

impl OverlayKind {
    /// What the bar shows before the input.
    pub open spec fn prefix_text(self) -> Seq<char> {
        match self {
            OverlayKind::Command => ":"@,
            OverlayKind::Omnibar => "> "@,
            OverlayKind::Find { forward } => if forward { "/ "@ } else { "? "@ },
        }
    }

    /// What the bar shows before the input.
    pub fn prefix(self) -> (r: &'static str)
        ensures
            r@ == self.prefix_text(),
    {
        match self {
            OverlayKind::Command => ":",
            OverlayKind::Omnibar => "> ",
            OverlayKind::Find { forward } => {
                if forward {
                    "/ "
                } else {
                    "? "
                }
            },
        }
    }
}

/// A change of the input.
#[derive(Debug, Clone, Copy, PartialEq, Eq, Structural)]
pub enum OverlayEdit {
    ClearLine,
    DeleteWord,
    /// The next suggestion.
    Down,
    /// The suggestion before.
    Up,
    Left,
    Right,
    Back,
    Text(char),
}

impl OverlayEdit {
    /// Whether the text changed, so that other suggestions fit.
    pub open spec fn changes_text(self) -> bool {
        self is ClearLine || self is DeleteWord || self is Back || self is Text
    }

    /// Whether the suggestions have to be made anew.
    pub fn refreshes_suggestions(self) -> (r: bool)
        ensures
            r == self.changes_text(),
    {
        match self {
            OverlayEdit::ClearLine => true,
            OverlayEdit::DeleteWord => true,
            OverlayEdit::Back => true,
            OverlayEdit::Text(_) => true,
            OverlayEdit::Down => false,
            OverlayEdit::Up => false,
            OverlayEdit::Left => false,
            OverlayEdit::Right => false,
        }
    }
}

/// What a key does to an input bar.
#[derive(Debug, Clone, Copy, PartialEq, Eq, Structural)]
pub enum OverlayStep {
    /// No bar is open.
    NotOurs,
    /// It stands for nothing and is swallowed.
    Swallow,
    Close,
    Confirm,
    /// Type the clipboard in.
    Paste,
    Edit(OverlayEdit),
    /// It does nothing and is swallowed.
    Ignore,
}

impl OverlayStep {
    /// Whether the bar has to be painted again.
    pub fn marks_chrome_dirty(self) -> (r: bool)
        ensures
            r == (self != OverlayStep::NotOurs && self != OverlayStep::Swallow),
    {
        match self {
            OverlayStep::NotOurs => false,
            OverlayStep::Swallow => false,
            _ => true,
        }
    }
}

/// What a chord does to an open bar. With shift held too, control does not count:
/// the character is typed.
pub open spec fn chord_step(ch: Chord) -> OverlayStep {
    let ctrl = ch.ctrl && !ch.shift;
    match ch.key {
        Key::Named(NamedKey::Esc) => OverlayStep::Close,
        Key::Named(NamedKey::CR) => OverlayStep::Confirm,
        Key::Named(NamedKey::Tab) => OverlayStep::Edit(OverlayEdit::Down),
        Key::Named(NamedKey::Down) => OverlayStep::Edit(OverlayEdit::Down),
        Key::Named(NamedKey::BackTab) => OverlayStep::Edit(OverlayEdit::Up),
        Key::Named(NamedKey::Up) => OverlayStep::Edit(OverlayEdit::Up),
        Key::Named(NamedKey::Left) => OverlayStep::Edit(OverlayEdit::Left),
        Key::Named(NamedKey::Right) => OverlayStep::Edit(OverlayEdit::Right),
        Key::Named(NamedKey::BS) => OverlayStep::Edit(OverlayEdit::Back),
        Key::Named(NamedKey::Space) => OverlayStep::Edit(OverlayEdit::Text(' ')),
        Key::Named(NamedKey::Other) => OverlayStep::Ignore,
        Key::Char(c) => if !ctrl {
            OverlayStep::Edit(OverlayEdit::Text(c))
        } else if c == 'c' {
            OverlayStep::Close
        } else if c == 'u' {
            OverlayStep::Edit(OverlayEdit::ClearLine)
        } else if c == 'w' {
            OverlayStep::Edit(OverlayEdit::DeleteWord)
        } else if c == 'v' {
            OverlayStep::Paste
        } else {
            OverlayStep::Ignore
        },
    }
}

/// What a key does to an input bar.
pub open spec fn bar_key(open: bool, chord: Option<Chord>) -> OverlayStep {
    if !open {
        OverlayStep::NotOurs
    } else {
        match chord {
            Some(ch) => chord_step(ch),
            None => OverlayStep::Swallow,
        }
    }
}

/// What a key does to an input bar; `chord` is `None` for a key that stands for
/// nothing. While a bar is open no key gets past it.
pub fn overlay_handle_key(open: bool, chord: Option<Chord>) -> (r: OverlayStep)
    ensures
        r == bar_key(open, chord),
{
    if !open {
        return OverlayStep::NotOurs;
    }
    let ch = match chord {
        Some(c) => c,
        None => {
            return OverlayStep::Swallow;
        },
    };
    match ch.key {
        Key::Named(n) => match n {
            NamedKey::Esc => OverlayStep::Close,
            NamedKey::CR => OverlayStep::Confirm,
            NamedKey::Tab => OverlayStep::Edit(OverlayEdit::Down),
            NamedKey::Down => OverlayStep::Edit(OverlayEdit::Down),
            NamedKey::BackTab => OverlayStep::Edit(OverlayEdit::Up),
            NamedKey::Up => OverlayStep::Edit(OverlayEdit::Up),
            NamedKey::Left => OverlayStep::Edit(OverlayEdit::Left),
            NamedKey::Right => OverlayStep::Edit(OverlayEdit::Right),
            NamedKey::BS => OverlayStep::Edit(OverlayEdit::Back),
            NamedKey::Space => OverlayStep::Edit(OverlayEdit::Text(' ')),
            NamedKey::Other => OverlayStep::Ignore,
        },
        Key::Char(c) => {
            if !ch.ctrl || ch.shift {
                OverlayStep::Edit(OverlayEdit::Text(c))
            } else if c == 'c' {
                OverlayStep::Close
            } else if c == 'u' {
                OverlayStep::Edit(OverlayEdit::ClearLine)
            } else if c == 'w' {
                OverlayStep::Edit(OverlayEdit::DeleteWord)
            } else if c == 'v' {
                OverlayStep::Paste
            } else {
                OverlayStep::Ignore
            }
        },
    }
}

/// A text on one line: without its line breaks.
pub open spec fn one_line(s: Seq<char>) -> Seq<char> {
    s.filter(|c: char| c != '\n' && c != '\r')
}

/// What pasting a text types into a bar.
pub fn pasted_chars(s: &str) -> (r: Vec<char>)
    ensures
        r@ == one_line(s@),
{
    let v = chars_of(s);
    let mut out: Vec<char> = Vec::new();
    let ghost keep = |c: char| c != '\n' && c != '\r';
    let mut i: usize = 0;
    proof {
        assert(v@.take(0) =~= Seq::empty());
        reveal(Seq::filter);
        assert(Seq::<char>::empty().filter(keep) =~= Seq::empty());
    }
    while i < v.len()
        invariant
            i <= v.len(),
            keep == (|c: char| c != '\n' && c != '\r'),
            out@ == v@.take(i as int).filter(keep),
        decreases v.len() - i,
    {
        proof {
            reveal(Seq::filter);
            assert(v@.take(i + 1).drop_last() =~= v@.take(i as int));
            assert(v@.take(i + 1).last() == v@[i as int]);
        }
        let c = v[i];
        if c != '\n' && c != '\r' {
            out.push(c);
        }
        i += 1;
    }
    proof {
        assert(v@.take(v@.len() as int) =~= v@);
    }
    out
}

/// Law: what is pasted holds no line break, and a text without one is pasted
/// whole.
pub proof fn law_paste_stays_on_one_line(s: Seq<char>)
    ensures
        forall|i: int|
            0 <= i < one_line(s).len() ==> one_line(s)[i] != '\n' && one_line(s)[i] != '\r',
        (forall|i: int| 0 <= i < s.len() ==> s[i] != '\n' && s[i] != '\r') ==> one_line(s) == s,
    decreases s.len(),
{
    reveal(Seq::filter);
    if s.len() > 0 {
        law_paste_stays_on_one_line(s.drop_last());
        assert(s.drop_last().push(s.last()) =~= s);
    }
}

/// A find as the status line shows it.
#[derive(Debug)]
pub struct FindStatus {
    pub query: String,
    /// The match that is selected.
    pub current: u32,
    /// How many there are.
    pub total: u32,
}

/// The contents of a [`FindStatus`].
pub struct FindStatusView {
    pub query: Seq<char>,
    pub current: u32,
    pub total: u32,
}

impl View for FindStatus {
    type V = FindStatusView;

    open spec fn view(&self) -> FindStatusView {
        FindStatusView { query: self.query@, current: self.current, total: self.total }
    }
}

/// A find that has not found anything yet.
pub open spec fn fresh_find(query: Seq<char>) -> FindStatusView {
    FindStatusView { query, current: 0, total: 0 }
}

/// What to tell the engine about a find.
#[derive(Debug)]
pub enum FindStep {
    Nothing,
    /// Drop the highlights.
    Stop,
    Start { query: String, forward: bool },
}

/// A step without its string.
pub enum FindStepView {
    Nothing,
    Stop,
    Start { query: Seq<char>, forward: bool },
}

impl View for FindStep {
    type V = FindStepView;

    open spec fn view(&self) -> FindStepView {
        match self {
            FindStep::Nothing => FindStepView::Nothing,
            FindStep::Stop => FindStepView::Stop,
            FindStep::Start { query, forward } => FindStepView::Start {
                query: query@,
                forward: *forward,
            },
        }
    }
}

/// Where the suggestions of a bar come from.
#[derive(Debug, Clone, Copy, PartialEq, Eq, Structural)]
pub enum SuggestionSource {
    /// There is no bar.
    Nowhere,
    Commands,
    Pages,
    /// The bar has none.
    Empty,
}

/// What opening a bar leads to.
#[derive(Debug, Clone, Copy, PartialEq, Eq, Structural)]
pub struct OpenStep {
    pub source: SuggestionSource,
    /// The mode that the keymap enters, if it leaves its own.
    pub mode: Option<PageMode>,
}

/// What confirming a bar leads to.
#[derive(Debug, Clone, Copy, PartialEq, Eq, Structural)]
pub struct SubmitStep {
    /// The bar whose text is dispatched.
    pub kind: OverlayKind,
    /// The mode that the keymap enters.
    pub mode: PageMode,
}

/// What closing a bar leads to.
#[derive(Debug, Clone, Copy, PartialEq, Eq, Structural)]
pub struct CloseStep {
    /// The mode that the keymap enters.
    pub mode: PageMode,
    pub stop_find: bool,
    /// The tab that was opened along with the bar.
    pub close_tab: Option<u64>,
}

/// The bar and the find.
pub struct Overlay {
    pub kind: Option<OverlayKind>,
    /// A tab that goes with the bar if the bar is cancelled.
    pub cancel_closes_tab: Option<u64>,
    pub find_query: Option<FindStatus>,
    /// When the find for what has been typed starts.
    pub find_live_due: Option<u64>,
    /// A find asked for on the command line of the program.
    pub pending_find: Option<String>,
    /// When that one starts.
    pub find_smoke_at: Option<u64>,
}

/// The contents of an [`Overlay`].
pub struct OverlayView {
    pub kind: Option<OverlayKind>,
    pub cancel_closes_tab: Option<u64>,
    pub find_query: Option<FindStatusView>,
    pub find_live_due: Option<u64>,
    pub pending_find: Option<Seq<char>>,
    pub find_smoke_at: Option<u64>,
}

impl View for Overlay {
    type V = OverlayView;

    open spec fn view(&self) -> OverlayView {
        OverlayView {
            kind: self.kind,
            cancel_closes_tab: self.cancel_closes_tab,
            find_query: match self.find_query {
                Some(f) => Some(f@),
                None => None,
            },
            find_live_due: self.find_live_due,
            pending_find: match self.pending_find {
                Some(p) => Some(p@),
                None => None,
            },
            find_smoke_at: self.find_smoke_at,
        }
    }
}

/// No bar, and a find that was asked for.
pub open spec fn no_bar(pending_find: Option<Seq<char>>, find_smoke_at: Option<u64>) -> OverlayView {
    OverlayView {
        kind: None,
        cancel_closes_tab: None,
        find_query: None,
        find_live_due: None,
        pending_find,
        find_smoke_at,
    }
}

/// The moment at which a live find starts.
pub open spec fn live_due(now: u64) -> u64 {
    if now + FIND_LIVE_DEBOUNCE > u64::MAX {
        u64::MAX
    } else {
        (now + FIND_LIVE_DEBOUNCE) as u64
    }
}

/// The text of a bar changed.
pub open spec fn refreshed(v: OverlayView, now: u64) -> (OverlayView, SuggestionSource) {
    match v.kind {
        None => (v, SuggestionSource::Nowhere),
        Some(OverlayKind::Command) => (v, SuggestionSource::Commands),
        Some(OverlayKind::Omnibar) => (v, SuggestionSource::Pages),
        Some(OverlayKind::Find { .. }) => (
            OverlayView { find_live_due: Some(live_due(now)), ..v },
            SuggestionSource::Empty,
        ),
    }
}

/// The mode that the keymap enters when a bar opens: a find bar takes it to the
/// command mode, the others leave it where it is.
pub open spec fn mode_on_opening(kind: OverlayKind) -> Option<PageMode> {
    match kind {
        OverlayKind::Find { .. } => Some(PageMode::Command),
        _ => None,
    }
}

/// A bar of a kind opened.
pub open spec fn opened(v: OverlayView, kind: OverlayKind, now: u64) -> (OverlayView, OpenStep) {
    let (w, source) = refreshed(OverlayView { kind: Some(kind), ..v }, now);
    (w, OpenStep { source, mode: mode_on_opening(kind) })
}

/// The bar was cancelled; `tab_count` is `None` without an engine.
pub open spec fn cancelled(v: OverlayView, tab_count: Option<usize>) -> (
    OverlayView,
    Option<CloseStep>,
) {
    match v.kind {
        None => (v, None),
        Some(kind) => (
            OverlayView {
                kind: None,
                cancel_closes_tab: None,
                find_live_due: None,
                find_query: if kind is Find { None } else { v.find_query },
                ..v
            },
            Some(
                CloseStep {
                    mode: PageMode::Normal,
                    stop_find: kind is Find,
                    close_tab: if tab_count is Some && tab_count->0 > 1 {
                        v.cancel_closes_tab
                    } else {
                        None
                    },
                },
            ),
        ),
    }
}

/// The bar was confirmed.
pub open spec fn confirmed(v: OverlayView) -> (OverlayView, Option<SubmitStep>) {
    match v.kind {
        None => (v, None),
        Some(kind) => (
            OverlayView { kind: None, cancel_closes_tab: None, find_live_due: None, ..v },
            Some(SubmitStep { kind, mode: PageMode::Normal }),
        ),
    }
}

/// Time passed while `value` is in the bar.
pub open spec fn live_find(v: OverlayView, now: u64, value: Seq<char>, has_engine: bool) -> (
    OverlayView,
    FindStepView,
) {
    if v.find_live_due is None || now < v.find_live_due->0 {
        (v, FindStepView::Nothing)
    } else {
        let w = OverlayView { find_live_due: None, ..v };
        let query = text::trimmed(value);
        match v.kind {
            Some(OverlayKind::Find { forward }) => if !has_engine {
                (w, FindStepView::Nothing)
            } else if query.len() == 0 {
                (OverlayView { find_query: None, ..w }, FindStepView::Stop)
            } else {
                (
                    OverlayView { find_query: Some(fresh_find(query)), ..w },
                    FindStepView::Start { query, forward },
                )
            },
            _ => (w, FindStepView::Nothing),
        }
    }
}

/// A find bar with `value` in it was confirmed.
pub open spec fn submitted(v: OverlayView, value: Seq<char>, forward: bool, has_engine: bool) -> (
    OverlayView,
    FindStepView,
) {
    let query = text::trimmed(value);
    if query.len() == 0 {
        (v, FindStepView::Nothing)
    } else {
        (
            OverlayView { find_query: Some(fresh_find(query)), ..v },
            if has_engine {
                FindStepView::Start { query, forward }
            } else {
                FindStepView::Nothing
            },
        )
    }
}

/// The engine counted the matches: without a query there is nothing to count.
pub open spec fn counted(v: OverlayView, current: u32, total: u32) -> (OverlayView, bool) {
    let query = match v.find_query {
        Some(f) => Some(f.query),
        None => v.pending_find,
    };
    match query {
        Some(query) => (
            OverlayView { find_query: Some(FindStatusView { query, current, total }), ..v },
            true,
        ),
        None => (v, false),
    }
}

/// The find that was asked for on the command line of the program.
pub open spec fn requested_find(v: OverlayView, now: u64, has_engine: bool) -> (
    OverlayView,
    FindStepView,
) {
    if v.find_smoke_at is None || now < v.find_smoke_at->0 {
        (v, FindStepView::Nothing)
    } else {
        let w = OverlayView { find_smoke_at: None, pending_find: None, ..v };
        match v.pending_find {
            Some(query) => if has_engine {
                (
                    OverlayView { find_query: Some(fresh_find(query)), ..w },
                    FindStepView::Start { query, forward: true },
                )
            } else {
                (w, FindStepView::Nothing)
            },
            None => (w, FindStepView::Nothing),
        }
    }
}

/// What the omnibar holds when it opens on a page.
pub open spec fn prefill_text(url: Seq<char>) -> Seq<char> {
    if "buffr:"@.is_prefix_of(url) { Seq::empty() } else { url }
}

/// A copy of a string.
fn copied(s: &String) -> (r: String)
    ensures
        r@ == s@,
{
    s.clone()
}

impl Overlay {
    /// No bar. A find that was asked for starts at `find_smoke_at`.
    pub fn new(pending_find: Option<String>, find_smoke_at: Option<u64>) -> (r: Self)
        ensures
            r@ == no_bar(
                match pending_find {
                    Some(p) => Some(p@),
                    None => None,
                },
                find_smoke_at,
            ),
    {
        Overlay {
            kind: None,
            cancel_closes_tab: None,
            find_query: None,
            find_live_due: None,
            pending_find,
            find_smoke_at,
        }
    }

    /// The text of the bar changed: where its suggestions come from now. A find
    /// is put off until the user pauses.
    pub fn refresh_overlay_suggestions(&mut self, now: u64) -> (r: SuggestionSource)
        ensures
            (final(self)@, r) == refreshed(old(self)@, now),
    {
        match self.kind {
            None => SuggestionSource::Nowhere,
            Some(OverlayKind::Command) => SuggestionSource::Commands,
            Some(OverlayKind::Omnibar) => SuggestionSource::Pages,
            Some(OverlayKind::Find { .. }) => {
                self.find_live_due = Some(now.saturating_add(FIND_LIVE_DEBOUNCE));
                SuggestionSource::Empty
            },
        }
    }

    /// Open the command line.
    pub fn open_command_line(&mut self, now: u64) -> (r: OpenStep)
        ensures
            (final(self)@, r) == opened(old(self)@, OverlayKind::Command, now),
    {
        self.kind = Some(OverlayKind::Command);
        OpenStep { source: self.refresh_overlay_suggestions(now), mode: None }
    }

    /// Open the omnibar. What it holds is [`omnibar_prefill`].
    pub fn open_omnibar(&mut self, now: u64) -> (r: OpenStep)
        ensures
            (final(self)@, r) == opened(old(self)@, OverlayKind::Omnibar, now),
    {
        self.kind = Some(OverlayKind::Omnibar);
        OpenStep { source: self.refresh_overlay_suggestions(now), mode: None }
    }

    /// Open the find bar. The keymap goes to the command mode.
    pub fn open_find(&mut self, forward: bool, now: u64) -> (r: OpenStep)
        ensures
            (final(self)@, r) == opened(old(self)@, OverlayKind::Find { forward }, now),
    {
        self.kind = Some(OverlayKind::Find { forward });
        OpenStep {
            source: self.refresh_overlay_suggestions(now),
            mode: Some(PageMode::Command),
        }
    }

    /// Cancel the bar. The keymap goes back to the normal mode, a find stops, and
    /// a tab that was opened along with the bar is closed unless it is the only
    /// one.
    pub fn close_overlay(&mut self, tab_count: Option<usize>) -> (r: Option<CloseStep>)
        ensures
            (final(self)@, r) == cancelled(old(self)@, tab_count),
    {
        let kind = match self.kind {
            Some(k) => k,
            None => {
                return None;
            },
        };
        let stop_find = match kind {
            OverlayKind::Find { .. } => true,
            _ => false,
        };
        self.find_live_due = None;
        if stop_find {
            self.find_query = None;
        }
        self.kind = None;
        let tab = self.cancel_closes_tab;
        self.cancel_closes_tab = None;
        let close_tab = match tab_count {
            Some(n) => {
                if n > 1 {
                    tab
                } else {
                    None
                }
            },
            None => None,
        };
        Some(CloseStep { mode: PageMode::Normal, stop_find, close_tab })
    }

    /// Confirm the bar: what is to be dispatched. The keymap goes back to the
    /// normal mode, and a tab that was opened along with the bar stays.
    pub fn confirm_overlay(&mut self) -> (r: Option<SubmitStep>)
        ensures
            (final(self)@, r) == confirmed(old(self)@),
    {
        let kind = match self.kind {
            Some(k) => k,
            None => {
                return None;
            },
        };
        self.kind = None;
        self.cancel_closes_tab = None;
        self.find_live_due = None;
        Some(SubmitStep { kind, mode: PageMode::Normal })
    }

    /// Start the find for what has been typed, once the user has paused.
    pub fn maybe_dispatch_find_live(&mut self, now: u64, value: &str, has_engine: bool) -> (r:
        FindStep)
        ensures
            (final(self)@, r@) == live_find(old(self)@, now, value@, has_engine),
    {
        match self.find_live_due {
            Some(due) => {
                if now < due {
                    return FindStep::Nothing;
                }
            },
            None => {
                return FindStep::Nothing;
            },
        }
        self.find_live_due = None;
        let forward = match self.kind {
            Some(OverlayKind::Find { forward }) => forward,
            _ => {
                return FindStep::Nothing;
            },
        };
        if !has_engine {
            return FindStep::Nothing;
        }
        let query = trim(value);
        if query.as_str().is_empty() {
            self.find_query = None;
            return FindStep::Stop;
        }
        let status = FindStatus { query: copied(&query), current: 0, total: 0 };
        self.find_query = Some(status);
        FindStep::Start { query, forward }
    }

    /// Start the find of a confirmed find bar.
    pub fn dispatch_find(&mut self, value: &str, forward: bool, has_engine: bool) -> (r: FindStep)
        ensures
            (final(self)@, r@) == submitted(old(self)@, value@, forward, has_engine),
    {
        let query = trim(value);
        if query.as_str().is_empty() {
            return FindStep::Nothing;
        }
        let status = FindStatus { query: copied(&query), current: 0, total: 0 };
        self.find_query = Some(status);
        if has_engine {
            FindStep::Start { query, forward }
        } else {
            FindStep::Nothing
        }
    }

    /// Take in how many matches the engine counted. Returns whether the status
    /// line changed: without a query there is nothing to count.
    pub fn pump_find_results(&mut self, current: u32, total: u32) -> (changed: bool)
        ensures
            (final(self)@, changed) == counted(old(self)@, current, total),
    {
        let query: Option<String> = match &self.find_query {
            Some(f) => Some(copied(&f.query)),
            None => match &self.pending_find {
                Some(p) => Some(copied(p)),
                None => None,
            },
        };
        match query {
            Some(query) => {
                self.find_query = Some(FindStatus { query, current, total });
                true
            },
            None => false,
        }
    }

    /// Start the find that was asked for on the command line of the program,
    /// once, when its time has come. Without an engine it is dropped.
    pub fn maybe_dispatch_find_smoke(&mut self, now: u64, has_engine: bool) -> (r: FindStep)
        ensures
            (final(self)@, r@) == requested_find(old(self)@, now, has_engine),
    {
        match self.find_smoke_at {
            Some(t) => {
                if now < t {
                    return FindStep::Nothing;
                }
            },
            None => {
                return FindStep::Nothing;
            },
        }
        self.find_smoke_at = None;
        let pending = self.pending_find.take();
        if !has_engine {
            return FindStep::Nothing;
        }
        match pending {
            Some(query) => {
                let status = FindStatus { query: copied(&query), current: 0, total: 0 };
                self.find_query = Some(status);
                FindStep::Start { query, forward: true }
            },
            None => FindStep::Nothing,
        }
    }
}

/// What the omnibar holds when it opens on a page: its address, unless it is one
/// of the browser's own pages.
pub fn omnibar_prefill(url: &str) -> (r: String)
    ensures
        r@ == prefill_text(url@),
{
    if has_prefix(url, "buffr:") {
        String::new()
    } else {
        url.to_string()
    }
}

/// Law: while the user keeps typing into the find bar no find starts, and it
/// starts once they pause.
pub proof fn law_find_waits_for_a_pause(v: OverlayView, typed: u64, now: u64, value: Seq<char>)
    requires
        v.kind matches Some(OverlayKind::Find { .. }),
        text::trimmed(value).len() > 0,
        typed + FIND_LIVE_DEBOUNCE <= u64::MAX,
    ensures
        ({
            let (w, _) = refreshed(v, typed);
            let (after, step) = live_find(w, now, value, true);
            &&& now < typed + FIND_LIVE_DEBOUNCE ==> (after, step) == (w, FindStepView::Nothing)
            &&& now >= typed + FIND_LIVE_DEBOUNCE ==> step is Start && after.find_live_due is None
        }),
{
}

/// Law: a find that has started does not start again by itself.
pub proof fn law_find_starts_once(v: OverlayView, now: u64, later: u64, value: Seq<char>)
    requires
        v.find_live_due is Some,
        v.find_live_due->0 <= now,
    ensures
        ({
            let (w, _) = live_find(v, now, value, true);
            live_find(w, later, value, true) == (w, FindStepView::Nothing)
        }),
{
}

/// Law: the last tab is never closed by cancelling a bar.
pub proof fn law_cancel_keeps_the_last_tab(v: OverlayView, tab_count: usize)
    requires
        tab_count <= 1,
    ensures
        ({
            let (_, step) = cancelled(v, Some(tab_count));
            step matches Some(s) ==> s.close_tab is None
        }),
{
}

/// Law: a find bar takes the keymap to the command mode when it opens, no other
/// bar does, and whichever bar was open, cancelling or confirming it brings the
/// keymap back to the normal mode.
pub proof fn law_bars_set_the_mode(
    v: OverlayView,
    kind: OverlayKind,
    now: u64,
    tab_count: Option<usize>,
)
    ensures
        ({
            let (w, open) = opened(v, kind, now);
            &&& open.mode == if kind is Find { Some(PageMode::Command) } else { None }
            &&& cancelled(w, tab_count).1 matches Some(s) && s.mode == PageMode::Normal
            &&& confirmed(w).1 matches Some(s) && s.mode == PageMode::Normal && s.kind == kind
        }),
{
}

/// Law: whether a bar is cancelled or confirmed, it is gone, no find is due, and
/// no later bar takes the tab with it.
pub proof fn law_closed_bar_leaves_nothing(v: OverlayView, tab_count: Option<usize>)
    requires
        v.kind is Some,
    ensures
        ({
            let (a, _) = cancelled(v, tab_count);
            let (b, _) = confirmed(v);
            &&& a.kind is None && a.find_live_due is None && a.cancel_closes_tab is None
            &&& b.kind is None && b.find_live_due is None && b.cancel_closes_tab is None
        }),
{
}

/// Law: a confirmed find runs in the direction that its bar was opened with, and
/// looks for exactly what was typed, without the white space around it: the text
/// up to its own first and last character that are none. The status line shows
/// that query with nothing found yet; a blank text starts nothing.
pub proof fn law_find_keeps_its_direction(
    v: OverlayView,
    forward: bool,
    now: u64,
    value: Seq<char>,
    has_engine: bool,
)
    ensures
        ({
            let (w, _) = opened(v, OverlayKind::Find { forward }, now);
            let (x, submit) = confirmed(w);
            let (y, step) = submitted(x, value, submit->0.kind->forward, has_engine);
            let query = text::trimmed(value);
            &&& submit is Some && submit->0.kind is Find
            &&& query.len() > 0 && has_engine ==> step == (FindStepView::Start { query, forward })
            &&& query.len() > 0 && !has_engine ==> step is Nothing
            &&& query.len() > 0 ==> y.find_query == Some(
                FindStatusView { query, current: 0, total: 0 },
            )
            &&& query.len() == 0 ==> step is Nothing && y == x
            &&& value.len() > 0 && !text::white_space(value[0]) && !text::white_space(value.last())
                && has_engine ==> step == (FindStepView::Start { query: value, forward })
            &&& y.kind is None && y.find_live_due is None
        }),
{
    text::law_trim_takes_only_white_space(value);
}

/// Law: the find that runs while the user types has the direction of the open bar
/// and looks for what is in it; an emptied bar stops it, and in any other bar
/// nothing is looked for.
pub proof fn law_live_find_looks_for_what_is_typed(
    v: OverlayView,
    kind: OverlayKind,
    typed: u64,
    now: u64,
    value: Seq<char>,
)
    requires
        typed + 300_000_000 <= now,
    ensures
        ({
            let (w, _) = opened(OverlayView { find_live_due: None, ..v }, kind, typed);
            let (x, step) = live_find(w, now, value, true);
            let query = text::trimmed(value);
            &&& kind is Find && query.len() > 0 ==> {
                &&& step == (FindStepView::Start { query, forward: kind->forward })
                &&& x.find_query == Some(FindStatusView { query, current: 0, total: 0 })
            }
            &&& kind is Find && query.len() == 0 ==> step is Stop && x.find_query is None
            &&& !(kind is Find) ==> step is Nothing && x == w
            &&& x.kind == Some(kind) && x.find_live_due is None
            &&& x.cancel_closes_tab == v.cancel_closes_tab && x.pending_find == v.pending_find
        }),
{
}

/// Law: a live find waits 300 milliseconds after the last key, and one that is not
/// due, or that no engine can run, changes nothing on the status line.
pub proof fn law_live_find_waits(v: OverlayView, typed: u64, now: u64, value: Seq<char>)
    requires
        v.kind is Some,
        v.kind->0 is Find,
        typed + 300_000_000 <= u64::MAX,
    ensures
        ({
            let (w, source) = refreshed(v, typed);
            &&& source is Empty
            &&& now < typed + 300_000_000 ==> live_find(w, now, value, true) == (
                w,
                FindStepView::Nothing,
            )
            &&& live_find(w, now, value, false).1 is Nothing
            &&& live_find(w, now, value, false).0.find_query == v.find_query
        }),
{
}

/// Law: opening a bar shows that bar and keeps the rest, a tab that goes with it
/// included. The command line is offered commands, the omnibar pages, the find bar
/// nothing; only the find bar starts the clock of a find.
pub proof fn law_opened_bar_is_shown(v: OverlayView, kind: OverlayKind, now: u64)
    ensures
        ({
            let (w, step) = opened(v, kind, now);
            &&& w.kind == Some(kind)
            &&& w == (OverlayView { kind: w.kind, find_live_due: w.find_live_due, ..v })
            &&& kind is Command ==> step.source is Commands && w.find_live_due == v.find_live_due
            &&& kind is Omnibar ==> step.source is Pages && w.find_live_due == v.find_live_due
            &&& kind is Find ==> step.source is Empty && w.find_live_due is Some
        }),
{
}

/// Law: cancelling closes the bar. The find, with its highlights and its place on
/// the status line, goes with a find bar and stays with any other; a tab that was
/// opened along with the bar is closed unless it is the only one; without a bar
/// nothing happens.
pub proof fn law_cancelling_takes_the_find_along(v: OverlayView, tab_count: Option<usize>)
    ensures
        ({
            let (w, step) = cancelled(v, tab_count);
            &&& w.kind is None
            &&& v.kind is None ==> step is None && w == v
            &&& v.kind is Some ==> {
                &&& step is Some
                &&& step->0.stop_find <==> v.kind->0 is Find
                &&& v.kind->0 is Find ==> w.find_query is None
                &&& !(v.kind->0 is Find) ==> w.find_query == v.find_query
                &&& tab_count is Some && tab_count->0 >= 2 ==> step->0.close_tab
                    == v.cancel_closes_tab
                &&& tab_count is None || tab_count->0 <= 1 ==> step->0.close_tab is None
                &&& w.pending_find == v.pending_find && w.find_smoke_at == v.find_smoke_at
            }
        }),
{
}

/// Law: confirming hands on the bar that was open, keeps what the status line shows
/// and the tab that was opened along with the bar; without a bar nothing happens.
pub proof fn law_confirming_hands_the_bar_on(v: OverlayView)
    ensures
        ({
            let (w, submit) = confirmed(v);
            &&& w.kind is None
            &&& v.kind is None ==> submit is None && w == v
            &&& v.kind is Some ==> submit is Some && Some(submit->0.kind) == v.kind
            &&& w.find_query == v.find_query && w.pending_find == v.pending_find && w.find_smoke_at
                == v.find_smoke_at
        }),
{
}

/// Law: a find asked for on the command line of the program starts once, forwards,
/// with its own words, when its time has come; before that nothing happens, and
/// without an engine it is dropped.
pub proof fn law_requested_find_starts_once(v: OverlayView, now: u64, later: u64, has_engine: bool)
    requires
        v.find_smoke_at is Some,
    ensures
        ({
            let (w, step) = requested_find(v, now, has_engine);
            let due = v.find_smoke_at->0 <= now;
            &&& !due ==> w == v && step is Nothing
            &&& due ==> w.find_smoke_at is None && w.pending_find is None
            &&& due ==> requested_find(w, later, has_engine) == (w, FindStepView::Nothing)
            &&& due && has_engine && v.pending_find is Some ==> {
                &&& step == (FindStepView::Start { query: v.pending_find->0, forward: true })
                &&& w.find_query == Some(
                    FindStatusView { query: v.pending_find->0, current: 0, total: 0 },
                )
            }
            &&& !has_engine ==> step is Nothing && w.find_query == v.find_query
            &&& w.kind == v.kind && w.cancel_closes_tab == v.cancel_closes_tab && w.find_live_due
                == v.find_live_due
        }),
{
}

/// Law: the status line shows the matches that the engine counted, for the query
/// that runs; where none runs and none was asked for, nothing is shown.
pub proof fn law_matches_are_shown_for_the_query(v: OverlayView, current: u32, total: u32)
    ensures
        ({
            let (w, changed) = counted(v, current, total);
            &&& changed <==> (v.find_query is Some || v.pending_find is Some)
            &&& !changed ==> w == v
            &&& changed ==> {
                let f = w.find_query->0;
                &&& w.find_query is Some
                &&& f.current == current && f.total == total
                &&& v.find_query is Some ==> f.query == v.find_query->0.query
                &&& v.find_query is None ==> f.query == v.pending_find->0
                &&& w == (OverlayView { find_query: w.find_query, ..v })
            }
        }),
{
}

/// Law: the omnibar starts with the address of the page, and empty on a page of
/// the browser's own, whatever follows its scheme.
pub proof fn law_omnibar_starts_with_the_page(url: Seq<char>, rest: Seq<char>)
    ensures
        prefill_text(url) == url || prefill_text(url).len() == 0,
        prefill_text("buffr:"@ + rest).len() == 0,
        url.len() > 0 && url[0] != 'b' ==> prefill_text(url) == url,
{
    reveal_strlit("buffr:");
    let own = "buffr:"@ + rest;
    assert(own.subrange(0, "buffr:"@.len() as int) =~= "buffr:"@);
    if url.len() > 0 && url[0] != 'b' && "buffr:"@.is_prefix_of(url) {
        assert(url.subrange(0, "buffr:"@.len() as int)[0] == url[0]);
        assert("buffr:"@[0] == 'b');
    }
}

/// Law: while a bar is open no key gets past it, and while none is open every key
/// does.
pub proof fn law_open_bar_takes_every_key(open: bool, chord: Option<Chord>)
    ensures
        bar_key(open, chord) is NotOurs <==> !open,
        open && chord is None ==> bar_key(open, chord) is Swallow,
        open && chord is Some ==> !(bar_key(open, chord) is Swallow),
{
}

/// Law: escape, and control with `c`, close a bar, enter confirms it, and a
/// character that is typed without control, or with shift too, is entered as it
/// is. No other key closes or confirms a bar.
pub proof fn law_bar_keys(ch: Chord)
    ensures
        ({
            let step = bar_key(true, Some(ch));
            let control = ch.ctrl && !ch.shift;
            &&& step is Close <==> (ch.key == Key::Named(NamedKey::Esc) || (control && ch.key
                == Key::Char('c')))
            &&& step is Confirm <==> ch.key == Key::Named(NamedKey::CR)
            &&& step is Paste <==> (control && ch.key == Key::Char('v'))
            &&& ch.key is Char && !control ==> step == OverlayStep::Edit(
                OverlayEdit::Text(ch.key->Char_0),
            )
            &&& ch.key == Key::Named(NamedKey::Space) ==> step == OverlayStep::Edit(
                OverlayEdit::Text(' '),
            )
            &&& step == OverlayStep::Edit(OverlayEdit::ClearLine) <==> (control && ch.key
                == Key::Char('u'))
            &&& step == OverlayStep::Edit(OverlayEdit::DeleteWord) <==> (control && ch.key
                == Key::Char('w'))
            &&& step == OverlayStep::Edit(OverlayEdit::Back) <==> ch.key == Key::Named(NamedKey::BS)
            &&& step == OverlayStep::Edit(OverlayEdit::Left) <==> ch.key == Key::Named(
                NamedKey::Left,
            )
            &&& step == OverlayStep::Edit(OverlayEdit::Right) <==> ch.key == Key::Named(
                NamedKey::Right,
            )
            &&& step == OverlayStep::Edit(OverlayEdit::Down) <==> (ch.key == Key::Named(
                NamedKey::Down,
            ) || ch.key == Key::Named(NamedKey::Tab))
            &&& step == OverlayStep::Edit(OverlayEdit::Up) <==> (ch.key == Key::Named(NamedKey::Up)
                || ch.key == Key::Named(NamedKey::BackTab))
        }),
{
}

/// Law: the suggestions are made anew exactly where a key can change the text.
pub proof fn law_moving_keeps_the_suggestions(e: OverlayEdit)
    ensures
        e.changes_text() <==> !(e is Down || e is Up || e is Left || e is Right),
{
}

/// Law: each bar shows a sign of its own, so that the direction of a find can be
/// read off it.
pub proof fn law_bars_show_signs_of_their_own(a: OverlayKind, b: OverlayKind)
    ensures
        a.prefix_text() == b.prefix_text() ==> a == b,
        a is Command ==> a.prefix_text()[0] == ':',
        a is Omnibar ==> a.prefix_text()[0] == '>',
        a == (OverlayKind::Find { forward: true }) ==> a.prefix_text()[0] == '/',
        a == (OverlayKind::Find { forward: false }) ==> a.prefix_text()[0] == '?',
{
    reveal_strlit(":");
    reveal_strlit("> ");
    reveal_strlit("/ ");
    reveal_strlit("? ");
    assert(":"@[0] == ':' && "> "@[0] == '>' && "/ "@[0] == '/' && "? "@[0] == '?');
}

/// Law: at first no bar is open and nothing is looked for but what was asked for at the
/// start.
pub proof fn law_no_bar_is_open_at_first(asked: Option<Seq<char>>, at: Option<u64>)
    ensures
        no_bar(asked, at).kind is None,
        no_bar(asked, at).cancel_closes_tab is None,
        no_bar(asked, at).find_query is None,
        no_bar(asked, at).find_live_due is None,
        no_bar(asked, at).pending_find == asked,
        no_bar(asked, at).find_smoke_at == at,
{
}

/// Law: the models of the bar and of the find show each part of them.
pub proof fn law_bar_is_seen_whole(x: Overlay, f: FindStatus, q: String, forward: bool)
    ensures
        x@.kind == x.kind,
        x@.cancel_closes_tab == x.cancel_closes_tab,
        x@.find_live_due == x.find_live_due,
        x@.find_smoke_at == x.find_smoke_at,
        x@.find_query is Some <==> x.find_query is Some,
        x.find_query is Some ==> x@.find_query->0 == x.find_query->0@,
        x@.pending_find is Some <==> x.pending_find is Some,
        x.pending_find is Some ==> x@.pending_find->0 == x.pending_find->0@,
        f@.query == f.query@,
        f@.current == f.current,
        f@.total == f.total,
        (FindStep::Start { query: q, forward })@ == (FindStepView::Start { query: q@, forward }),
        FindStep::Stop@ is Stop,
        FindStep::Nothing@ is Nothing,
{
}

/// Law: what is typed is looked for three tenths of a second later, as far as the
/// clock goes.
pub proof fn law_live_find_is_due_a_little_later(now: u64)
    ensures
        now + 300_000_000 <= u64::MAX ==> live_due(now) == now + 300_000_000,
        now + 300_000_000 > u64::MAX ==> live_due(now) == u64::MAX,
{
}

/// Law: each bar has suggestions of its own: commands the commands, the omnibar the
/// pages, a find none, and no bar nothing at all. Only the find is looked for anew.
pub proof fn law_each_bar_has_its_suggestions(v: OverlayView, now: u64)
    ensures
        ({
            let (w, source) = refreshed(v, now);
            &&& source is Nowhere <==> v.kind is None
            &&& source is Commands <==> v.kind == Some(OverlayKind::Command)
            &&& source is Pages <==> v.kind == Some(OverlayKind::Omnibar)
            &&& source is Empty <==> v.kind is Some && v.kind->0 is Find
            &&& !(source is Empty) ==> w == v
            &&& w == (OverlayView { find_live_due: w.find_live_due, ..v })
        }),
{
}

} // verus!
