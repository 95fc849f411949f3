//! What commands, key bindings and the omnibar do to tabs and pages.
use vstd::prelude::*;
use vstd::string::*;
use crate::edit_focus;
use crate::edit_focus::{EditFocus, EditState};
use crate::overlay;
use crate::overlay::{FindStatus, FindStep, Overlay};
use crate::text;
use crate::text::{same_text, trim};

verus! {

/// What a text typed as an address is.
#[derive(Debug, Clone, Copy, PartialEq, Eq, Structural)]
pub enum InputKind {
    Url,
    Host,
    Search,
}

/// An action bound to a key.
#[derive(Debug)]
pub enum PageAction {
    TabNewRight,
    TabNewLeft,
    TabNew,
    TabClose,
    TabNext,
    TabPrev,
    PinTab,
    PasteUrl { after: bool },
    FocusFirstInput,
    ExitInsertMode,
    YankSelection,
    /// Show the page in another engine.
    Engine(String),
    OpenDevTools,
    ZoomIn,
    ZoomOut,
    ZoomReset,
    Reload,
    HistoryBack,
    HistoryForward,
    /// An action that the engine knows, by number.
    Other(u32),
}

/// How to zoom.
#[derive(Debug, Clone, Copy, PartialEq, Eq, Structural)]
pub enum Zoom {
    In,
    Out,
    Reset,
}

/// What an action leads to.
#[derive(Debug)]
pub enum ActionStep {
    /// There is no engine.
    Dropped,
    Nothing,
    /// Open a new tab at this place of the strip. Where that succeeds, the
    /// omnibar opens with it.
    OpenTabAt(usize),
    /// Open a new tab at the end.
    OpenTab,
    CloseTab,
    /// Select the next tab and cancel the input bar.
    NextTab,
    /// Select the tab before and cancel the input bar.
    PrevTab,
    /// Pin or unpin the tab; the strip and the session change.
    TogglePin,
    /// Open what the clipboard holds at this place of the strip.
    PasteAt(usize),
    /// Give this field the caret.
    FocusField(String),
    /// Hand the action to the engine.
    Dispatch,
    /// Hand the action to the engine and go to normal mode.
    DispatchThenNormal,
    /// Open this page in this engine.
    OpenInEngine { engine: String, url: String },
    DevTools,
    Zoom(Zoom),
}

/// A step without its strings.
pub enum ActionView {
    Dropped,
    Nothing,
    OpenTabAt(usize),
    OpenTab,
    CloseTab,
    NextTab,
    PrevTab,
    TogglePin,
    PasteAt(usize),
    FocusField(Seq<char>),
    Dispatch,
    DispatchThenNormal,
    OpenInEngine { engine: Seq<char>, url: Seq<char> },
    DevTools,
    Zoom(Zoom),
}

impl View for ActionStep {
    type V = ActionView;

    open spec fn view(&self) -> ActionView {
        match self {
            ActionStep::Dropped => ActionView::Dropped,
            ActionStep::Nothing => ActionView::Nothing,
            ActionStep::OpenTabAt(i) => ActionView::OpenTabAt(*i),
            ActionStep::OpenTab => ActionView::OpenTab,
            ActionStep::CloseTab => ActionView::CloseTab,
            ActionStep::NextTab => ActionView::NextTab,
            ActionStep::PrevTab => ActionView::PrevTab,
            ActionStep::TogglePin => ActionView::TogglePin,
            ActionStep::PasteAt(i) => ActionView::PasteAt(*i),
            ActionStep::FocusField(s) => ActionView::FocusField(s@),
            ActionStep::Dispatch => ActionView::Dispatch,
            ActionStep::DispatchThenNormal => ActionView::DispatchThenNormal,
            ActionStep::OpenInEngine { engine, url } => ActionView::OpenInEngine {
                engine: engine@,
                url: url@,
            },
            ActionStep::DevTools => ActionView::DevTools,
            ActionStep::Zoom(z) => ActionView::Zoom(*z),
        }
    }
}

/// What an action depends on.
pub struct ActionInput<'a> {
    pub has_engine: bool,
    pub active_index: Option<usize>,
    /// How many tabs are pinned: they come first in the strip.
    pub pinned_count: usize,
    /// The engine that shows the page.
    pub active_engine: &'a str,
    /// Whether the engine that an action names is there.
    pub engine_is_known: bool,
    /// The address of the page.
    pub live_url: &'a str,
    pub homepage: &'a str,
}

/// The place of a new tab beside the active one. It is not pinned, so it comes
/// after the pinned ones.
pub open spec fn adjacent_index(active: Option<usize>, right: bool, pinned: usize) -> usize {
    let raw = beside(active, right);
    if raw >= pinned { raw } else { pinned }
}

/// The place of the active tab, or the one after it.
pub open spec fn beside(active: Option<usize>, after: bool) -> usize {
    let i = match active {
        Some(i) => i,
        None => 0,
    };
    if after && i < usize::MAX { (i + 1) as usize } else { i }
}

/// What showing the page in another engine leads to.
pub open spec fn engine_step(
    id: Seq<char>,
    known: bool,
    active: Seq<char>,
    url: Seq<char>,
    homepage: Seq<char>,
) -> ActionView {
    if !known || id == active {
        ActionView::Nothing
    } else {
        ActionView::OpenInEngine { engine: id, url: if url.len() == 0 { homepage } else { url } }
    }
}

/// What an action leads to, given the field that had the caret last.
pub open spec fn action_step(
    action: PageAction,
    input: ActionInput<'_>,
    last_field: Option<Seq<char>>,
) -> ActionView {
    if !input.has_engine {
        ActionView::Dropped
    } else {
        match action {
            PageAction::TabNewRight => ActionView::OpenTabAt(
                adjacent_index(input.active_index, true, input.pinned_count),
            ),
            PageAction::TabNewLeft => ActionView::OpenTabAt(
                adjacent_index(input.active_index, false, input.pinned_count),
            ),
            PageAction::TabNew => ActionView::OpenTab,
            PageAction::TabClose => ActionView::CloseTab,
            PageAction::TabNext => ActionView::NextTab,
            PageAction::TabPrev => ActionView::PrevTab,
            PageAction::PinTab => ActionView::TogglePin,
            PageAction::PasteUrl { after } => ActionView::PasteAt(
                beside(input.active_index, after),
            ),
            PageAction::FocusFirstInput => match last_field {
                Some(f) => ActionView::FocusField(f),
                None => ActionView::Dispatch,
            },
            PageAction::ExitInsertMode => ActionView::DispatchThenNormal,
            PageAction::YankSelection => ActionView::DispatchThenNormal,
            PageAction::Engine(id) => engine_step(
                id@,
                input.engine_is_known,
                input.active_engine@,
                input.live_url@,
                input.homepage@,
            ),
            PageAction::OpenDevTools => ActionView::DevTools,
            PageAction::ZoomIn => ActionView::Zoom(Zoom::In),
            PageAction::ZoomOut => ActionView::Zoom(Zoom::Out),
            PageAction::ZoomReset => ActionView::Zoom(Zoom::Reset),
            PageAction::Reload => ActionView::Dispatch,
            PageAction::HistoryBack => ActionView::Dispatch,
            PageAction::HistoryForward => ActionView::Dispatch,
            PageAction::Other(_) => ActionView::Dispatch,
        }
    }
}

/// What an action does to the fields of the page: asking for one is remembered,
/// and leaving insert mode takes the caret away at once.
pub open spec fn edit_after(
    action: PageAction,
    has_engine: bool,
    v: edit_focus::EditView,
    now: u64,
) -> edit_focus::EditView {
    if !has_engine {
        v
    } else {
        match action {
            PageAction::FocusFirstInput => edit_focus::EditView {
                insert_intent_at: Some(now),
                ..v
            },
            PageAction::ExitInsertMode => edit_focus::EditView { focus: None, ..v },
            _ => v,
        }
    }
}

/// The place of the active tab, or the one after it.
fn index_beside(active: Option<usize>, after: bool) -> (r: usize)
    ensures
        r == beside(active, after),
{
    let i: usize = match active {
        Some(i) => i,
        None => 0,
    };
    if after {
        i.saturating_add(1)
    } else {
        i
    }
}

/// The place of a new tab beside the active one.
fn index_adjacent(active: Option<usize>, right: bool, pinned: usize) -> (r: usize)
    ensures
        r == adjacent_index(active, right, pinned),
{
    let raw = index_beside(active, right);
    if raw >= pinned {
        raw
    } else {
        pinned
    }
}

/// Decide what an action leads to.
pub fn dispatch_action(
    action: &PageAction,
    input: &ActionInput<'_>,
    edit: &mut EditState,
    now: u64,
) -> (step: ActionStep)
    ensures
        step@ == action_step(*action, *input, old(edit)@.last_focused_field),
        final(edit)@ == edit_after(*action, input.has_engine, old(edit)@, now),
{
    if !input.has_engine {
        return ActionStep::Dropped;
    }
    match action {
        PageAction::TabNewRight => ActionStep::OpenTabAt(
            index_adjacent(input.active_index, true, input.pinned_count),
        ),
        PageAction::TabNewLeft => ActionStep::OpenTabAt(
            index_adjacent(input.active_index, false, input.pinned_count),
        ),
        PageAction::TabNew => ActionStep::OpenTab,
        PageAction::TabClose => ActionStep::CloseTab,
        PageAction::TabNext => ActionStep::NextTab,
        PageAction::TabPrev => ActionStep::PrevTab,
        PageAction::PinTab => ActionStep::TogglePin,
        PageAction::PasteUrl { after } => ActionStep::PasteAt(
            index_beside(input.active_index, *after),
        ),
        PageAction::FocusFirstInput => {
            edit.insert_intent_at = Some(now);
            match &edit.last_focused_field {
                Some(f) => ActionStep::FocusField(f.clone()),
                None => ActionStep::Dispatch,
            }
        },
        PageAction::ExitInsertMode => {
            edit.focus = EditFocus::Idle;
            ActionStep::DispatchThenNormal
        },
        PageAction::YankSelection => ActionStep::DispatchThenNormal,
        PageAction::Engine(id) => {
            if !input.engine_is_known || same_text(id.as_str(), input.active_engine) {
                return ActionStep::Nothing;
            }
            let url = if input.live_url.is_empty() {
                input.homepage.to_string()
            } else {
                input.live_url.to_string()
            };
            ActionStep::OpenInEngine { engine: id.clone(), url }
        },
        PageAction::OpenDevTools => ActionStep::DevTools,
        PageAction::ZoomIn => ActionStep::Zoom(Zoom::In),
        PageAction::ZoomOut => ActionStep::Zoom(Zoom::Out),
        PageAction::ZoomReset => ActionStep::Zoom(Zoom::Reset),
        PageAction::Reload => ActionStep::Dispatch,
        PageAction::HistoryBack => ActionStep::Dispatch,
        PageAction::HistoryForward => ActionStep::Dispatch,
        PageAction::Other(_) => ActionStep::Dispatch,
    }
}

/// A new tab beside the active one opened: cancelling the omnibar that comes
/// with it closes it again.
pub fn adjacent_tab_opened(bar: &mut Overlay, tab: u64, now: u64)
    ensures
        final(bar)@ == overlay::opened(
            overlay::OverlayView { cancel_closes_tab: Some(tab), ..old(bar)@ },
            overlay::OverlayKind::Omnibar,
            now,
        ).0,
{
    bar.cancel_closes_tab = Some(tab);
    bar.open_omnibar(now);
}

/// The address in the clipboard, to be classified.
pub open spec fn candidate_in(clipboard: Option<Seq<char>>) -> Option<Seq<char>> {
    match clipboard {
        Some(t) => if text::trimmed(t).len() == 0 { None } else { Some(text::trimmed(t)) },
        None => None,
    }
}

/// Whether a text of this kind is an address.
pub open spec fn is_address(kind: InputKind) -> bool {
    kind == InputKind::Url || kind == InputKind::Host
}

/// The address in the clipboard, to be classified: its text without the space
/// around it, if there is any.
pub fn paste_candidate(clipboard: Option<&str>) -> (r: Option<String>)
    ensures
        crate::tabs::text_in(r) == candidate_in(
            match clipboard {
                Some(t) => Some(t@),
                None => None,
            },
        ),
{
    match clipboard {
        Some(t) => {
            let t = trim(t);
            if t.as_str().is_empty() {
                None
            } else {
                Some(t)
            }
        },
        None => None,
    }
}

/// Whether a text from the clipboard is opened: only an address is.
pub fn paste_is_an_address(kind: InputKind) -> (r: bool)
    ensures
        r == is_address(kind),
{
    match kind {
        InputKind::Url => true,
        InputKind::Host => true,
        InputKind::Search => false,
    }
}

/// Where a page belongs.
#[derive(Debug)]
pub enum NavigationVerdict {
    SameEngine,
    CrossEngine { target: String },
    DisallowedScheme,
}

/// The engine that a page moves to.
pub open spec fn moves_to(
    verdict: Option<NavigationVerdict>,
    url: Seq<char>,
    target_is_known: bool,
) -> Option<Seq<char>> {
    if url.len() == 0 || !target_is_known {
        None
    } else {
        match verdict {
            Some(NavigationVerdict::CrossEngine { target }) => Some(target@),
            _ => None,
        }
    }
}

/// Whether a page that has been navigated to moves to another engine, and to
/// which; `verdict` is `None` without a router or an engine.
pub fn check_cross_engine_nav(
    verdict: Option<NavigationVerdict>,
    url: &str,
    target_is_known: bool,
) -> (r: Option<String>)
    ensures
        crate::tabs::text_in(r) == moves_to(verdict, url@, target_is_known),
{
    if url.is_empty() || !target_is_known {
        return None;
    }
    match verdict {
        Some(NavigationVerdict::CrossEngine { target }) => Some(target),
        Some(NavigationVerdict::SameEngine) => None,
        Some(NavigationVerdict::DisallowedScheme) => None,
        None => None,
    }
}

/// The active engine after a page was opened in another, or could not be, and
/// whether the page moves.
pub open spec fn engine_after(active: Seq<char>, target: Seq<char>, opened: bool) -> (
    Seq<char>,
    bool,
) {
    (if opened { target } else { active }, opened)
}

/// The page was opened in another engine, or could not be: where it could, its
/// tab in the engine before is closed, whether or not that succeeds, and the
/// other engine becomes the active one. Returns whether to do so.
pub fn engine_opened(active: &mut String, target: &str, opened: bool) -> (switch: bool)
    ensures
        (final(active)@, switch) == engine_after(old(active)@, target@, opened),
{
    if opened {
        *active = target.to_string();
    }
    opened
}

/// A command of the command line.
#[derive(Debug)]
pub enum Command {
    Quit,
    Reload,
    Back,
    Forward,
    Open(String),
    TabNew,
    Assign { key: String, value: String },
    Find(String),
    Bookmark { tags: Vec<String> },
    DevTools,
    Engine(String),
    Unknown(String),
}

/// What a command leads to.
#[derive(Debug)]
pub enum CommandStep {
    Nothing,
    CloseTab,
    Action(PageAction),
    /// Resolve this address and go there.
    Open(String),
    OpenTab,
    Find(FindStep),
    /// Bookmark this page.
    Bookmark { url: String, tags: Vec<String> },
}

/// The zoom action that `:set` stands for.
pub open spec fn set_zoom(key: Seq<char>, value: Seq<char>) -> Option<Zoom> {
    if key != "zoom"@ {
        None
    } else if value == "in"@ {
        Some(Zoom::In)
    } else if value == "out"@ {
        Some(Zoom::Out)
    } else if value == "reset"@ || value == "0"@ {
        Some(Zoom::Reset)
    } else {
        None
    }
}

/// The action of a zoom.
pub open spec fn zoom_action(z: Option<Zoom>) -> Option<PageAction> {
    match z {
        Some(Zoom::In) => Some(PageAction::ZoomIn),
        Some(Zoom::Out) => Some(PageAction::ZoomOut),
        Some(Zoom::Reset) => Some(PageAction::ZoomReset),
        None => None,
    }
}

/// The action that `:set` leads to: only `zoom` can be set, to `in`, `out`,
/// `reset` or `0`.
pub fn apply_set(key: &str, value: &str) -> (r: Option<PageAction>)
    ensures
        r == zoom_action(set_zoom(key@, value@)),
{
    if !same_text(key, "zoom") {
        None
    } else if same_text(value, "in") {
        Some(PageAction::ZoomIn)
    } else if same_text(value, "out") {
        Some(PageAction::ZoomOut)
    } else if same_text(value, "reset") || same_text(value, "0") {
        Some(PageAction::ZoomReset)
    } else {
        None
    }
}

/// What a command leads to on a page at `url`.
pub open spec fn command_leads_to(
    cmd: Command,
    url: Seq<char>,
    has_engine: bool,
    step: CommandStep,
) -> bool {
    match cmd {
        Command::Quit => step is CloseTab,
        Command::Reload => step == CommandStep::Action(PageAction::Reload),
        Command::Back => step == CommandStep::Action(PageAction::HistoryBack),
        Command::Forward => step == CommandStep::Action(PageAction::HistoryForward),
        Command::Open(target) => step matches CommandStep::Open(t) && t@ == target@,
        Command::TabNew => if has_engine { step is OpenTab } else { step is Nothing },
        Command::Assign { key, value } => match zoom_action(set_zoom(key@, value@)) {
            Some(a) => step == CommandStep::Action(a),
            None => step is Nothing,
        },
        Command::Find(query) => if has_engine {
            step matches CommandStep::Find(FindStep::Start { query: q, forward }) && q@ == query@
                && forward
        } else {
            step is Nothing
        },
        Command::Bookmark { tags } => if url.len() == 0 {
            step is Nothing
        } else {
            step matches CommandStep::Bookmark { url: u, tags: t } && u@ == url && t == tags
        },
        Command::DevTools => step == CommandStep::Action(PageAction::OpenDevTools),
        Command::Engine(id) => step matches CommandStep::Action(PageAction::Engine(t)) && t@ == id@,
        Command::Unknown(_) => step is Nothing,
    }
}

/// The bar and the status line after a command.
pub open spec fn bar_after(cmd: Command, has_engine: bool, v: overlay::OverlayView) -> overlay::OverlayView {
    match cmd {
        Command::Find(query) => if has_engine {
            overlay::OverlayView { find_query: Some(overlay::fresh_find(query@)), ..v }
        } else {
            v
        },
        _ => v,
    }
}

/// Decide what a command leads to. Only a find changes the status line.
pub fn dispatch_command(bar: &mut Overlay, cmd: Command, url: &str, has_engine: bool) -> (step:
    CommandStep)
    ensures
        command_leads_to(cmd, url@, has_engine, step),
        final(bar)@ == bar_after(cmd, has_engine, old(bar)@),
{
    match cmd {
        Command::Quit => CommandStep::CloseTab,
        Command::Reload => CommandStep::Action(PageAction::Reload),
        Command::Back => CommandStep::Action(PageAction::HistoryBack),
        Command::Forward => CommandStep::Action(PageAction::HistoryForward),
        Command::Open(target) => CommandStep::Open(target),
        Command::TabNew => {
            if has_engine {
                CommandStep::OpenTab
            } else {
                CommandStep::Nothing
            }
        },
        Command::Assign { key, value } => match apply_set(key.as_str(), value.as_str()) {
            Some(a) => CommandStep::Action(a),
            None => CommandStep::Nothing,
        },
        Command::Find(query) => {
            if !has_engine {
                return CommandStep::Nothing;
            }
            let shown = query.clone();
            bar.find_query = Some(FindStatus { query: shown, current: 0, total: 0 });
            CommandStep::Find(FindStep::Start { query, forward: true })
        },
        Command::Bookmark { tags } => {
            if url.is_empty() {
                CommandStep::Nothing
            } else {
                CommandStep::Bookmark { url: url.to_string(), tags }
            }
        },
        Command::DevTools => CommandStep::Action(PageAction::OpenDevTools),
        Command::Engine(id) => CommandStep::Action(PageAction::Engine(id)),
        Command::Unknown(_) => CommandStep::Nothing,
    }
}

/// Where a resolved address leads.
pub open spec fn leads_to(resolved: Seq<char>, has_engine: bool) -> Option<Seq<char>> {
    if resolved.len() == 0 || !has_engine { None } else { Some(resolved) }
}

/// Where a resolved address leads: nowhere if it is empty, or without an engine.
pub fn navigation_target(resolved: String, has_engine: bool) -> (r: Option<String>)
    ensures
        crate::tabs::text_in(r) == leads_to(resolved@, has_engine),
{
    if resolved.as_str().is_empty() || !has_engine {
        None
    } else {
        Some(resolved)
    }
}

/// What a confirmed omnibar leads to.
#[derive(Debug)]
pub enum OmnibarStep {
    Nothing,
    /// Go to this address.
    Navigate(String),
    /// Classify and resolve this text, then go there.
    Resolve(String),
}

/// A step without its string.
pub enum OmnibarView {
    Nothing,
    Navigate(Seq<char>),
    Resolve(Seq<char>),
}

impl View for OmnibarStep {
    type V = OmnibarView;

    open spec fn view(&self) -> OmnibarView {
        match self {
            OmnibarStep::Nothing => OmnibarView::Nothing,
            OmnibarStep::Navigate(t) => OmnibarView::Navigate(t@),
            OmnibarStep::Resolve(t) => OmnibarView::Resolve(t@),
        }
    }
}

/// What a confirmed omnibar leads to.
pub open spec fn omnibar_leads_to(value: Seq<char>, suggestion_selected: bool) -> OmnibarView {
    if value.len() == 0 {
        OmnibarView::Nothing
    } else if suggestion_selected {
        OmnibarView::Navigate(value)
    } else {
        OmnibarView::Resolve(value)
    }
}

/// What a confirmed omnibar leads to: a selected suggestion is an address
/// already, what was typed has to be resolved.
pub fn dispatch_omnibar(value: &str, suggestion_selected: bool) -> (r: OmnibarStep)
    ensures
        r@ == omnibar_leads_to(value@, suggestion_selected),
{
    if value.is_empty() {
        OmnibarStep::Nothing
    } else if suggestion_selected {
        OmnibarStep::Navigate(value.to_string())
    } else {
        OmnibarStep::Resolve(value.to_string())
    }
}

/// Whether a typed text counts as a search.
pub fn counts_as_search(kind: InputKind) -> (r: bool)
    ensures
        r == (kind == InputKind::Search),
{
    match kind {
        InputKind::Search => true,
        InputKind::Url => false,
        InputKind::Host => false,
    }
}

/// Law: a tab opened beside another never lands among the pinned ones.
pub proof fn law_new_tab_stays_behind_the_pinned(active: Option<usize>, right: bool, pinned: usize)
    ensures
        adjacent_index(active, right, pinned) >= pinned,
        adjacent_index(active, right, pinned) >= beside(active, right),
{
}

/// Law: a tab opened beside another and then cancelled is closed again, unless
/// it is the only one; a confirmed one stays.
pub proof fn law_cancelled_tab_is_closed_again(v: overlay::OverlayView, tab: u64, n: usize, now: u64)
    ensures
        ({
            let (w, _) = overlay::opened(
                overlay::OverlayView { cancel_closes_tab: Some(tab), ..v },
                overlay::OverlayKind::Omnibar,
                now,
            );
            let (_, step) = overlay::cancelled(w, Some(n));
            let (kept, _) = overlay::confirmed(w);
            &&& step is Some
            &&& step->0.close_tab == if n > 1 { Some(tab) } else { None }
            &&& kept.cancel_closes_tab is None
        }),
{
}

/// Law: without an engine no action does anything.
pub proof fn law_no_action_without_an_engine(
    action: PageAction,
    input: ActionInput<'_>,
    v: edit_focus::EditView,
    now: u64,
)
    requires
        !input.has_engine,
    ensures
        action_step(action, input, v.last_focused_field) == ActionView::Dropped,
        edit_after(action, false, v, now) == v,
{
}

/// Law: a new tab opens where it was asked for: right of the active one, or in its
/// place, and only the pinned ones push it further. A paste opens in its place or
/// right of it, pinned or not; without an active tab both count from the first.
pub proof fn law_new_tab_opens_beside_the_active_one(
    input: ActionInput<'_>,
    field: Option<Seq<char>>,
    at: usize,
)
    requires
        input.has_engine,
        input.active_index == Some(at),
        at < usize::MAX,
    ensures
        ({
            let right = action_step(PageAction::TabNewRight, input, field);
            let left = action_step(PageAction::TabNewLeft, input, field);
            let after = action_step(PageAction::PasteUrl { after: true }, input, field);
            let before = action_step(PageAction::PasteUrl { after: false }, input, field);
            &&& right is OpenTabAt && left is OpenTabAt
            &&& at + 1 >= input.pinned_count ==> right->OpenTabAt_0 == at + 1
            &&& at >= input.pinned_count ==> left->OpenTabAt_0 == at
            &&& at + 1 < input.pinned_count ==> right->OpenTabAt_0 == input.pinned_count
            &&& at < input.pinned_count ==> left->OpenTabAt_0 == input.pinned_count
            &&& after is PasteAt && after->PasteAt_0 == at + 1
            &&& before is PasteAt && before->PasteAt_0 == at
        }),
{
}

/// Law: without an active tab, new tabs open as if the first were active.
pub proof fn law_no_active_tab_counts_as_the_first(right: bool, pinned: usize)
    ensures
        adjacent_index(None, right, pinned) == adjacent_index(Some(0), right, pinned),
        beside(None, right) == beside(Some(0), right),
        beside(None, false) == 0,
        beside(None, true) == 1,
{
}

/// Law: each action on tabs does what it is named for, and nothing else leads
/// there.
pub proof fn law_tab_actions(a: PageAction, input: ActionInput<'_>, field: Option<Seq<char>>)
    requires
        input.has_engine,
    ensures
        ({
            let step = action_step(a, input, field);
            &&& step is OpenTab <==> a is TabNew
            &&& step is CloseTab <==> a is TabClose
            &&& step is NextTab <==> a is TabNext
            &&& step is PrevTab <==> a is TabPrev
            &&& step is TogglePin <==> a is PinTab
            &&& step is OpenTabAt <==> (a is TabNewRight || a is TabNewLeft)
            &&& step is PasteAt <==> a is PasteUrl
            &&& !(step is Dropped)
        }),
{
}

/// Law: each action on the page does what it is named for: zooming goes the way it
/// says, the developer tools open, leaving insert mode and copying the selection go
/// to normal mode, a field that had the caret gets it again, and everything else is
/// the engine's.
pub proof fn law_page_actions(a: PageAction, input: ActionInput<'_>, field: Option<Seq<char>>)
    requires
        input.has_engine,
    ensures
        ({
            let step = action_step(a, input, field);
            &&& step == ActionView::Zoom(Zoom::In) <==> a is ZoomIn
            &&& step == ActionView::Zoom(Zoom::Out) <==> a is ZoomOut
            &&& step == ActionView::Zoom(Zoom::Reset) <==> a is ZoomReset
            &&& step is DevTools <==> a is OpenDevTools
            &&& step is DispatchThenNormal <==> (a is ExitInsertMode || a is YankSelection)
            &&& step is FocusField <==> (a is FocusFirstInput && field is Some)
            &&& step is FocusField ==> Some(step->FocusField_0) == field
            &&& step is Dispatch <==> (a is Reload || a is HistoryBack || a is HistoryForward
                || a is Other || (a is FocusFirstInput && field is None))
        }),
{
}

/// Law: a page is shown in another engine exactly where that engine is there and
/// is not the active one, and it is the same page, or the home page where there is
/// none.
pub proof fn law_page_is_shown_in_the_named_engine(
    id: String,
    input: ActionInput<'_>,
    field: Option<Seq<char>>,
)
    requires
        input.has_engine,
    ensures
        ({
            let step = action_step(PageAction::Engine(id), input, field);
            &&& step is OpenInEngine <==> (input.engine_is_known && id@ != input.active_engine@)
            &&& step is OpenInEngine ==> step->engine == id@
            &&& step is OpenInEngine && input.live_url@.len() > 0 ==> step->url == input.live_url@
            &&& step is OpenInEngine && input.live_url@.len() == 0 ==> step->url == input.homepage@
            &&& !(step is OpenInEngine) ==> step is Nothing
        }),
{
}

/// Law: only asking for a field and leaving insert mode touch the fields of the
/// page: the first is remembered with its moment, the second takes the caret away.
pub proof fn law_actions_and_the_caret(a: PageAction, v: edit_focus::EditView, now: u64)
    ensures
        ({
            let w = edit_after(a, true, v, now);
            &&& a is FocusFirstInput ==> w == (edit_focus::EditView {
                insert_intent_at: Some(now),
                ..v
            })
            &&& a is ExitInsertMode ==> w == (edit_focus::EditView { focus: None, ..v })
            &&& !(a is FocusFirstInput || a is ExitInsertMode) ==> w == v
        }),
{
}

/// Law: what is pasted is the clipboard's text without the white space around it,
/// and a blank clipboard pastes nothing; only an address is opened, a search is
/// not.
pub proof fn law_paste_takes_the_text_itself(clip: Seq<char>)
    ensures
        candidate_in(None) is None,
        candidate_in(Some(clip)) is None ==> forall|i: int|
            0 <= i < clip.len() ==> text::white_space(#[trigger] clip[i]),
        candidate_in(Some(clip)) matches Some(t) ==> t.len() > 0 && !text::white_space(t[0])
            && !text::white_space(t.last()) && exists|a: int, b: int|
            0 <= a < b <= clip.len() && t == #[trigger] clip.subrange(a, b),
        is_address(InputKind::Url) && is_address(InputKind::Host) && !is_address(InputKind::Search),
{
    text::law_trim_takes_only_white_space(clip);
    let (a, b) = choose|a: int, b: int|
        0 <= a <= b <= clip.len() && text::trimmed(clip) == #[trigger] clip.subrange(a, b) && (
        forall|k: int| 0 <= k < a ==> text::white_space(#[trigger] clip[k])) && (forall|k: int|
            b <= k < clip.len() ==> text::white_space(#[trigger] clip[k]));
    assert(text::trimmed(clip) == clip.subrange(a, b));
    if text::trimmed(clip).len() == 0 {
        assert(a == b);
    }
}

/// Law: a page moves to another engine exactly where the router says so, the page
/// has an address and that engine is there, and it is the router's engine; a page
/// with a scheme that is not allowed stays where it is.
pub proof fn law_page_moves_where_the_router_says(
    verdict: Option<NavigationVerdict>,
    url: Seq<char>,
    known: bool,
)
    ensures
        moves_to(verdict, url, known) is Some <==> (verdict is Some && verdict->0 is CrossEngine
            && url.len() > 0 && known),
        moves_to(verdict, url, known) matches Some(t) ==> verdict->0->target@ == t,
{
}

/// Law: the engine changes exactly where the page could be opened there.
pub proof fn law_engine_changes_once_the_page_is_open(active: Seq<char>, target: Seq<char>)
    ensures
        engine_after(active, target, true) == (target, true),
        engine_after(active, target, false) == (active, false),
{
}

/// Law: a confirmed omnibar goes to what was typed or picked: a suggestion as it
/// is, typed text after it was resolved, nothing where the bar is empty.
pub proof fn law_omnibar_goes_to_its_text(value: Seq<char>, picked: bool)
    ensures
        ({
            let r = omnibar_leads_to(value, picked);
            &&& r is Nothing <==> value.len() == 0
            &&& r is Navigate <==> value.len() > 0 && picked
            &&& r is Navigate ==> r->Navigate_0 == value
            &&& r is Resolve ==> r->Resolve_0 == value
        }),
{
}

/// Law: a resolved address is gone to as it is, unless it is empty or there is no
/// engine.
pub proof fn law_resolved_address_is_gone_to(resolved: Seq<char>, has_engine: bool)
    ensures
        has_engine && resolved.len() > 0 ==> leads_to(resolved, has_engine) == Some(resolved),
        !has_engine || resolved.len() == 0 ==> leads_to(resolved, has_engine) is None,
{
}

/// Law: `:set` knows only the zoom, and each of its words zooms the way it says.
pub proof fn law_set_zooms(key: Seq<char>, value: Seq<char>)
    ensures
        key != "zoom"@ ==> zoom_action(set_zoom(key, value)) is None,
        zoom_action(set_zoom(key, value)) == Some(PageAction::ZoomIn) <==> key == "zoom"@ && value
            == "in"@,
        zoom_action(set_zoom(key, value)) == Some(PageAction::ZoomOut) <==> key == "zoom"@ && value
            == "out"@,
        zoom_action(set_zoom(key, value)) == Some(PageAction::ZoomReset) <==> key == "zoom"@ && (
        value == "reset"@ || value == "0"@),
{
    reveal_strlit("in");
    reveal_strlit("out");
    reveal_strlit("reset");
    reveal_strlit("0");
    assert("in"@[0] == 'i' && "out"@[0] == 'o' && "reset"@[0] == 'r' && "0"@[0] == '0');
}

/// Law: each command leads to what it is named for, with the words it was given; a
/// find searches forwards for its own words, and shows them on the status line.
pub proof fn law_commands_do_what_they_say(
    cmd: Command,
    url: Seq<char>,
    has_engine: bool,
    step: CommandStep,
    v: overlay::OverlayView,
)
    requires
        command_leads_to(cmd, url, has_engine, step),
    ensures
        cmd is Quit <==> step is CloseTab,
        cmd is Reload <==> (step is Action && step->Action_0 is Reload),
        cmd is Back <==> (step is Action && step->Action_0 is HistoryBack),
        cmd is Forward <==> (step is Action && step->Action_0 is HistoryForward),
        cmd is DevTools <==> (step is Action && step->Action_0 is OpenDevTools),
        cmd is Open <==> step is Open,
        cmd is Open ==> step->Open_0@ == cmd->Open_0@,
        step is OpenTab <==> cmd is TabNew && has_engine,
        step is Bookmark <==> cmd is Bookmark && url.len() > 0,
        step is Bookmark ==> step->url@ == url && step->tags == cmd->Bookmark_tags,
        cmd is Engine ==> step is Action && step->Action_0 is Engine
            && step->Action_0->Engine_0@ == cmd->Engine_0@,
        cmd is Unknown ==> step is Nothing,
        step is Find <==> cmd is Find && has_engine,
        step is Find ==> {
            &&& step->Find_0 is Start
            &&& step->Find_0->query@ == cmd->Find_0@
            &&& step->Find_0->forward
            &&& bar_after(cmd, has_engine, v).find_query == Some(
                overlay::FindStatusView { query: cmd->Find_0@, current: 0, total: 0 },
            )
        },
        !(step is Find) ==> bar_after(cmd, has_engine, v) == v,
        bar_after(cmd, has_engine, v).kind == v.kind,
{
}

/// Law: the models of the steps keep their sort and what they carry.
pub proof fn law_steps_are_seen_whole(i: usize, t: String, u: String, z: Zoom)
    ensures
        ActionStep::Dropped@ is Dropped,
        ActionStep::Nothing@ is Nothing,
        ActionStep::OpenTab@ is OpenTab,
        ActionStep::CloseTab@ is CloseTab,
        ActionStep::NextTab@ is NextTab,
        ActionStep::PrevTab@ is PrevTab,
        ActionStep::TogglePin@ is TogglePin,
        ActionStep::Dispatch@ is Dispatch,
        ActionStep::DispatchThenNormal@ is DispatchThenNormal,
        ActionStep::DevTools@ is DevTools,
        ActionStep::OpenTabAt(i)@ == ActionView::OpenTabAt(i),
        ActionStep::PasteAt(i)@ == ActionView::PasteAt(i),
        ActionStep::FocusField(t)@ == ActionView::FocusField(t@),
        (ActionStep::OpenInEngine { engine: t, url: u })@ == (ActionView::OpenInEngine { engine: t@, url: u@ }),
        ActionStep::Zoom(z)@ == ActionView::Zoom(z),
        OmnibarStep::Nothing@ is Nothing,
        OmnibarStep::Navigate(t)@ == OmnibarView::Navigate(t@),
        OmnibarStep::Resolve(t)@ == OmnibarView::Resolve(t@),
{
}

} // verus!
