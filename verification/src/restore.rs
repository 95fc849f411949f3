//! Restoring tabs at start-up, and saving them while the browser runs.
use vstd::prelude::*;
use vstd::string::*;
use crate::session;
use crate::text;
use crate::text::same_text;

verus! {

/// Quiet time before a changed session is saved.
pub const SESSION_SAVE_DEBOUNCE: u64 = 500_000_000;

/// One thing to do while restoring.
pub enum RestoreStep {
    /// Load the address in the tab that the engine made by itself. Its favicon
    /// is looked up even if loading failed where `prefill_always`.
    NavigateInitial { url: String, pinned: bool, prefill_always: bool },
    /// Open a tab in the foreground.
    OpenForeground { url: String, pinned: bool },
    /// Open a tab in the background; `from_cli` tabs ask [`CliFocus`] whether
    /// they come to the front.
    OpenBackground { url: String, pinned: bool, from_cli: bool },
    /// Bring the tab with this index, if there is one, to the front.
    SelectIndex { index: usize },
}

/// A step without its strings.
pub enum StepView {
    NavigateInitial { url: Seq<char>, pinned: bool, prefill_always: bool },
    OpenForeground { url: Seq<char>, pinned: bool },
    OpenBackground { url: Seq<char>, pinned: bool, from_cli: bool },
    SelectIndex { index: usize },
}

impl View for RestoreStep {
    type V = StepView;

    open spec fn view(&self) -> StepView {
        match self {
            RestoreStep::NavigateInitial { url, pinned, prefill_always } => {
                StepView::NavigateInitial {
                    url: url@,
                    pinned: *pinned,
                    prefill_always: *prefill_always,
                }
            },
            RestoreStep::OpenForeground { url, pinned } => {
                StepView::OpenForeground { url: url@, pinned: *pinned }
            },
            RestoreStep::OpenBackground { url, pinned, from_cli } => {
                StepView::OpenBackground { url: url@, pinned: *pinned, from_cli: *from_cli }
            },
            RestoreStep::SelectIndex { index } => StepView::SelectIndex { index: *index },
        }
    }
}

/// The views of a list of steps.
pub open spec fn steps_view(v: Seq<RestoreStep>) -> Seq<StepView> {
    v.map_values(|s: RestoreStep| s@)
}

/// The tabs of a list of `(url, pinned)` pairs.
pub open spec fn tabs_view(v: Seq<(String, bool)>) -> Seq<session::TabEntry> {
    v.map_values(|t: (String, bool)| (t.0@, t.1))
}

/// How session tab `i` is restored: the first takes over the tab that is there,
/// or comes to the front; the others open behind it.
pub open spec fn session_step(t: session::TabEntry, i: int, has_initial_tab: bool) -> StepView {
    if i == 0 && has_initial_tab {
        StepView::NavigateInitial { url: t.0, pinned: t.1, prefill_always: true }
    } else if i == 0 {
        StepView::OpenForeground { url: t.0, pinned: t.1 }
    } else {
        StepView::OpenBackground { url: t.0, pinned: t.1, from_cli: false }
    }
}

/// How command-line address `i` is opened: the first takes over the tab that is
/// there, if no session tab did.
pub open spec fn cli_step(url: Seq<char>, i: int, claim: bool) -> StepView {
    if i == 0 && claim {
        StepView::NavigateInitial { url, pinned: false, prefill_always: false }
    } else {
        StepView::OpenBackground { url, pinned: false, from_cli: true }
    }
}

/// Everything to do: the session tabs, the active one, the command line.
pub open spec fn restore_steps(
    tabs: Seq<session::TabEntry>,
    active: Option<usize>,
    cli: Seq<Seq<char>>,
    has_initial_tab: bool,
) -> Seq<StepView> {
    Seq::new(tabs.len(), |i: int| session_step(tabs[i], i, has_initial_tab)) + (match active {
        Some(index) => seq![StepView::SelectIndex { index }],
        None => Seq::empty(),
    }) + Seq::new(
        cli.len(),
        |i: int| cli_step(cli[i], i, has_initial_tab && tabs.len() == 0),
    )
}

/// Plan the restoration of a session and of the addresses of the command line.
pub fn plan_restore(
    tabs: &Vec<(String, bool)>,
    active: Option<usize>,
    cli: &Vec<String>,
    has_initial_tab: bool,
) -> (r: Vec<RestoreStep>)
    ensures
        steps_view(r@) == restore_steps(
            tabs_view(tabs@),
            active,
            text::texts(cli@),
            has_initial_tab,
        ),
{
    let mut out: Vec<RestoreStep> = Vec::new();
    let ghost first = Seq::new(
        tabs@.len(),
        |i: int| session_step(tabs_view(tabs@)[i], i, has_initial_tab),
    );
    let mut i: usize = 0;
    while i < tabs.len()
        invariant
            i <= tabs@.len(),
            first == Seq::new(
                tabs@.len(),
                |i: int| session_step(tabs_view(tabs@)[i], i, has_initial_tab),
            ),
            steps_view(out@) == first.take(i as int),
        decreases tabs.len() - i,
    {
        let url: String = tabs[i].0.clone();
        let pinned = tabs[i].1;
        let step = if i == 0 && has_initial_tab {
            RestoreStep::NavigateInitial { url, pinned, prefill_always: true }
        } else if i == 0 {
            RestoreStep::OpenForeground { url, pinned }
        } else {
            RestoreStep::OpenBackground { url, pinned, from_cli: false }
        };
        let ghost before = out@;
        let ghost shown = step@;
        out.push(step);
        proof {
            assert(steps_view(out@) =~= steps_view(before).push(shown));
            assert(shown == first[i as int]);
            assert(first.take(i as int + 1) =~= first.take(i as int).push(first[i as int]));
        }
        i = i + 1;
    }
    let ghost middle: Seq<StepView> = match active {
        Some(index) => seq![StepView::SelectIndex { index }],
        None => Seq::empty(),
    };
    if let Some(index) = active {
        let ghost before = out@;
        out.push(RestoreStep::SelectIndex { index });
        proof {
            assert(steps_view(out@) =~= steps_view(before).push(StepView::SelectIndex { index }));
        }
    }
    proof {
        assert(first.take(tabs@.len() as int) =~= first);
        assert(steps_view(out@) =~= first + middle);
    }
    let claim = has_initial_tab && tabs.len() == 0;
    let ghost last = Seq::new(cli@.len(), |i: int| cli_step(text::texts(cli@)[i], i, claim));
    let mut j: usize = 0;
    while j < cli.len()
        invariant
            j <= cli@.len(),
            last == Seq::new(cli@.len(), |i: int| cli_step(text::texts(cli@)[i], i, claim)),
            steps_view(out@) =~= first + middle + last.take(j as int),
        decreases cli.len() - j,
    {
        let url: String = cli[j].clone();
        let step = if j == 0 && claim {
            RestoreStep::NavigateInitial { url, pinned: false, prefill_always: false }
        } else {
            RestoreStep::OpenBackground { url, pinned: false, from_cli: true }
        };
        let ghost before = out@;
        let ghost shown = step@;
        out.push(step);
        proof {
            assert(steps_view(out@) =~= steps_view(before).push(shown));
            assert(shown == last[j as int]);
            assert(last.take(j as int + 1) =~= last.take(j as int).push(last[j as int]));
        }
        j = j + 1;
    }
    proof {
        assert(last.take(cli@.len() as int) =~= last);
    }
    out
}

/// Which tab of the command line comes to the front: the first that opened,
/// unless the first address took over the tab that was there.
pub struct CliFocus {
    pub pending: bool,
}

/// Whether an address of the command line still has to come to the front once
/// its tab is open: not where the first one takes over the tab that is there.
pub open spec fn cli_waits(session_is_empty: bool, has_initial_tab: bool) -> bool {
    !(has_initial_tab && session_is_empty)
}

/// A tab of the command line was opened, or not: whether one is still awaited,
/// and whether this one comes to the front.
pub open spec fn after_opening(pending: bool, ok: bool) -> (bool, bool) {
    (pending && !ok, pending && ok)
}

impl CliFocus {
    /// Before the first tab of the command line is opened.
    pub fn new(session_is_empty: bool, has_initial_tab: bool) -> (r: Self)
        ensures
            r.pending == cli_waits(session_is_empty, has_initial_tab),
    {
        CliFocus { pending: !(has_initial_tab && session_is_empty) }
    }

    /// A tab of the command line was opened, or not. Returns whether it comes
    /// to the front.
    pub fn opened(&mut self, ok: bool) -> (select: bool)
        ensures
            (final(self).pending, select) == after_opening(old(self).pending, ok),
    {
        if self.pending && ok {
            self.pending = false;
            true
        } else {
            false
        }
    }
}

/// Law: of the tabs of the command line that wait for the front, the first that
/// opens comes to it and no later one does; one that fails leaves the front to the
/// next.
pub proof fn law_first_opened_address_gets_the_front(pending: bool, ok: bool, later: bool)
    ensures
        ({
            let (waits, selected) = after_opening(pending, ok);
            let (still, again) = after_opening(waits, later);
            &&& selected ==> pending && ok && !again && !still
            &&& pending && ok ==> selected
            &&& pending && !ok ==> waits && (again <==> later)
            &&& !pending ==> !selected && !again && !still
        }),
{
}

/// Law: the tab that was active comes to the front again. The plan holds exactly
/// one step that selects a tab, right behind the steps of the session tabs, and it
/// selects the index that was saved; without a saved index there is none.
pub proof fn law_saved_tab_comes_to_the_front(
    tabs: Seq<session::TabEntry>,
    active: Option<usize>,
    cli: Seq<Seq<char>>,
    has_initial_tab: bool,
    i: int,
)
    requires
        0 <= i < restore_steps(tabs, active, cli, has_initial_tab).len(),
    ensures
        ({
            let s = restore_steps(tabs, active, cli, has_initial_tab);
            &&& s.len() == tabs.len() + cli.len() + if active is Some { 1int } else { 0 }
            &&& s[i] is SelectIndex <==> active is Some && i == tabs.len()
            &&& s[i] is SelectIndex ==> Some(s[i]->index) == active
        }),
{
}

/// Law: how each session tab opens. The first takes over the tab that is there,
/// and its favicon is looked up in any case, or opens in front; every other opens
/// behind it, and none counts as asked for on the command line.
pub proof fn law_first_session_tab_opens_in_front(
    tabs: Seq<session::TabEntry>,
    active: Option<usize>,
    cli: Seq<Seq<char>>,
    has_initial_tab: bool,
    i: int,
)
    requires
        0 <= i < tabs.len(),
    ensures
        ({
            let s = restore_steps(tabs, active, cli, has_initial_tab)[i];
            &&& s is NavigateInitial <==> i == 0 && has_initial_tab
            &&& s is OpenForeground <==> i == 0 && !has_initial_tab
            &&& s is OpenBackground <==> i > 0
            &&& s is NavigateInitial ==> s->prefill_always
            &&& s is OpenBackground ==> !s->from_cli
        }),
{
}

/// Law: the addresses of the command line come last, in their order, one step
/// each and none pinned; all but one that takes over the tab that is there open in
/// the background.
pub proof fn law_addresses_open_in_order(
    tabs: Seq<session::TabEntry>,
    active: Option<usize>,
    cli: Seq<Seq<char>>,
    has_initial_tab: bool,
    j: int,
)
    requires
        0 <= j < cli.len(),
    ensures
        ({
            let steps = restore_steps(tabs, active, cli, has_initial_tab);
            match steps[steps.len() - cli.len() + j] {
                StepView::NavigateInitial { url, pinned, prefill_always } => {
                    &&& j == 0 && has_initial_tab && tabs.len() == 0
                    &&& url == cli[j] && !pinned && !prefill_always
                },
                StepView::OpenBackground { url, pinned, from_cli } => {
                    &&& j > 0 || !has_initial_tab || tabs.len() > 0
                    &&& url == cli[j] && !pinned && from_cli
                },
                _ => false,
            }
        }),
{
}

/// The address of a step that opens or loads one.
pub open spec fn step_url(s: StepView) -> Option<Seq<char>> {
    match s {
        StepView::NavigateInitial { url, .. } => Some(url),
        StepView::OpenForeground { url, .. } => Some(url),
        StepView::OpenBackground { url, .. } => Some(url),
        StepView::SelectIndex { .. } => None,
    }
}

/// Law: session tabs are restored in their saved order, one step each, with
/// their pins.
pub proof fn law_session_order_is_restored(
    tabs: Seq<session::TabEntry>,
    active: Option<usize>,
    cli: Seq<Seq<char>>,
    has_initial_tab: bool,
    i: int,
)
    requires
        0 <= i < tabs.len(),
    ensures
        ({
            let s = restore_steps(tabs, active, cli, has_initial_tab)[i];
            &&& step_url(s) == Some(tabs[i].0)
            &&& match s {
                StepView::NavigateInitial { pinned, .. } => pinned == tabs[i].1,
                StepView::OpenForeground { pinned, .. } => pinned == tabs[i].1,
                StepView::OpenBackground { pinned, .. } => pinned == tabs[i].1,
                StepView::SelectIndex { .. } => false,
            }
        }),
{
}

/// Law: the tab that the engine made by itself is taken over at most once, by
/// the first address there is, and never where the engine made none.
pub proof fn law_initial_tab_is_claimed_once(
    tabs: Seq<session::TabEntry>,
    active: Option<usize>,
    cli: Seq<Seq<char>>,
    has_initial_tab: bool,
    i: int,
    j: int,
)
    requires
        ({
            let s = restore_steps(tabs, active, cli, has_initial_tab);
            &&& 0 <= i < s.len()
            &&& 0 <= j < s.len()
            &&& s[i] is NavigateInitial
            &&& s[j] is NavigateInitial
        }),
    ensures
        i == j,
        has_initial_tab,
        tabs.len() > 0 ==> i == 0,
{
}

/// Law: the first address of the command line comes to the front either way. It
/// takes over the tab that is there, or it opens in the background and the
/// focus still waits for it; none before it is from the command line.
pub proof fn law_requested_address_comes_to_the_front(
    tabs: Seq<session::TabEntry>,
    active: Option<usize>,
    cli: Seq<Seq<char>>,
    has_initial_tab: bool,
)
    requires
        cli.len() > 0,
    ensures
        ({
            let s = restore_steps(tabs, active, cli, has_initial_tab);
            let k = s.len() - cli.len();
            let waits = cli_waits(tabs.len() == 0, has_initial_tab);
            &&& 0 <= k < s.len()
            &&& step_url(s[k]) == Some(cli[0])
            &&& waits ==> (s[k] matches StepView::OpenBackground { from_cli, .. } && from_cli)
            &&& !waits ==> s[k] is NavigateInitial
            &&& forall|i: int|
                0 <= i < k && (#[trigger] s[i]) is OpenBackground
                    ==> !(s[i]->OpenBackground_from_cli)
        }),
{
    let s = restore_steps(tabs, active, cli, has_initial_tab);
    let k = s.len() - cli.len();
    assert forall|i: int| 0 <= i < k && (#[trigger] s[i]) is OpenBackground implies !(
    s[i]->OpenBackground_from_cli) by {
        if i < tabs.len() {
            assert(s[i] == session_step(tabs[i], i, has_initial_tab));
        }
    }
}

/// What was last saved, and whether it is out of date.
pub struct SessionSaver {
    pub dirty: bool,
    /// When the last change was, while it is out of date.
    pub dirty_since: Option<u64>,
    pub last_url: String,
    pub last_active: Option<usize>,
    pub last_tab_ids: Vec<u64>,
}

/// The contents of a [`SessionSaver`].
pub struct SaverView {
    pub dirty: bool,
    pub dirty_since: Option<u64>,
    pub last_url: Seq<char>,
    pub last_active: Option<usize>,
    pub last_tab_ids: Seq<u64>,
}

impl View for SessionSaver {
    type V = SaverView;

    open spec fn view(&self) -> SaverView {
        SaverView {
            dirty: self.dirty,
            dirty_since: self.dirty_since,
            last_url: self.last_url@,
            last_active: self.last_active,
            last_tab_ids: self.last_tab_ids@,
        }
    }
}

/// Nothing was saved yet and nothing has changed.
pub open spec fn nothing_saved() -> SaverView {
    SaverView {
        dirty: false,
        dirty_since: None,
        last_url: Seq::empty(),
        last_active: None,
        last_tab_ids: Seq::empty(),
    }
}

/// Something worth saving changed at `now`.
pub open spec fn changed_at(v: SaverView, now: u64) -> SaverView {
    SaverView { dirty: true, dirty_since: Some(now), ..v }
}

/// Whether the last change is as long ago as it has to be before it is saved.
pub open spec fn due(v: SaverView, now: u64) -> bool {
    v.dirty_since matches Some(t) && now - t >= SESSION_SAVE_DEBOUNCE
}

/// Law: a save waits for a quiet time. Each change starts the clock anew, so
/// after one at `later` a save is due that long after it, and not before,
/// whenever the changes before it were.
pub proof fn law_save_waits_for_quiet(v: SaverView, earlier: u64, later: u64, now: u64)
    ensures
        due(changed_at(changed_at(v, earlier), later), now) == (now - later
            >= SESSION_SAVE_DEBOUNCE),
        changed_at(changed_at(v, earlier), later) == changed_at(v, later),
{
}

/// Law: a session is saved half a second after its last change and not before,
/// and one that has not changed is never due.
pub proof fn law_save_comes_half_a_second_after_a_change(v: SaverView, changed: u64, now: u64)
    ensures
        due(changed_at(v, changed), now) <==> now >= changed + 500_000_000,
        changed_at(v, changed).dirty,
        changed_at(v, changed).last_url == v.last_url,
        changed_at(v, changed).last_active == v.last_active,
        changed_at(v, changed).last_tab_ids == v.last_tab_ids,
        v.dirty_since is None ==> !due(v, now),
        !due(nothing_saved(), now) && !nothing_saved().dirty,
{
}

/// Law: a session is left unsaved only if it was not marked as changed and its
/// active tab, its tabs and its address are those of the last save.
pub proof fn law_only_an_unchanged_session_is_left(
    s: SessionSaver,
    active: Option<usize>,
    ids: Seq<u64>,
    url: Seq<char>,
)
    ensures
        s.dirty ==> s.stale(active, ids, url),
        active != s.last_active ==> s.stale(active, ids, url),
        ids != s.last_tab_ids@ ==> s.stale(active, ids, url),
        url != s.last_url@ ==> s.stale(active, ids, url),
        !s.dirty ==> !s.stale(s.last_active, s.last_tab_ids@, s.last_url@),
{
}

/// Whether two lists of tab ids are the same.
fn same_ids(a: &Vec<u64>, b: &Vec<u64>) -> (r: bool)
    ensures
        r == (a@ == b@),
{
    if a.len() != b.len() {
        return false;
    }
    let mut i: usize = 0;
    while i < a.len()
        invariant
            i <= a@.len(),
            a@.len() == b@.len(),
            forall|k: int| 0 <= k < i ==> a@[k] == b@[k],
        decreases a.len() - i,
    {
        if a[i] != b[i] {
            return false;
        }
        i = i + 1;
    }
    proof {
        assert(a@ =~= b@);
    }
    true
}

/// Whether two optional indices are the same.
pub fn same_index(a: Option<usize>, b: Option<usize>) -> (r: bool)
    ensures
        r == (a == b),
{
    match (a, b) {
        (Some(x), Some(y)) => x == y,
        (None, None) => true,
        _ => false,
    }
}

impl SessionSaver {
    /// The clock runs only while something is unsaved.
    pub open spec fn wf(self) -> bool {
        self.dirty == (self.dirty_since is Some)
    }

    /// Nothing was saved yet and nothing has changed.
    pub fn new() -> (r: Self)
        ensures
            r.wf(),
            r@ == nothing_saved(),
    {
        let r = SessionSaver {
            dirty: false,
            dirty_since: None,
            last_url: String::new(),
            last_active: None,
            last_tab_ids: Vec::new(),
        };
        proof {
            assert(r.last_url@ =~= Seq::empty());
            assert(r.last_tab_ids@ =~= Seq::empty());
        }
        r
    }

    /// Something worth saving changed. Each change starts the clock anew.
    pub fn mark_session_dirty(&mut self, now: u64)
        ensures
            final(self)@ == changed_at(old(self)@, now),
            final(self).wf(),
    {
        self.dirty = true;
        self.dirty_since = Some(now);
    }

    /// Whether it has been quiet long enough for a change to be saved.
    pub fn save_due(&self, now: u64) -> (r: bool)
        ensures
            r == due(self@, now),
    {
        match self.dirty_since {
            Some(t) => now >= t && now - t >= SESSION_SAVE_DEBOUNCE,
            None => false,
        }
    }

    /// Whether the live tabs differ from what was last saved, or are marked as
    /// changed.
    pub open spec fn stale(self, active: Option<usize>, ids: Seq<u64>, url: Seq<char>) -> bool {
        ||| self.dirty
        ||| active != self.last_active
        ||| ids != self.last_tab_ids@
        ||| url != self.last_url@
    }

    /// Whether the live tabs have to be saved.
    pub fn needs_save(&self, active: Option<usize>, ids: &Vec<u64>, url: &str) -> (r: bool)
        ensures
            r == self.stale(active, ids@, url@),
    {
        self.dirty || !same_index(active, self.last_active) || !same_ids(ids, &self.last_tab_ids)
            || !same_text(url, self.last_url.as_str())
    }

    /// The live tabs were saved.
    pub fn saved(&mut self, active: Option<usize>, ids: Vec<u64>, url: String)
        ensures
            !final(self).dirty,
            final(self).dirty_since is None,
            final(self).last_active == active,
            final(self).last_tab_ids == ids,
            final(self).last_url == url,
            !final(self).stale(active, ids@, url@),
            final(self).wf(),
    {
        self.last_url = url;
        self.last_active = active;
        self.last_tab_ids = ids;
        self.dirty = false;
        self.dirty_since = None;
    }
}

/// Law: the models of the steps and of the saved tabs show each of them in its place, with
/// what it holds.
pub proof fn law_steps_are_seen_whole(v: Seq<RestoreStep>, w: Seq<(String, bool)>, u: String, a: bool, b: bool, n: usize)
    ensures
        steps_view(v).len() == v.len(),
        forall|i: int| 0 <= i < v.len() ==> #[trigger] steps_view(v)[i] == v[i]@,
        tabs_view(w).len() == w.len(),
        forall|i: int| 0 <= i < w.len() ==> (#[trigger] tabs_view(w)[i]).0 == w[i].0@,
        forall|i: int| 0 <= i < w.len() ==> (#[trigger] tabs_view(w)[i]).1 == w[i].1,
        (RestoreStep::NavigateInitial { url: u, pinned: a, prefill_always: b })@ == (StepView::NavigateInitial {
            url: u@,
            pinned: a,
            prefill_always: b,
        }),
        (RestoreStep::OpenForeground { url: u, pinned: a })@ == (StepView::OpenForeground {
            url: u@,
            pinned: a,
        }),
        (RestoreStep::OpenBackground { url: u, pinned: a, from_cli: b })@ == (StepView::OpenBackground {
            url: u@,
            pinned: a,
            from_cli: b,
        }),
        (RestoreStep::SelectIndex { index: n })@ == (StepView::SelectIndex { index: n }),
{
}

/// Law: the model of the saver shows each part of it.
pub proof fn law_saver_is_seen_whole(x: SessionSaver)
    ensures
        x@.dirty == x.dirty,
        x@.dirty_since == x.dirty_since,
        x@.last_active == x.last_active,
        x@.last_url == x.last_url@,
        x@.last_tab_ids == x.last_tab_ids@,
{
}

} // verus!
