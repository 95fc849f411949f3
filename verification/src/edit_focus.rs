//! Which field of a page has the caret, and what that does to the mode.
use vstd::prelude::*;
use vstd::string::*;
use crate::text::same_text;

verus! {

/// Within this time after a field lost the caret another may take it over
/// without leaving insert mode.
pub const BLUR_TRANSFER_WINDOW: u64 = 250_000_000;

/// The field with the caret.
#[derive(Debug)]
pub enum EditFocus {
    /// No field has it.
    Idle,
    /// Keys go to this field.
    Editing { field_id: String },
}

impl EditFocus {
    /// The field, if there is one.
    pub open spec fn field(self) -> Option<Seq<char>> {
        match self {
            EditFocus::Idle => None,
            EditFocus::Editing { field_id } => Some(field_id@),
        }
    }

    /// Whether this field has the caret.
    pub fn is_editing(&self, id: &str) -> (r: bool)
        ensures
            r == (self.field() == Some(id@)),
    {
        match self {
            EditFocus::Idle => false,
            EditFocus::Editing { field_id } => same_text(field_id.as_str(), id),
        }
    }
}

/// What a page reports.
#[derive(Debug)]
pub enum EditConsoleEvent {
    /// A field got the caret.
    Focus { field_id: String },
    /// A field lost the caret.
    Blur { field_id: String },
    /// The page changed a field.
    Mutate { field_id: String },
    /// The selected text, to be copied.
    Selection { value: String },
}

/// What a report leads to.
#[derive(Debug)]
pub enum EditEffect {
    Nothing,
    /// Attach to this field and enter insert mode.
    Attach { field_id: String },
    /// Copy this text.
    Copy { value: String },
}

/// A report without its strings.
pub enum EventView {
    Focus(Seq<char>),
    Blur(Seq<char>),
    Mutate(Seq<char>),
    Selection(Seq<char>),
}

impl View for EditConsoleEvent {
    type V = EventView;

    open spec fn view(&self) -> EventView {
        match self {
            EditConsoleEvent::Focus { field_id } => EventView::Focus(field_id@),
            EditConsoleEvent::Blur { field_id } => EventView::Blur(field_id@),
            EditConsoleEvent::Mutate { field_id } => EventView::Mutate(field_id@),
            EditConsoleEvent::Selection { value } => EventView::Selection(value@),
        }
    }
}

/// An effect without its strings.
pub enum EffectView {
    Nothing,
    Attach(Seq<char>),
    Copy(Seq<char>),
}

impl View for EditEffect {
    type V = EffectView;

    open spec fn view(&self) -> EffectView {
        match self {
            EditEffect::Nothing => EffectView::Nothing,
            EditEffect::Attach { field_id } => EffectView::Attach(field_id@),
            EditEffect::Copy { value } => EffectView::Copy(value@),
        }
    }
}

/// What is remembered of the page's fields.
pub struct EditState {
    pub focus: EditFocus,
    /// When the caret left a field, until it is known whether another took it.
    pub pending_blur_at: Option<u64>,
    /// The field that had the caret last.
    pub last_focused_field: Option<String>,
    /// When the user last asked for insert mode.
    pub insert_intent_at: Option<u64>,
}

/// The contents of an [`EditState`].
pub struct EditView {
    pub focus: Option<Seq<char>>,
    pub pending_blur_at: Option<u64>,
    pub last_focused_field: Option<Seq<char>>,
    pub insert_intent_at: Option<u64>,
}

impl View for EditState {
    type V = EditView;

    open spec fn view(&self) -> EditView {
        EditView {
            focus: self.focus.field(),
            pending_blur_at: self.pending_blur_at,
            last_focused_field: match self.last_focused_field {
                Some(f) => Some(f@),
                None => None,
            },
            insert_intent_at: self.insert_intent_at,
        }
    }
}

/// A page on which nothing has had the caret.
pub open spec fn untouched() -> EditView {
    EditView {
        focus: None,
        pending_blur_at: None,
        last_focused_field: None,
        insert_intent_at: None,
    }
}

/// One report: a field that gets the caret, unless it has it, is attached; the
/// field that has it can lose it; a selection that is not empty is copied.
pub open spec fn reported(v: EditView, ev: EventView, now: u64) -> (EditView, EffectView) {
    match ev {
        EventView::Focus(id) => if v.focus == Some(id) {
            (v, EffectView::Nothing)
        } else {
            (
                EditView {
                    focus: Some(id),
                    pending_blur_at: None,
                    last_focused_field: Some(id),
                    insert_intent_at: None,
                },
                EffectView::Attach(id),
            )
        },
        EventView::Blur(id) => if v.focus == Some(id) {
            (EditView { focus: None, pending_blur_at: Some(now), ..v }, EffectView::Nothing)
        } else {
            (v, EffectView::Nothing)
        },
        EventView::Mutate(_) => (v, EffectView::Nothing),
        EventView::Selection(value) => (
            v,
            if value.len() == 0 {
                EffectView::Nothing
            } else {
                EffectView::Copy(value)
            },
        ),
    }
}

/// Several reports, one after the other.
pub open spec fn drained(v: EditView, evs: Seq<EventView>, now: u64) -> (EditView, Seq<EffectView>)
    decreases evs.len(),
{
    if evs.len() == 0 {
        (v, Seq::empty())
    } else {
        let (before, effects) = drained(v, evs.drop_last(), now);
        let (after, effect) = reported(before, evs.last(), now);
        (after, effects.push(effect))
    }
}

/// Time passed since a field lost the caret: the fields, and whether insert mode
/// ends.
pub open spec fn expired(v: EditView, now: u64, in_insert: bool) -> (EditView, bool) {
    if v.pending_blur_at matches Some(t) && now - t >= BLUR_TRANSFER_WINDOW {
        (EditView { pending_blur_at: None, ..v }, in_insert)
    } else {
        (v, false)
    }
}

/// The views of a list of reports.
pub open spec fn events_view(v: Seq<EditConsoleEvent>) -> Seq<EventView> {
    v.map_values(|e: EditConsoleEvent| e@)
}

/// The views of a list of effects.
pub open spec fn effects_view(v: Seq<EditEffect>) -> Seq<EffectView> {
    v.map_values(|e: EditEffect| e@)
}

impl EditState {
    /// A page on which nothing has had the caret.
    pub fn new() -> (r: Self)
        ensures
            r@ == untouched(),
    {
        EditState {
            focus: EditFocus::Idle,
            pending_blur_at: None,
            last_focused_field: None,
            insert_intent_at: None,
        }
    }

    /// Take one report in.
    pub fn report(&mut self, ev: EditConsoleEvent, now: u64) -> (effect: EditEffect)
        ensures
            (final(self)@, effect@) == reported(old(self)@, ev@, now),
    {
        match ev {
            EditConsoleEvent::Focus { field_id } => {
                if self.focus.is_editing(field_id.as_str()) {
                    return EditEffect::Nothing;
                }
                self.insert_intent_at = None;
                self.pending_blur_at = None;
                self.last_focused_field = Some(field_id.clone());
                self.focus = EditFocus::Editing { field_id: field_id.clone() };
                EditEffect::Attach { field_id }
            },
            EditConsoleEvent::Blur { field_id } => {
                if self.focus.is_editing(field_id.as_str()) {
                    self.focus = EditFocus::Idle;
                    self.pending_blur_at = Some(now);
                }
                EditEffect::Nothing
            },
            EditConsoleEvent::Mutate { .. } => EditEffect::Nothing,
            EditConsoleEvent::Selection { value } => {
                if value.as_str().is_empty() {
                    EditEffect::Nothing
                } else {
                    EditEffect::Copy { value }
                }
            },
        }
    }

    /// Take all queued reports in. Returns what each of them leads to.
    pub fn drain_edit_focus_events(
        &mut self,
        events: Vec<EditConsoleEvent>,
        now: u64,
    ) -> (effects: Vec<EditEffect>)
        ensures
            (final(self)@, effects_view(effects@)) == drained(
                old(self)@,
                events_view(events@),
                now,
            ),
    {
        let mut effects: Vec<EditEffect> = Vec::new();
        let ghost evs = events_view(events@);
        let ghost raw = events@;
        proof {
            assert(evs.take(0) =~= Seq::empty());
            assert(effects_view(effects@) =~= Seq::empty());
        }
        for ev in it: events
            invariant
                it.seq() == raw,
                evs == events_view(raw),
                (self@, effects_view(effects@)) == drained(
                    old(self)@,
                    evs.take(it.index() as int),
                    now,
                ),
        {
            let ghost n = it.index() as int;
            proof {
                assert(evs.take(n + 1).drop_last() =~= evs.take(n));
                assert(evs.take(n + 1).last() == ev@);
            }
            let effect = self.report(ev, now);
            let ghost before = effects@;
            let ghost shown = effect@;
            effects.push(effect);
            proof {
                assert(effects_view(effects@) =~= effects_view(before).push(shown));
            }
        }
        proof {
            assert(evs.take(evs.len() as int) =~= evs);
        }
        effects
    }

    /// Whether a lost caret ends insert mode now: no field took it over in
    /// time, and nothing else has ended the mode yet.
    pub fn expire_pending_blur(&mut self, now: u64, in_insert: bool) -> (leave_insert: bool)
        ensures
            (final(self)@, leave_insert) == expired(old(self)@, now, in_insert),
    {
        match self.pending_blur_at {
            Some(t) => {
                if now < t || now - t < BLUR_TRANSFER_WINDOW {
                    return false;
                }
                self.pending_blur_at = None;
                in_insert
            },
            None => false,
        }
    }
}

/// Law: a report that another field lost the caret, or that the page changed a
/// field, changes nothing.
pub proof fn law_foreign_reports_change_nothing(v: EditView, id: Seq<char>, now: u64)
    requires
        v.focus != Some(id),
    ensures
        reported(v, EventView::Blur(id), now) == (v, EffectView::Nothing),
        reported(v, EventView::Mutate(id), now) == (v, EffectView::Nothing),
{
}

/// Law: a caret that moves from one field to another leaves no lost caret
/// behind, so insert mode goes on.
pub proof fn law_moving_caret_stays_in_insert(
    v: EditView,
    a: Seq<char>,
    b: Seq<char>,
    now: u64,
    later: u64,
)
    requires
        v.focus == Some(a),
    ensures
        ({
            let (lost, _) = reported(v, EventView::Blur(a), now);
            let (moved, effect) = reported(lost, EventView::Focus(b), later);
            &&& moved.focus == Some(b)
            &&& moved.pending_blur_at is None
            &&& effect == EffectView::Attach(b)
        }),
{
}

/// Law: after any reports, the field with the caret, if there is one, is the one
/// that had it last.
pub proof fn law_focus_is_the_last_focused(v: EditView, evs: Seq<EventView>, now: u64)
    requires
        v.focus is Some ==> v.last_focused_field == v.focus,
    ensures
        ({
            let (after, _) = drained(v, evs, now);
            after.focus is Some ==> after.last_focused_field == after.focus
        }),
    decreases evs.len(),
{
    if evs.len() > 0 {
        law_focus_is_the_last_focused(v, evs.drop_last(), now);
    }
}

/// Law: a field that gets the caret has it, is remembered as the last that had it
/// and is attached; no lost caret and no wish for insert mode is left. A field that
/// has it already is left alone.
pub proof fn law_field_gets_the_caret(v: EditView, id: Seq<char>, now: u64)
    ensures
        ({
            let (w, effect) = reported(v, EventView::Focus(id), now);
            &&& w.focus == Some(id)
            &&& v.focus == Some(id) ==> w == v && effect is Nothing
            &&& v.focus != Some(id) ==> {
                &&& w.last_focused_field == Some(id)
                &&& w.pending_blur_at is None && w.insert_intent_at is None
                &&& effect == EffectView::Attach(id)
            }
        }),
{
}

/// Law: the field that has the caret and loses it is remembered with the moment,
/// and nothing else changes; insert mode does not end by that alone.
pub proof fn law_field_loses_the_caret(v: EditView, id: Seq<char>, now: u64, in_insert: bool)
    requires
        v.focus == Some(id),
    ensures
        ({
            let (w, effect) = reported(v, EventView::Blur(id), now);
            &&& w.focus is None && w.pending_blur_at == Some(now)
            &&& w.last_focused_field == v.last_focused_field && w.insert_intent_at
                == v.insert_intent_at
            &&& effect is Nothing
            &&& !expired(w, now, in_insert).1
        }),
{
}

/// Law: a lost caret that no field took over within 250 milliseconds ends insert
/// mode, once, and never before; where no caret was lost it goes on.
pub proof fn law_lost_caret_ends_insert_mode(v: EditView, lost: u64, now: u64, again: u64)
    requires
        v.pending_blur_at == Some(lost),
    ensures
        ({
            let (w, leaves) = expired(v, now, true);
            &&& leaves <==> now >= lost + 250_000_000
            &&& leaves ==> w == (EditView { pending_blur_at: None, ..v }) && !expired(w, again, true).1
            &&& !leaves ==> w == v
            &&& !expired(v, now, false).1
            &&& !expired(EditView { pending_blur_at: None, ..v }, now, true).1
        }),
{
}

/// Law: a selected text is copied as it is, an empty one is not, and neither
/// touches the fields.
pub proof fn law_selection_is_copied(v: EditView, value: Seq<char>, now: u64)
    ensures
        reported(v, EventView::Selection(value), now).0 == v,
        value.len() > 0 ==> reported(v, EventView::Selection(value), now).1 == EffectView::Copy(
            value,
        ),
        value.len() == 0 ==> reported(v, EventView::Selection(value), now).1 is Nothing,
{
}

/// Law: queued reports are taken in in their order, each with an effect of its
/// own: draining them at once is draining the first ones and then the others.
pub proof fn law_reports_are_taken_in_order(
    v: EditView,
    a: Seq<EventView>,
    b: Seq<EventView>,
    now: u64,
)
    ensures
        ({
            let (w, first) = drained(v, a, now);
            let (x, rest) = drained(w, b, now);
            &&& drained(v, a + b, now) == (x, first + rest)
            &&& first.len() == a.len()
            &&& a.len() == 1 ==> drained(v, a, now) == (
                reported(v, a[0], now).0,
                seq![reported(v, a[0], now).1],
            )
        }),
    decreases a.len() + b.len(),
{
    let (w, first) = drained(v, a, now);
    if a.len() == 1 {
        assert(a.drop_last() =~= Seq::<EventView>::empty());
        assert(drained(v, a.drop_last(), now) == (v, Seq::<EffectView>::empty()));
        assert(first =~= seq![reported(v, a[0], now).1]);
    }
    if b.len() == 0 {
        assert(a + b =~= a);
        assert(first + Seq::<EffectView>::empty() =~= first);
        if a.len() > 0 {
            law_reports_are_taken_in_order(v, a.drop_last(), Seq::empty(), now);
        }
    } else {
        law_reports_are_taken_in_order(v, a, b.drop_last(), now);
        assert((a + b).drop_last() =~= a + b.drop_last());
        assert((a + b).last() == b.last());
        let (y, mid) = drained(w, b.drop_last(), now);
        let (_, e) = reported(y, b.last(), now);
        assert((first + mid).push(e) =~= first + mid.push(e));
    }
}

/// Law: before the first report no field has the caret and nothing is awaited.
pub proof fn law_nothing_is_focused_at_first()
    ensures
        untouched().focus is None,
        untouched().pending_blur_at is None,
        untouched().last_focused_field is None,
        untouched().insert_intent_at is None,
{
}

/// Law: the model of the focus shows each part of it: the field that has the caret, the
/// one that had it last, and both times.
pub proof fn law_focus_state_is_seen_whole(x: EditState, id: String)
    ensures
        x@.pending_blur_at == x.pending_blur_at,
        x@.insert_intent_at == x.insert_intent_at,
        x@.last_focused_field is Some <==> x.last_focused_field is Some,
        x.last_focused_field is Some ==> x@.last_focused_field->0 == x.last_focused_field->0@,
        x@.focus == x.focus.field(),
        EditFocus::Idle.field() is None,
        (EditFocus::Editing { field_id: id }).field() == Some(id@),
{
}

/// Law: the models of the reports and of what follows from them keep their order, their
/// sort and their text.
pub proof fn law_reports_and_effects_are_seen_whole(v: Seq<EditConsoleEvent>, w: Seq<EditEffect>, t: String)
    ensures
        events_view(v).len() == v.len(),
        forall|i: int| 0 <= i < v.len() ==> #[trigger] events_view(v)[i] == v[i]@,
        effects_view(w).len() == w.len(),
        forall|i: int| 0 <= i < w.len() ==> #[trigger] effects_view(w)[i] == w[i]@,
        (EditConsoleEvent::Focus { field_id: t })@ == EventView::Focus(t@),
        (EditConsoleEvent::Blur { field_id: t })@ == EventView::Blur(t@),
        (EditConsoleEvent::Mutate { field_id: t })@ == EventView::Mutate(t@),
        (EditConsoleEvent::Selection { value: t })@ == EventView::Selection(t@),
        EditEffect::Nothing@ is Nothing,
        (EditEffect::Attach { field_id: t })@ == EffectView::Attach(t@),
        (EditEffect::Copy { value: t })@ == EffectView::Copy(t@),
{
}

} // verus!
