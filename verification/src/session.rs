//! The saved tab list.
//!
//! Pinned and unpinned tabs are saved in two lists. The tab order at run time
//! is the pinned tabs, then the others; `active` is an index into that order.
use vstd::prelude::*;
use vstd::string::*;
use crate::text;
use crate::text::join;

verus! {

/// The version of the saved form.
pub const SCHEMA_VERSION: u32 = 1;

/// A saved tab list.
#[derive(Debug, Clone)]
pub struct Session {
    pub version: u32,
    /// Pinned tabs in their saved order.
    pub pinned: Vec<String>,
    /// The other tabs in their saved order.
    pub tabs: Vec<String>,
    /// The active tab, in the combined order.
    pub active: Option<usize>,
}

/// One tab: its address, and whether it is pinned.
pub type TabEntry = (Seq<char>, bool);

/// The entries whose pin state is `pinned`, as addresses, in order.
pub open spec fn urls_with(tabs: Seq<TabEntry>, pinned: bool) -> Seq<Seq<char>>
    decreases tabs.len(),
{
    if tabs.len() == 0 {
        Seq::empty()
    } else {
        let rest = urls_with(tabs.drop_last(), pinned);
        if tabs.last().1 == pinned { rest.push(tabs.last().0) } else { rest }
    }
}

/// Every address of a list, under one pin state.
pub open spec fn marked(urls: Seq<Seq<char>>, pinned: bool) -> Seq<TabEntry> {
    Seq::new(urls.len(), |i: int| (urls[i], pinned))
}

/// The tabs of a slice of `(url, pinned)` pairs.
pub open spec fn entries_view(tabs: Seq<(&str, bool)>) -> Seq<TabEntry> {
    Seq::new(tabs.len(), |i: int| (tabs[i].0@, tabs[i].1))
}

/// The two lists that tabs are saved in: the pinned ones, and the others.
pub open spec fn saved_lists(tabs: Seq<TabEntry>) -> (Seq<Seq<char>>, Seq<Seq<char>>) {
    (urls_with(tabs, true), urls_with(tabs, false))
}

impl Default for Session {
    fn default() -> (r: Self)
        ensures
            r.version == SCHEMA_VERSION,
            r.pinned@.len() == 0,
            r.tabs@.len() == 0,
            r.active is None,
    {
        Session { version: SCHEMA_VERSION, pinned: Vec::new(), tabs: Vec::new(), active: None }
    }
}

/// The version of a saved list that names none.
pub fn default_version() -> (r: u32)
    ensures
        r == SCHEMA_VERSION,
{
    SCHEMA_VERSION
}

impl Session {
    /// The tabs in the combined order.
    pub open spec fn combined(self) -> Seq<TabEntry> {
        marked(text::texts(self.pinned@), true) + marked(text::texts(self.tabs@), false)
    }

    /// The session of a list of `(url, pinned)` pairs: the two kinds are parted
    /// and each keeps its order.
    pub fn from_tabs(tabs: &[(&str, bool)]) -> (r: Self)
        ensures
            r.version == SCHEMA_VERSION,
            (text::texts(r.pinned@), text::texts(r.tabs@)) == saved_lists(entries_view(tabs@)),
            r.combined() == parted(entries_view(tabs@)),
            r.active is None,
    {
        let mut pinned: Vec<String> = Vec::new();
        let mut unpinned: Vec<String> = Vec::new();
        let ghost all = entries_view(tabs@);
        let mut i: usize = 0;
        proof {
            assert(all.take(0) =~= Seq::empty());
            assert(text::texts(pinned@) =~= urls_with(all.take(0), true));
            assert(text::texts(unpinned@) =~= urls_with(all.take(0), false));
        }
        while i < tabs.len()
            invariant
                i <= tabs@.len(),
                all == entries_view(tabs@),
                text::texts(pinned@) == urls_with(all.take(i as int), true),
                text::texts(unpinned@) == urls_with(all.take(i as int), false),
            decreases tabs.len() - i,
        {
            let (url, is_pinned) = tabs[i];
            let ghost before_p = pinned@;
            let ghost before_u = unpinned@;
            let owned: String = url.to_owned();
            proof {
                let t = all.take(i as int + 1);
                assert(t.drop_last() =~= all.take(i as int));
                assert(t.last() == (url@, is_pinned));
                assert(text::texts(before_p.push(owned)) =~= text::texts(before_p).push(url@));
                assert(text::texts(before_u.push(owned)) =~= text::texts(before_u).push(url@));
            }
            if is_pinned {
                pinned.push(owned);
            } else {
                unpinned.push(owned);
            }
            i = i + 1;
        }
        proof {
            assert(all.take(all.len() as int) =~= all);
        }
        Session { version: SCHEMA_VERSION, pinned, tabs: unpinned, active: None }
    }

    /// Like [`Self::from_tabs`], with the active tab recorded.
    pub fn from_tabs_with_active(tabs: &[(&str, bool)], active: Option<usize>) -> (r: Self)
        ensures
            r.version == SCHEMA_VERSION,
            (text::texts(r.pinned@), text::texts(r.tabs@)) == saved_lists(entries_view(tabs@)),
            r.combined() == parted(entries_view(tabs@)),
            r.active == active,
    {
        let mut s = Self::from_tabs(tabs);
        s.active = active;
        s
    }

    /// The `(url, pinned)` pairs in the combined order.
    pub fn entries(&self) -> (r: Vec<(&str, bool)>)
        ensures
            entries_view(r@) == self.combined(),
    {
        let mut out: Vec<(&str, bool)> = Vec::new();
        let ghost goal = self.combined();
        let mut i: usize = 0;
        while i < self.pinned.len()
            invariant
                i <= self.pinned@.len(),
                goal == self.combined(),
                entries_view(out@) == goal.take(i as int),
            decreases self.pinned.len() - i,
        {
            let url: &str = self.pinned[i].as_str();
            let ghost before = out@;
            out.push((url, true));
            proof {
                assert(entries_view(out@) =~= entries_view(before).push((url@, true)));
                assert(goal.take(i as int + 1) =~= goal.take(i as int).push(goal[i as int]));
                assert(goal[i as int] == (url@, true));
            }
            i = i + 1;
        }
        let mut j: usize = 0;
        while j < self.tabs.len()
            invariant
                j <= self.tabs@.len(),
                goal == self.combined(),
                entries_view(out@) == goal.take(self.pinned@.len() + j),
            decreases self.tabs.len() - j,
        {
            let url: &str = self.tabs[j].as_str();
            let ghost before = out@;
            let ghost n = self.pinned@.len() + j;
            out.push((url, false));
            proof {
                assert(entries_view(out@) =~= entries_view(before).push((url@, false)));
                assert(goal.take(n + 1) =~= goal.take(n).push(goal[n as int]));
                assert(goal[n as int] == (url@, false));
            }
            j = j + 1;
        }
        proof {
            assert(goal.take(goal.len() as int) =~= goal);
        }
        out
    }

    /// Whether a list that was read can be restored: its version is the one
    /// this library writes.
    pub fn is_current(&self) -> (r: bool)
        ensures
            r == (self.version == SCHEMA_VERSION),
    {
        self.version == SCHEMA_VERSION
    }
}

/// The entries that are kept, in order.
pub open spec fn kept<T>(entries: Seq<T>, keep: Seq<bool>) -> Seq<T>
    decreases entries.len(),
{
    if entries.len() == 0 {
        Seq::empty()
    } else {
        let rest = kept(entries.drop_last(), keep.drop_last());
        if keep.last() { rest.push(entries.last()) } else { rest }
    }
}

/// How many entries are dropped.
pub open spec fn dropped(keep: Seq<bool>) -> nat
    decreases keep.len(),
{
    if keep.len() == 0 {
        0
    } else {
        dropped(keep.drop_last()) + if keep.last() { 0nat } else { 1nat }
    }
}

/// The active index after the drops: moved down by every drop before it, gone
/// where that points past the kept entries.
pub open spec fn rebased(active: Option<usize>, keep: Seq<bool>) -> Option<usize> {
    match active {
        Some(a) => {
            let before = dropped(keep.take(if a <= keep.len() { a as int } else { keep.len() as int }));
            let moved = a - before;
            if moved < keep.len() - dropped(keep) { Some(moved as usize) } else { None }
        },
        None => None,
    }
}

/// No more entries are dropped than there are, and the rest is kept.
pub proof fn lemma_kept_len<T>(entries: Seq<T>, keep: Seq<bool>)
    requires
        entries.len() == keep.len(),
    ensures
        dropped(keep) <= keep.len(),
        kept(entries, keep).len() == keep.len() - dropped(keep),
    decreases keep.len(),
{
    if keep.len() > 0 {
        lemma_kept_len(entries.drop_last(), keep.drop_last());
    }
}

/// Dropping is counted in prefixes.
proof fn lemma_dropped_prefix(keep: Seq<bool>, n: int)
    requires
        0 <= n <= keep.len(),
    ensures
        dropped(keep.take(n)) <= dropped(keep),
        dropped(keep.take(n)) <= n,
    decreases keep.len(),
{
    if n == keep.len() {
        assert(keep.take(n) =~= keep);
        lemma_kept_len(keep, keep);
    } else {
        lemma_dropped_prefix(keep.drop_last(), n);
        assert(keep.drop_last().take(n) =~= keep.take(n));
    }
}

/// What is kept of a prefix comes first.
proof fn lemma_kept_prefix<T>(entries: Seq<T>, keep: Seq<bool>, n: int)
    requires
        entries.len() == keep.len(),
        0 <= n <= keep.len(),
    ensures
        kept(entries.take(n), keep.take(n)).is_prefix_of(kept(entries, keep)),
    decreases keep.len(),
{
    if n == keep.len() {
        assert(keep.take(n) =~= keep);
        assert(entries.take(n) =~= entries);
    } else {
        lemma_kept_prefix(entries.drop_last(), keep.drop_last(), n);
        assert(keep.drop_last().take(n) =~= keep.take(n));
        assert(entries.drop_last().take(n) =~= entries.take(n));
        let a = kept(entries.take(n), keep.take(n));
        let b = kept(entries.drop_last(), keep.drop_last());
        let c = kept(entries, keep);
        assert(b =~= c.subrange(0, b.len() as int));
        assert(a =~= c.subrange(0, a.len() as int));
    }
}

/// Keep the entries that `keep` accepts, and move `active` onto the kept list.
pub fn filter_entries<'a, F: Fn(&str) -> bool>(
    entries: Vec<(&'a str, bool)>,
    active: Option<usize>,
    keep: F,
) -> (r: (Vec<(&'a str, bool)>, Option<usize>))
    requires
        forall|i: int| 0 <= i < entries@.len() ==> call_requires(keep, (#[trigger] entries@[i].0,)),
    ensures
        exists|answers: Seq<bool>|
            #![trigger kept(entries@, answers)]
            {
                &&& answers.len() == entries@.len()
                &&& forall|i: int|
                    0 <= i < entries@.len() ==> call_ensures(
                        keep,
                        (#[trigger] entries@[i].0,),
                        answers[i],
                    )
                &&& r.0@ == kept(entries@, answers)
                &&& r.1 == rebased(active, answers)
            },
{
    let mut out: Vec<(&'a str, bool)> = Vec::new();
    let mut dropped_before_active: usize = 0;
    let ghost mut answers: Seq<bool> = Seq::empty();
    let mut i: usize = 0;
    proof {
        assert(entries@.take(0) =~= Seq::empty());
    }
    while i < entries.len()
        invariant
            i <= entries@.len(),
            forall|k: int|
                0 <= k < entries@.len() ==> call_requires(keep, (#[trigger] entries@[k].0,)),
            answers.len() == i,
            forall|k: int|
                0 <= k < i ==> call_ensures(keep, (#[trigger] entries@[k].0,), answers[k]),
            out@ == kept(entries@.take(i as int), answers),
            active matches Some(a) ==> dropped_before_active == dropped(
                answers.take(if a <= i { a as int } else { i as int }),
            ),
            active is None ==> dropped_before_active == 0,
            dropped_before_active <= i,
        decreases entries.len() - i,
    {
        let (url, pinned) = entries[i];
        let wanted = keep(url);
        let ghost prior = answers;
        proof {
            answers = prior.push(wanted);
            assert(answers.drop_last() =~= prior);
            let t = entries@.take(i as int + 1);
            assert(t.drop_last() =~= entries@.take(i as int));
            assert(t.last() == entries@[i as int]);
            assert(prior.take(i as int) =~= prior);
            assert(answers.take(i as int + 1) =~= answers);
            if active is Some && active->0 <= i {
                assert(answers.take(active->0 as int) =~= prior.take(active->0 as int));
            }
        }
        if wanted {
            out.push((url, pinned));
        } else {
            match active {
                Some(a) => {
                    if i < a {
                        dropped_before_active = dropped_before_active + 1;
                    }
                },
                None => {},
            }
        }
        i = i + 1;
    }
    proof {
        assert(entries@.take(entries@.len() as int) =~= entries@);
        lemma_kept_len(entries@, answers);
        if active is Some {
            let n = if active->0 <= i { active->0 as int } else { i as int };
            lemma_dropped_prefix(answers, n);
        }
    }
    let adjusted: Option<usize> = match active {
        Some(a) => {
            let moved: usize = a.saturating_sub(dropped_before_active);
            if moved < out.len() { Some(moved) } else { None }
        },
        None => None,
    };
    proof {
        assert(out@ == kept(entries@, answers));
        assert(adjusted == rebased(active, answers));
    }
    (out, adjusted)
}

/// Law: where the active entry is kept, the moved index names that same entry.
pub proof fn law_active_entry_is_followed<T>(entries: Seq<T>, keep: Seq<bool>, a: usize)
    requires
        entries.len() == keep.len(),
        a < entries.len(),
        keep[a as int],
    ensures
        rebased(Some(a), keep) matches Some(j) && kept(entries, keep)[j as int]
            == entries[a as int],
{
    lemma_kept_len(entries, keep);
    lemma_dropped_prefix(keep, a as int);
    let k1 = keep.take(a as int);
    let k2 = keep.take(a + 1);
    let e1 = entries.take(a as int);
    let e2 = entries.take(a + 1);
    assert(k2.drop_last() =~= k1);
    assert(e2.drop_last() =~= e1);
    assert(k2.last() == keep[a as int]);
    assert(e2.last() == entries[a as int]);
    lemma_kept_len(e1, k1);
    lemma_kept_prefix(entries, keep, a + 1);
    let p = kept(e2, k2);
    assert(p == kept(e1, k1).push(entries[a as int]));
    assert(p.last() == entries[a as int]);
    assert(kept(entries, keep).subrange(0, p.len() as int)[p.len() - 1] == p.last());
}

/// Law: drops after the active entry leave its index alone.
pub proof fn law_later_drops_do_not_move_active(keep: Seq<bool>, a: usize)
    requires
        a < keep.len(),
        keep[a as int],
        forall|i: int| 0 <= i < a ==> #[trigger] keep[i],
    ensures
        rebased(Some(a), keep) == Some(a),
{
    lemma_none_dropped(keep.take(a as int));
    law_active_entry_is_followed(keep, keep, a);
}

/// Nothing is dropped where everything is kept.
proof fn lemma_none_dropped(keep: Seq<bool>)
    requires
        forall|i: int| 0 <= i < keep.len() ==> #[trigger] keep[i],
    ensures
        dropped(keep) == 0,
    decreases keep.len(),
{
    if keep.len() > 0 {
        lemma_none_dropped(keep.drop_last());
    }
}

/// Law: a saved session lists its pinned tabs first: an entry of the combined
/// order is pinned exactly where its index is below the number of pinned tabs.
pub proof fn law_pinned_come_first(s: Session, i: int)
    requires
        0 <= i < s.combined().len(),
    ensures
        s.combined()[i].1 == (i < s.pinned@.len()),
{
}

/// Parting two runs of pinned and unpinned tabs gives the runs back.
proof fn lemma_parting_runs(p: Seq<Seq<char>>, u: Seq<Seq<char>>)
    ensures
        urls_with(marked(p, true) + marked(u, false), true) == p,
        urls_with(marked(p, true) + marked(u, false), false) == u,
    decreases p.len() + u.len(),
{
    let all = marked(p, true) + marked(u, false);
    if u.len() > 0 {
        let v = u.drop_last();
        lemma_parting_runs(p, v);
        assert(all.drop_last() =~= marked(p, true) + marked(v, false));
        assert(all.last() == (u.last(), false));
        assert(v.push(u.last()) =~= u);
    } else if p.len() > 0 {
        let q = p.drop_last();
        lemma_parting_runs(q, u);
        assert(all.drop_last() =~= marked(q, true) + marked(u, false));
        assert(all.last() == (p.last(), true));
        assert(q.push(p.last()) =~= p);
    } else {
        assert(all =~= Seq::empty());
        assert(p =~= Seq::empty());
        assert(u =~= Seq::empty());
    }
}

/// Law: a session made from the tabs that a session lists has the same two
/// lists.
pub proof fn law_entries_round_trip(s: Session)
    ensures
        urls_with(s.combined(), true) == text::texts(s.pinned@),
        urls_with(s.combined(), false) == text::texts(s.tabs@),
{
    lemma_parting_runs(text::texts(s.pinned@), text::texts(s.tabs@));
}

/// The tabs, pinned ones first, each kind in its order.
pub open spec fn parted(tabs: Seq<TabEntry>) -> Seq<TabEntry> {
    marked(urls_with(tabs, true), true) + marked(urls_with(tabs, false), false)
}

/// Law: saving loses no tab and adds none: every entry is listed as often as it
/// was given.
pub proof fn law_saving_keeps_every_tab(tabs: Seq<TabEntry>)
    ensures
        parted(tabs).to_multiset() == tabs.to_multiset(),
    decreases tabs.len(),
{
    broadcast use vstd::seq_lib::group_to_multiset_ensures;

    if tabs.len() == 0 {
        assert(parted(tabs) =~= tabs);
    } else {
        let rest = tabs.drop_last();
        let last = tabs.last();
        law_saving_keeps_every_tab(rest);
        assert(tabs =~= rest.push(last));
        let p = urls_with(rest, true);
        let u = urls_with(rest, false);
        if last.1 {
            assert(marked(p.push(last.0), true) =~= marked(p, true).push(last));
            vstd::seq_lib::lemma_multiset_commutative(marked(p, true), marked(u, false));
            vstd::seq_lib::lemma_multiset_commutative(
                marked(p, true).push(last),
                marked(u, false),
            );
            assert(parted(tabs) =~= marked(p, true).push(last) + marked(u, false));
            assert(parted(tabs).to_multiset() =~= parted(rest).to_multiset().insert(last));
        } else {
            assert(marked(u.push(last.0), false) =~= marked(u, false).push(last));
            assert(parted(tabs) =~= parted(rest).push(last));
        }
    }
}

/// Where the session of a profile is saved.
pub fn default_path(data_dir: &str) -> (r: String)
    ensures
        r@ == text::joined(data_dir@, "session.json"@),
{
    join(data_dir, "session.json")
}

/// Law: tabs are saved in two lists, the pinned ones in the first and the others in
/// the second, each in its order: the lists of two runs of tabs are those of the
/// first run followed by those of the second, and a tab alone stands in the list
/// that its pin says, by its address.
pub proof fn law_tabs_are_saved_by_their_pin(a: Seq<TabEntry>, b: Seq<TabEntry>, t: TabEntry)
    ensures
        saved_lists(a + b).0 == saved_lists(a).0 + saved_lists(b).0,
        saved_lists(a + b).1 == saved_lists(a).1 + saved_lists(b).1,
        t.1 ==> saved_lists(seq![t]) == (seq![t.0], Seq::<Seq<char>>::empty()),
        !t.1 ==> saved_lists(seq![t]) == (Seq::<Seq<char>>::empty(), seq![t.0]),
    decreases b.len(),
{
    let one = seq![t];
    assert(one.drop_last() =~= Seq::<TabEntry>::empty());
    assert(urls_with(one.drop_last(), true) == Seq::<Seq<char>>::empty());
    assert(urls_with(one.drop_last(), false) == Seq::<Seq<char>>::empty());
    assert(urls_with(one, t.1) =~= seq![t.0]);
    if b.len() == 0 {
        assert(a + b =~= a);
        assert(urls_with(a, true) + Seq::<Seq<char>>::empty() =~= urls_with(a, true));
        assert(urls_with(a, false) + Seq::<Seq<char>>::empty() =~= urls_with(a, false));
    } else {
        law_tabs_are_saved_by_their_pin(a, b.drop_last(), t);
        assert((a + b).drop_last() =~= a + b.drop_last());
        assert((a + b).last() == b.last());
        assert(urls_with(a + b, true) =~= urls_with(a, true) + urls_with(b, true));
        assert(urls_with(a + b, false) =~= urls_with(a, false) + urls_with(b, false));
    }
}

/// Law: a session lists its tabs again with their addresses: entry `i` is the
/// `i`th pinned tab, and behind those come the others.
pub proof fn law_session_lists_its_addresses(s: Session, i: int)
    ensures
        s.combined().len() == s.pinned@.len() + s.tabs@.len(),
        0 <= i < s.pinned@.len() ==> s.combined()[i] == (s.pinned@[i]@, true),
        0 <= i < s.tabs@.len() ==> s.combined()[s.pinned@.len() + i] == (s.tabs@[i]@, false),
{
}

/// Law: exactly the entries that are wanted are kept, in their order: what is kept
/// of two runs is what is kept of the first and then of the second, and an entry
/// alone is kept where it is wanted.
pub proof fn law_wanted_entries_are_kept_in_order<T>(
    a: Seq<T>,
    ka: Seq<bool>,
    b: Seq<T>,
    kb: Seq<bool>,
    e: T,
)
    requires
        a.len() == ka.len(),
        b.len() == kb.len(),
    ensures
        kept(a + b, ka + kb) == kept(a, ka) + kept(b, kb),
        kept(seq![e], seq![true]) == seq![e],
        kept(seq![e], seq![false]) == Seq::<T>::empty(),
    decreases b.len(),
{
    assert(seq![e].drop_last() =~= Seq::<T>::empty());
    assert(kept(seq![e].drop_last(), seq![true].drop_last()) == Seq::<T>::empty());
    assert(kept(seq![e].drop_last(), seq![false].drop_last()) == Seq::<T>::empty());
    assert(kept(seq![e], seq![true]) =~= seq![e]);
    if b.len() == 0 {
        assert(a + b =~= a);
        assert(ka + kb =~= ka);
        assert(kept(a, ka) + Seq::<T>::empty() =~= kept(a, ka));
    } else {
        law_wanted_entries_are_kept_in_order(a, ka, b.drop_last(), kb.drop_last(), e);
        assert((a + b).drop_last() =~= a + b.drop_last());
        assert((ka + kb).drop_last() =~= ka + kb.drop_last());
        assert(kept(a + b, ka + kb) =~= kept(a, ka) + kept(b, kb));
    }
}

/// Law: after entries were dropped, the active index has as many entries before it
/// as were kept before it. So where the active entry itself is dropped the one that
/// followed it takes its place, and where none is left behind it there is no active
/// one; without an active one there stays none.
pub proof fn law_active_index_moves_with_the_kept<T>(entries: Seq<T>, keep: Seq<bool>, a: usize)
    requires
        entries.len() == keep.len(),
        entries.len() <= usize::MAX,
    ensures
        rebased(None, keep) is None,
        a >= entries.len() ==> rebased(Some(a), keep) is None,
        a < entries.len() ==> {
            let before = kept(entries.take(a as int), keep.take(a as int)).len();
            let all = kept(entries, keep).len();
            &&& before < all ==> rebased(Some(a), keep) == Some(before as usize)
            &&& before >= all ==> rebased(Some(a), keep) is None
        },
{
    lemma_kept_len(entries, keep);
    if a < entries.len() {
        lemma_kept_len(entries.take(a as int), keep.take(a as int));
        lemma_dropped_prefix(keep, a as int);
    } else {
        assert(keep.take(keep.len() as int) =~= keep);
    }
}

/// Law: the model of the tabs shows each of them in its place, address and pin.
pub proof fn law_tabs_are_seen_whole(v: Seq<(&str, bool)>)
    ensures
        entries_view(v).len() == v.len(),
        forall|i: int| 0 <= i < v.len() ==> (#[trigger] entries_view(v)[i]).0 == v[i].0@,
        forall|i: int| 0 <= i < v.len() ==> (#[trigger] entries_view(v)[i]).1 == v[i].1,
{
}

/// Law: sessions are written, and read, in version one of their format.
pub proof fn law_sessions_are_of_version_one(version: u32)
    ensures
        version == SCHEMA_VERSION <==> version == 1,
{
}

} // verus!
