//! Favicons of the open tabs: which are known, which are looked up in the cache
//! on disk, which are written to it.
use vstd::prelude::*;
use vstd::string::*;
use crate::id_map;
use crate::id_map::IdMap;
use crate::text::same_text;

verus! {

/// A decoded favicon.
pub struct TabFavicon {
    pub width: u32,
    pub height: u32,
    pub pixels: Vec<u8>,
}

/// What is looked at of a tab.
pub struct FaviconTab {
    pub browser_id: i32,
    pub url: String,
    /// The origin of the address, if it has one.
    pub origin: Option<String>,
}

/// A tab without its strings.
pub struct FaviconTabView {
    pub browser_id: i32,
    pub url: Seq<char>,
    pub origin: Option<Seq<char>>,
}

impl View for FaviconTab {
    type V = FaviconTabView;

    open spec fn view(&self) -> FaviconTabView {
        FaviconTabView {
            browser_id: self.browser_id,
            url: self.url@,
            origin: match self.origin {
                Some(o) => Some(o@),
                None => None,
            },
        }
    }
}

/// The views of a list of tabs.
pub open spec fn tabs_view(v: Seq<FaviconTab>) -> Seq<FaviconTabView> {
    v.map_values(|t: FaviconTab| t@)
}

/// The browsers of a list of tabs.
pub open spec fn browsers(tabs: Seq<FaviconTabView>) -> Set<i32> {
    tabs.map_values(|t: FaviconTabView| t.browser_id).to_set()
}

/// A map of strings as a map of texts.
pub open spec fn texts_of(m: Map<i32, String>) -> Map<i32, Seq<char>> {
    m.map_values(|s: String| s@)
}

/// Go over the tabs: one whose address has changed since it was last checked is
/// checked again, and, if it has no favicon yet, looked up under its origin.
/// The result is what was checked and what is to be looked up.
pub open spec fn scanned(
    tabs: Seq<FaviconTabView>,
    known: Set<i32>,
    checked: Map<i32, Seq<char>>,
    prefill: Map<i32, Seq<char>>,
) -> (Map<i32, Seq<char>>, Map<i32, Seq<char>>)
    decreases tabs.len(),
{
    if tabs.len() == 0 {
        (checked, prefill)
    } else {
        let (c, p) = scanned(tabs.drop_last(), known, checked, prefill);
        let t = tabs.last();
        if c.dom().contains(t.browser_id) && c[t.browser_id] == t.url {
            (c, p)
        } else {
            (
                c.insert(t.browser_id, t.url),
                if known.contains(t.browser_id) || t.origin is None {
                    p
                } else {
                    p.insert(t.browser_id, t.origin->0)
                },
            )
        }
    }
}

/// What is to be looked up for the tabs: of what a scan of them asks for, the
/// browsers without a favicon.
pub open spec fn looked_up(
    tabs: Seq<FaviconTabView>,
    known: Set<i32>,
    checked: Map<i32, Seq<char>>,
    prefill: Map<i32, Seq<char>>,
) -> Map<i32, Seq<char>> {
    scanned(tabs, known, checked.restrict(browsers(tabs)), prefill).1.remove_keys(known)
}

/// What is to be looked up after a tab was opened.
pub open spec fn registered<A>(
    prefill: Map<i32, A>,
    wanted: bool,
    browser_id: i32,
    origin: Option<A>,
) -> Map<i32, A> {
    if wanted && origin is Some { prefill.insert(browser_id, origin->0) } else { prefill }
}

/// The favicons after some arrived: the newest of a browser stays.
pub open spec fn delivered(
    icons: Map<i32, TabFavicon>,
    updates: Seq<(i32, TabFavicon)>,
) -> Map<i32, TabFavicon>
    decreases updates.len(),
{
    if updates.len() == 0 {
        icons
    } else {
        delivered(icons, updates.drop_last()).insert(updates.last().0, updates.last().1)
    }
}

/// What was looked up after some favicons arrived: their browsers are done.
pub open spec fn settled(
    prefill: Map<i32, Seq<char>>,
    updates: Seq<(i32, TabFavicon)>,
) -> Map<i32, Seq<char>>
    decreases updates.len(),
{
    if updates.len() == 0 {
        prefill
    } else {
        settled(prefill, updates.drop_last()).remove(updates.last().0)
    }
}

/// The origin of the last tab of a browser.
pub open spec fn origin_in(tabs: Seq<FaviconTabView>, id: i32) -> Option<Seq<char>>
    decreases tabs.len(),
{
    if tabs.len() == 0 {
        None
    } else if tabs.last().browser_id == id {
        tabs.last().origin
    } else {
        origin_in(tabs.drop_last(), id)
    }
}

/// What the first half of a pump leads to.
pub enum PumpStep {
    /// Favicons are switched off; whether some were dropped.
    Off { changed: bool },
    /// Look these origins up in the cache.
    Lookups(Vec<(i32, String)>),
}

/// The favicons of the open tabs.
pub struct Favicons {
    /// Favicons are shown.
    pub show: bool,
    /// There is a cache on disk.
    pub has_cache: bool,
    pub icons: IdMap<TabFavicon>,
    /// Origins to look up in the cache.
    pub prefill: IdMap<String>,
    /// The address each browser had when it was last checked.
    pub checked: IdMap<String>,
}

impl Favicons {
    /// No map repeats a key.
    pub open spec fn wf(self) -> bool {
        self.icons.wf() && self.prefill.wf() && self.checked.wf()
    }

    /// Nothing is known yet.
    pub fn new(show: bool, has_cache: bool) -> (r: Self)
        ensures
            r.wf(),
            r.show == show,
            r.has_cache == has_cache,
            r.icons@ == Map::<i32, TabFavicon>::empty(),
            r.prefill@ == Map::<i32, String>::empty(),
            r.checked@ == Map::<i32, String>::empty(),
    {
        Favicons {
            show,
            has_cache,
            icons: IdMap::new(),
            prefill: IdMap::new(),
            checked: IdMap::new(),
        }
    }

    /// A tab was opened: have its origin looked up, if favicons are shown and
    /// cached.
    pub fn register_favicon_prefill(&mut self, browser_id: i32, origin: Option<String>)
        requires
            old(self).wf(),
        ensures
            final(self).wf(),
            final(self).show == old(self).show,
            final(self).has_cache == old(self).has_cache,
            final(self).icons == old(self).icons,
            final(self).checked == old(self).checked,
            final(self).prefill@ == registered(
                old(self).prefill@,
                old(self).show && old(self).has_cache,
                browser_id,
                origin,
            ),
    {
        if !self.show || !self.has_cache {
            return;
        }
        if let Some(o) = origin {
            self.prefill.insert(browser_id, o);
        }
    }

    /// Forget the favicons of browsers that are gone.
    pub fn retain_live(&mut self, live: &Vec<i32>)
        requires
            old(self).wf(),
        ensures
            final(self).wf(),
            final(self).icons@ == old(self).icons@.restrict(live@.to_set()),
            final(self).prefill == old(self).prefill,
            final(self).checked == old(self).checked,
            final(self).show == old(self).show,
            final(self).has_cache == old(self).has_cache,
    {
        self.icons.retain(live);
    }

    /// Go over the tabs and note which of them have to be looked up.
    fn scan(&mut self, tabs: &Vec<FaviconTab>)
        requires
            old(self).wf(),
        ensures
            final(self).wf(),
            final(self).show == old(self).show,
            final(self).has_cache == old(self).has_cache,
            final(self).icons == old(self).icons,
            (texts_of(final(self).checked@), texts_of(final(self).prefill@)) == scanned(
                tabs_view(tabs@),
                old(self).icons@.dom(),
                texts_of(old(self).checked@).restrict(browsers(tabs_view(tabs@))),
                texts_of(old(self).prefill@),
            ),
    {
        let mut live: Vec<i32> = Vec::new();
        let mut i: usize = 0;
        while i < tabs.len()
            invariant
                i <= tabs@.len(),
                live@ == tabs_view(tabs@).map_values(
                    |t: FaviconTabView| t.browser_id,
                ).take(i as int),
            decreases tabs.len() - i,
        {
            live.push(tabs[i].browser_id);
            proof {
                let ids = tabs_view(tabs@).map_values(|t: FaviconTabView| t.browser_id);
                assert(ids.take(i as int).push(ids[i as int]) =~= ids.take(i as int + 1));
            }
            i = i + 1;
        }
        let ghost all = tabs_view(tabs@);
        let ghost c0 = texts_of(old(self).checked@).restrict(browsers(all));
        let ghost p0 = texts_of(old(self).prefill@);
        let ghost known = old(self).icons@.dom();
        self.checked.retain(&live);
        proof {
            let ids = all.map_values(|t: FaviconTabView| t.browser_id);
            assert(ids.take(ids.len() as int) =~= ids);
            assert(texts_of(self.checked@) =~= c0);
            assert(all.take(0) =~= Seq::empty());
        }
        let mut j: usize = 0;
        while j < tabs.len()
            invariant
                j <= tabs@.len(),
                all == tabs_view(tabs@),
                self.wf(),
                self.show == old(self).show,
                self.has_cache == old(self).has_cache,
                self.icons == old(self).icons,
                known == old(self).icons@.dom(),
                (texts_of(self.checked@), texts_of(self.prefill@)) == scanned(
                    all.take(j as int),
                    known,
                    c0,
                    p0,
                ),
            decreases tabs.len() - j,
        {
            let id: i32 = tabs[j].browser_id;
            let ghost t = all[j as int];
            let ghost c = self.checked@;
            let ghost p = self.prefill@;
            proof {
                let s = all.take(j as int + 1);
                assert(s.drop_last() =~= all.take(j as int));
                assert(s.last() == t);
                assert(texts_of(c).dom().contains(id) <==> c.dom().contains(id));
            }
            let same = match self.checked.get(id) {
                Some(prev) => same_text(prev.as_str(), tabs[j].url.as_str()),
                None => false,
            };
            if !same {
                let url: String = tabs[j].url.clone();
                self.checked.insert(id, url);
                proof {
                    assert(texts_of(self.checked@) =~= texts_of(c).insert(id, t.url));
                }
                if !self.icons.contains(id) {
                    if let Some(o) = &tabs[j].origin {
                        let origin: String = o.clone();
                        self.prefill.insert(id, origin);
                        proof {
                            assert(texts_of(self.prefill@) =~= texts_of(p).insert(
                                id,
                                t.origin->0,
                            ));
                        }
                    }
                }
            }
            j = j + 1;
        }
        proof {
            assert(all.take(all.len() as int) =~= all);
        }
    }

    /// The first half of a pump: go over the tabs and say what to look up.
    pub fn begin_pump(&mut self, tabs: &Vec<FaviconTab>) -> (step: PumpStep)
        requires
            old(self).wf(),
        ensures
            final(self).wf(),
            final(self).show == old(self).show,
            final(self).has_cache == old(self).has_cache,
            !old(self).show ==> {
                let some = old(self).icons@.dom() != Set::<i32>::empty();
                &&& step matches PumpStep::Off { changed } && changed == some
                &&& final(self).icons@ == Map::<i32, TabFavicon>::empty()
                &&& some ==> final(self).prefill@ == Map::<i32, String>::empty()
                &&& !some ==> final(self).prefill == old(self).prefill
                &&& final(self).checked == old(self).checked
            },
            old(self).show ==> {
                &&& final(self).icons == old(self).icons
                &&& final(self).prefill@ == Map::<i32, String>::empty()
                &&& step is Lookups
                &&& id_map::keys_differ(step->0@)
            },
            old(self).show && !old(self).has_cache ==> final(self).checked == old(self).checked
                && step->0@.len() == 0,
            old(self).show && old(self).has_cache ==> {
                let (c, p) = scanned(
                    tabs_view(tabs@),
                    old(self).icons@.dom(),
                    texts_of(old(self).checked@).restrict(browsers(tabs_view(tabs@))),
                    texts_of(old(self).prefill@),
                );
                &&& texts_of(final(self).checked@) == c
                &&& texts_of(id_map::as_map(step->0@)) == looked_up(
                    tabs_view(tabs@),
                    old(self).icons@.dom(),
                    texts_of(old(self).checked@),
                    texts_of(old(self).prefill@),
                )
            },
    {
        if !self.show {
            if !self.icons.is_empty() {
                self.icons.clear();
                self.prefill.clear();
                return PumpStep::Off { changed: true };
            }
            proof {
                assert(self.icons@ =~= Map::<i32, TabFavicon>::empty());
            }
            return PumpStep::Off { changed: false };
        }
        let mut out: Vec<(i32, String)> = Vec::new();
        if !self.has_cache {
            self.prefill.clear();
            return PumpStep::Lookups(out);
        }
        self.scan(tabs);
        let ghost p = self.prefill.entries@;
        let ghost known = self.icons@.dom();
        let mut i: usize = 0;
        proof {
            assert(id_map::as_map(out@).dom() =~= Set::<i32>::empty());
        }
        while i < self.prefill.entries.len()
            invariant
                i <= p.len(),
                p == self.prefill.entries@,
                id_map::keys_differ(p),
                self.wf(),
                known == self.icons@.dom(),
                id_map::keys_differ(out@),
                forall|id: i32| #[trigger]
                    id_map::as_map(out@).dom().contains(id) ==> !known.contains(id)
                        && id_map::has_key(p.take(i as int), id) && id_map::as_map(out@)[id]@
                        == id_map::as_map(p)[id]@,
                forall|k: int|
                    0 <= k < i && !known.contains((#[trigger] p[k]).0) ==> id_map::as_map(
                        out@,
                    ).dom().contains(p[k].0),
            decreases self.prefill.entries.len() - i,
        {
            let id: i32 = self.prefill.entries[i].0;
            if !self.icons.contains(id) {
                let origin: String = self.prefill.entries[i].1.clone();
                let ghost o = out@;
                proof {
                    if id_map::has_key(o, id) {
                        assert(id_map::as_map(o).dom().contains(id));
                        let a = choose|a: int|
                            0 <= a < p.take(i as int).len() && (#[trigger] p.take(i as int)[a]).0
                                == id;
                        assert(p[a].0 == p[i as int].0);
                    }
                    id_map::lemma_push(o, (id, origin));
                    id_map::lemma_entry(p, i as int);
                }
                out.push((id, origin));
                proof {
                    assert(id_map::as_map(out@) == id_map::as_map(o).insert(id, origin));
                    assert(p.take(i as int + 1)[i as int].0 == id);
                }
            }
            proof {
                assert forall|a: i32| #[trigger] id_map::as_map(out@).dom().contains(a) implies id_map::has_key(
                    p.take(i as int + 1),
                    a,
                ) by {
                    if id_map::has_key(p.take(i as int), a) {
                        let x = choose|x: int|
                            0 <= x < p.take(i as int).len() && (#[trigger] p.take(i as int)[x]).0
                                == a;
                        assert(p.take(i as int + 1)[x].0 == a);
                    }
                }
            }
            i = i + 1;
        }
        proof {
            let want = texts_of(self.prefill@).remove_keys(known);
            let got = texts_of(id_map::as_map(out@));
            assert(p.take(p.len() as int) =~= p);
            assert forall|id: i32| #[trigger] got.dom().contains(id) <==> want.dom().contains(id) by {
                if got.dom().contains(id) {
                    assert(id_map::as_map(out@).dom().contains(id));
                }
                if want.dom().contains(id) {
                    assert(id_map::as_map(p).dom().contains(id));
                    let k = id_map::lemma_key(p, id);
                    assert(!known.contains(p[k].0));
                }
            }
            assert forall|id: i32| #[trigger] got.dom().contains(id) implies got[id] == want[id] by {
                assert(id_map::as_map(out@).dom().contains(id));
            }
            assert(got =~= want);
        }
        self.prefill.clear();
        PumpStep::Lookups(out)
    }

    /// The cache had a favicon for a browser that was looked up.
    pub fn prefill_hit(&mut self, browser_id: i32, icon: TabFavicon)
        requires
            old(self).wf(),
        ensures
            final(self).wf(),
            final(self).icons@ == old(self).icons@.insert(browser_id, icon),
            final(self).prefill == old(self).prefill,
            final(self).checked == old(self).checked,
            final(self).show == old(self).show,
            final(self).has_cache == old(self).has_cache,
    {
        self.icons.insert(browser_id, icon);
    }

    /// The second half of a pump: favicons that the engine delivered. Returns,
    /// for each of them, the origin it is cached under, if it is cached.
    pub fn deliver(
        &mut self,
        updates: Vec<(i32, TabFavicon)>,
        tabs: &Vec<FaviconTab>,
    ) -> (writes: Vec<Option<String>>)
        requires
            old(self).wf(),
        ensures
            final(self).wf(),
            final(self).show == old(self).show,
            final(self).has_cache == old(self).has_cache,
            final(self).checked == old(self).checked,
            final(self).icons@ == delivered(old(self).icons@, updates@),
            texts_of(final(self).prefill@) == settled(texts_of(old(self).prefill@), updates@),
            writes@.len() == updates@.len(),
            forall|i: int|
                0 <= i < writes@.len() ==> match #[trigger] writes@[i] {
                    Some(o) => old(self).has_cache && origin_in(tabs_view(tabs@), updates@[i].0)
                        == Some(o@),
                    None => !old(self).has_cache || origin_in(tabs_view(tabs@), updates@[i].0)
                        is None,
                },
    {
        let mut writes: Vec<Option<String>> = Vec::new();
        let ghost ups = updates@;
        proof {
            assert(ups.take(0) =~= Seq::empty());
        }
        for u in it: updates
            invariant
                it.seq() == ups,
                self.wf(),
                self.show == old(self).show,
                self.has_cache == old(self).has_cache,
                self.checked == old(self).checked,
                self.icons@ == delivered(old(self).icons@, ups.take(it.index() as int)),
                texts_of(self.prefill@) == settled(
                    texts_of(old(self).prefill@),
                    ups.take(it.index() as int),
                ),
                writes@.len() == it.index(),
                forall|i: int|
                    0 <= i < writes@.len() ==> match #[trigger] writes@[i] {
                        Some(o) => old(self).has_cache && origin_in(tabs_view(tabs@), ups[i].0)
                            == Some(o@),
                        None => !old(self).has_cache || origin_in(tabs_view(tabs@), ups[i].0)
                            is None,
                    },
        {
            let ghost n = it.index() as int;
            let (id, icon) = u;
            proof {
                assert(ups.take(n + 1).drop_last() =~= ups.take(n));
                assert(ups.take(n + 1).last() == u);
            }
            let origin = if self.has_cache { last_origin(tabs, id) } else { None };
            writes.push(origin);
            let ghost p = self.prefill@;
            self.prefill.remove(id);
            proof {
                assert(texts_of(self.prefill@) =~= texts_of(p).remove(id));
            }
            self.icons.insert(id, icon);
        }
        proof {
            assert(ups.take(ups.len() as int) =~= ups);
        }
        writes
    }
}

/// The origin of the last tab of a browser.
fn last_origin(tabs: &Vec<FaviconTab>, id: i32) -> (r: Option<String>)
    ensures
        match r {
            Some(o) => origin_in(tabs_view(tabs@), id) == Some(o@),
            None => origin_in(tabs_view(tabs@), id) is None,
        },
{
    let ghost all = tabs_view(tabs@);
    let mut n: usize = tabs.len();
    proof {
        assert(all.take(all.len() as int) =~= all);
    }
    while n > 0
        invariant
            n <= tabs@.len(),
            all == tabs_view(tabs@),
            origin_in(all.take(n as int), id) == origin_in(all, id),
        decreases n,
    {
        proof {
            let s = all.take(n as int);
            assert(s.drop_last() =~= all.take(n - 1));
            assert(s.last() == tabs@[n - 1]@);
        }
        if tabs[n - 1].browser_id == id {
            return tabs[n - 1].origin.clone();
        }
        n = n - 1;
    }
    None
}

/// Law: a favicon that the engine delivered is the one shown, and its browser is
/// not looked up any more.
pub proof fn law_delivered_icon_wins(
    icons: Map<i32, TabFavicon>,
    prefill: Map<i32, Seq<char>>,
    updates: Seq<(i32, TabFavicon)>,
)
    requires
        updates.len() > 0,
    ensures
        delivered(icons, updates).dom().contains(updates.last().0),
        delivered(icons, updates)[updates.last().0] == updates.last().1,
        !settled(prefill, updates).dom().contains(updates.last().0),
{
}

/// Law: a tab whose address was checked is not looked up again while its address
/// stays.
pub proof fn law_unchanged_tab_is_not_looked_up_again(
    t: FaviconTabView,
    known: Set<i32>,
    checked: Map<i32, Seq<char>>,
    prefill: Map<i32, Seq<char>>,
)
    ensures
        ({
            let (c, p) = scanned(seq![t], known, checked, prefill);
            scanned(seq![t], known, c, Map::empty()) == (c, Map::<i32, Seq<char>>::empty())
        }),
{
    assert(seq![t].drop_last() =~= Seq::empty());
    assert(seq![t].last() == t);
    reveal_with_fuel(scanned, 2);
}

/// Law: the tabs are gone over one after the other. A tab whose address is another
/// than when it was last checked is remembered with it, and looked up under its
/// origin unless its favicon is known or it has none; a tab with the same address
/// is left alone, and no other browser is touched.
pub proof fn law_changed_tabs_are_looked_up(
    a: Seq<FaviconTabView>,
    b: Seq<FaviconTabView>,
    t: FaviconTabView,
    known: Set<i32>,
    checked: Map<i32, Seq<char>>,
    prefill: Map<i32, Seq<char>>,
)
    ensures
        ({
            let (c, p) = scanned(a, known, checked, prefill);
            scanned(a + b, known, checked, prefill) == scanned(b, known, c, p)
        }),
        ({
            let (c, p) = scanned(seq![t], known, checked, prefill);
            let id = t.browser_id;
            let same = checked.dom().contains(id) && checked[id] == t.url;
            &&& c.dom().contains(id) && c[id] == t.url
            &&& same ==> c == checked && p == prefill
            &&& !same && !known.contains(id) && t.origin is Some ==> p.dom().contains(id) && p[id]
                == t.origin->0
            &&& known.contains(id) || t.origin is None ==> p == prefill
            &&& forall|other: i32|
                other != id ==> {
                    &&& c.dom().contains(other) == #[trigger] checked.dom().contains(other)
                    &&& c[other] == checked[other] || !checked.dom().contains(other)
                    &&& p.dom().contains(other) == prefill.dom().contains(other)
                    &&& p[other] == prefill[other] || !prefill.dom().contains(other)
                }
        }),
    decreases b.len(),
{
    reveal_with_fuel(scanned, 2);
    assert(seq![t].drop_last() =~= Seq::<FaviconTabView>::empty());
    assert(seq![t].last() == t);
    if b.len() == 0 {
        assert(a + b =~= a);
    } else {
        law_changed_tabs_are_looked_up(a, b.drop_last(), t, known, checked, prefill);
        assert((a + b).drop_last() =~= a + b.drop_last());
        assert((a + b).last() == b.last());
    }
}

/// Law: a browser whose favicon is known is never looked up, and one that was asked
/// for and has none is, even where no tab asks again.
pub proof fn law_known_icons_are_not_looked_up(
    tabs: Seq<FaviconTabView>,
    known: Set<i32>,
    checked: Map<i32, Seq<char>>,
    prefill: Map<i32, Seq<char>>,
    id: i32,
)
    ensures
        known.contains(id) ==> !looked_up(tabs, known, checked, prefill).dom().contains(id),
        !known.contains(id) && prefill.dom().contains(id) ==> looked_up(
            tabs,
            known,
            checked,
            prefill,
        ).dom().contains(id),
{
    lemma_scan_keeps_what_was_asked(tabs, known, checked.restrict(browsers(tabs)), prefill, id);
}

/// A scan forgets nothing that was asked for before.
proof fn lemma_scan_keeps_what_was_asked(
    tabs: Seq<FaviconTabView>,
    known: Set<i32>,
    checked: Map<i32, Seq<char>>,
    prefill: Map<i32, Seq<char>>,
    id: i32,
)
    ensures
        prefill.dom().contains(id) ==> scanned(tabs, known, checked, prefill).1.dom().contains(id),
    decreases tabs.len(),
{
    if tabs.len() > 0 {
        lemma_scan_keeps_what_was_asked(tabs.drop_last(), known, checked, prefill, id);
    }
}

/// Law: the origin of an opened tab is looked up exactly where favicons are wanted
/// and it has one; nothing else is touched.
pub proof fn law_opened_tab_is_looked_up(
    prefill: Map<i32, Seq<char>>,
    wanted: bool,
    id: i32,
    origin: Option<Seq<char>>,
)
    ensures
        ({
            let p = registered(prefill, wanted, id, origin);
            &&& wanted && origin is Some ==> p.dom().contains(id) && p[id] == origin->0
            &&& !wanted || origin is None ==> p == prefill
            &&& forall|other: i32|
                other != id && #[trigger] prefill.dom().contains(other) ==> p.dom().contains(other)
                    && p[other] == prefill[other]
        }),
{
}

/// Law: favicons that arrive are shown for their own browsers and no others, the
/// newest of a browser; a browser that got one is not looked up any more, and one
/// that got none still is.
pub proof fn law_icons_reach_their_browsers(
    icons: Map<i32, TabFavicon>,
    prefill: Map<i32, Seq<char>>,
    updates: Seq<(i32, TabFavicon)>,
    i: int,
    id: i32,
)
    ensures
        0 <= i < updates.len() && (forall|k: int|
            i < k < updates.len() ==> (#[trigger] updates[k]).0 != updates[i].0) ==> {
            &&& delivered(icons, updates).dom().contains(updates[i].0)
            &&& delivered(icons, updates)[updates[i].0] == updates[i].1
            &&& !settled(prefill, updates).dom().contains(updates[i].0)
        },
        (forall|k: int| 0 <= k < updates.len() ==> (#[trigger] updates[k]).0 != id) ==> {
            &&& delivered(icons, updates).dom().contains(id) == icons.dom().contains(id)
            &&& icons.dom().contains(id) ==> delivered(icons, updates)[id] == icons[id]
            &&& settled(prefill, updates).dom().contains(id) == prefill.dom().contains(id)
            &&& prefill.dom().contains(id) ==> settled(prefill, updates)[id] == prefill[id]
        },
    decreases updates.len(),
{
    if updates.len() > 0 {
        let t = updates.drop_last();
        assert(forall|k: int| 0 <= k < t.len() ==> t[k] == updates[k]);
        assert(updates.last() == updates[updates.len() - 1]);
        law_icons_reach_their_browsers(icons, prefill, t, i, id);
        if 0 <= i < t.len() && (forall|k: int|
            i < k < updates.len() ==> (#[trigger] updates[k]).0 != updates[i].0) {
            assert forall|k: int| i < k < t.len() implies (#[trigger] t[k]).0 != t[i].0 by {
                assert(t[k] == updates[k]);
            }
            assert(updates[updates.len() - 1].0 != updates[i].0);
        }
        if forall|k: int| 0 <= k < updates.len() ==> (#[trigger] updates[k]).0 != id {
            assert forall|k: int| 0 <= k < t.len() implies (#[trigger] t[k]).0 != id by {
                assert(t[k] == updates[k]);
            }
            assert(updates[updates.len() - 1].0 != id);
        }
    }
}

/// Law: a favicon is cached under the origin of its own browser: that of its last
/// tab in the list, none where it has no tab.
pub proof fn law_icon_is_cached_under_its_own_origin(tabs: Seq<FaviconTabView>, i: int, id: i32)
    ensures
        0 <= i < tabs.len() && (forall|k: int|
            i < k < tabs.len() ==> (#[trigger] tabs[k]).browser_id != tabs[i].browser_id)
            ==> origin_in(tabs, tabs[i].browser_id) == tabs[i].origin,
        (forall|k: int| 0 <= k < tabs.len() ==> (#[trigger] tabs[k]).browser_id != id) ==> origin_in(
            tabs,
            id,
        ) is None,
    decreases tabs.len(),
{
    if tabs.len() > 0 {
        let t = tabs.drop_last();
        assert(forall|k: int| 0 <= k < t.len() ==> t[k] == tabs[k]);
        assert(tabs.last() == tabs[tabs.len() - 1]);
        law_icon_is_cached_under_its_own_origin(t, i, id);
        if 0 <= i < t.len() && (forall|k: int|
            i < k < tabs.len() ==> (#[trigger] tabs[k]).browser_id != tabs[i].browser_id) {
            assert forall|k: int| i < k < t.len() implies (#[trigger] t[k]).browser_id
                != t[i].browser_id by {
                assert(t[k] == tabs[k]);
            }
            assert(tabs[tabs.len() - 1].browser_id != tabs[i].browser_id);
        }
        if forall|k: int| 0 <= k < tabs.len() ==> (#[trigger] tabs[k]).browser_id != id {
            assert forall|k: int| 0 <= k < t.len() implies (#[trigger] t[k]).browser_id != id by {
                assert(t[k] == tabs[k]);
            }
            assert(tabs[tabs.len() - 1].browser_id != id);
        }
    }
}

/// Law: the models of tabs and of their texts show each of them, with what it holds.
pub proof fn law_icon_tabs_are_seen_whole(v: Seq<FaviconTab>, m: Map<i32, String>, x: FaviconTab)
    ensures
        tabs_view(v).len() == v.len(),
        forall|i: int| 0 <= i < v.len() ==> #[trigger] tabs_view(v)[i] == v[i]@,
        texts_of(m).dom() =~= m.dom(),
        forall|k: i32| m.dom().contains(k) ==> #[trigger] texts_of(m)[k] == m[k]@,
        x@.browser_id == x.browser_id,
        x@.url == x.url@,
        x@.origin is Some <==> x.origin is Some,
        x.origin is Some ==> x@.origin->0 == x.origin->0@,
{
}

} // verus!
