//! Profile directories, what is wiped on exit, and small settings that are
//! looked at once.
use vstd::prelude::*;
use vstd::string::*;
use crate::text;
use crate::text::{decimal, join};

verus! {

/// What can be wiped on exit.
#[derive(Debug, Clone, Copy, PartialEq, Eq, Hash, Structural)]
pub enum ClearableData {
    Cookies,
    Cache,
    History,
    Bookmarks,
    Downloads,
    LocalStorage,
}

/// The directory below the data directory that an item stands for.
pub open spec fn wiped_dir(data: Seq<char>, item: ClearableData) -> Option<Seq<char>> {
    match item {
        ClearableData::Cache => Some(text::joined(data, "Cache"@)),
        ClearableData::LocalStorage => Some(text::joined(data, "Local Storage"@)),
        ClearableData::Cookies => None,
        ClearableData::History => None,
        ClearableData::Bookmarks => None,
        ClearableData::Downloads => None,
    }
}

/// The directory that an item stands for. The cache and the local storage lie in
/// the data directory; the rest is wiped through its store.
pub fn clear_dir_path(data: &str, item: ClearableData) -> (r: Option<String>)
    ensures
        (match r {
            Some(p) => Some(p@),
            None => None,
        }) == wiped_dir(data@, item),
{
    match item {
        ClearableData::Cache => Some(join(data, "Cache")),
        ClearableData::LocalStorage => Some(join(data, "Local Storage")),
        ClearableData::Cookies => None,
        ClearableData::History => None,
        ClearableData::Bookmarks => None,
        ClearableData::Downloads => None,
    }
}

/// One thing to wipe.
#[derive(Debug)]
pub struct ClearStep {
    pub item: ClearableData,
    /// The directory to delete; `None` for what is wiped through its store.
    pub dir: Option<String>,
}

/// The items without repeats, in the order in which they first come.
pub open spec fn distinct_items(s: Seq<ClearableData>) -> Seq<ClearableData>
    decreases s.len(),
{
    if s.len() == 0 {
        Seq::empty()
    } else {
        let before = distinct_items(s.drop_last());
        if before.contains(s.last()) {
            before
        } else {
            before.push(s.last())
        }
    }
}

/// What is wiped on exit.
pub open spec fn wiped_on_exit(items: Seq<ClearableData>, private: bool) -> Seq<ClearableData> {
    if private { Seq::empty() } else { distinct_items(items) }
}

/// The items of a list of steps.
pub open spec fn step_items(v: Seq<ClearStep>) -> Seq<ClearableData> {
    v.map_values(|c: ClearStep| c.item)
}

/// Whether a step wipes its item.
pub open spec fn wipes(c: ClearStep, data: Seq<char>) -> bool {
    (match c.dir {
        Some(p) => Some(p@),
        None => None,
    }) == wiped_dir(data, c.item)
}

/// Whether an item is among the steps.
fn is_planned(v: &Vec<ClearStep>, item: ClearableData) -> (r: bool)
    ensures
        r == step_items(v@).contains(item),
{
    let mut i: usize = 0;
    while i < v.len()
        invariant
            i <= v.len(),
            forall|k: int| 0 <= k < i ==> step_items(v@)[k] != item,
        decreases v.len() - i,
    {
        if v[i].item == item {
            proof {
                assert(step_items(v@)[i as int] == item);
            }
            return true;
        }
        i += 1;
    }
    false
}

/// What is wiped on exit, each item once. In private mode nothing is: the whole
/// profile goes.
pub fn run_clear_on_exit(items: &Vec<ClearableData>, data: &str, private: bool) -> (r: Vec<
    ClearStep,
>)
    ensures
        step_items(r@) == wiped_on_exit(items@, private),
        forall|i: int| 0 <= i < r@.len() ==> wipes(#[trigger] r@[i], data@),
{
    let mut out: Vec<ClearStep> = Vec::new();
    proof {
        assert(step_items(out@) =~= Seq::empty());
        assert(items@.take(0) =~= Seq::empty());
    }
    if private {
        return out;
    }
    let mut i: usize = 0;
    while i < items.len()
        invariant
            i <= items.len(),
            step_items(out@) == distinct_items(items@.take(i as int)),
            forall|k: int| 0 <= k < out@.len() ==> wipes(#[trigger] out@[k], data@),
        decreases items.len() - i,
    {
        let item = items[i];
        proof {
            assert(items@.take(i + 1).drop_last() =~= items@.take(i as int));
            assert(items@.take(i + 1).last() == item);
        }
        if !is_planned(&out, item) {
            let ghost before = out@;
            let step = ClearStep { item, dir: clear_dir_path(data, item) };
            out.push(step);
            proof {
                assert(step_items(out@) =~= step_items(before).push(item));
            }
        }
        i += 1;
    }
    proof {
        assert(items@.take(items@.len() as int) =~= items@);
    }
    out
}

/// Law: nothing is wiped twice, and everything that was asked for is wiped.
pub proof fn law_everything_is_wiped_once(s: Seq<ClearableData>)
    ensures
        distinct_items(s).no_duplicates(),
        forall|i: int| 0 <= i < s.len() ==> distinct_items(s).contains(#[trigger] s[i]),
        forall|i: int|
            0 <= i < distinct_items(s).len() ==> s.contains(#[trigger] distinct_items(s)[i]),
    decreases s.len(),
{
    if s.len() > 0 {
        let t = s.drop_last();
        law_everything_is_wiped_once(t);
        let before = distinct_items(t);
        let all = distinct_items(s);
        assert forall|i: int| 0 <= i < s.len() implies all.contains(#[trigger] s[i]) by {
            if i < t.len() {
                assert(t[i] == s[i]);
                let k = choose|k: int| 0 <= k < before.len() && before[k] == s[i];
                assert(all[k] == s[i]);
            } else if !before.contains(s.last()) {
                assert(all[before.len() as int] == s.last());
            }
        }
        assert forall|i: int| 0 <= i < all.len() implies s.contains(#[trigger] all[i]) by {
            if i < before.len() {
                assert(all[i] == before[i]);
                let k = choose|k: int| 0 <= k < t.len() && t[k] == before[i];
                assert(s[k] == all[i]);
            } else {
                assert(s[s.len() - 1] == all[i]);
            }
        }
    }
}

/// The directories of a profile.
#[derive(Debug)]
pub struct ProfilePaths {
    pub cache: String,
    pub data: String,
}

/// What the name of a private profile's root begins with.
pub open spec fn private_prefix_text(pid: nat) -> Seq<char> {
    "buffr-private-"@ + text::decimal_text(pid) + "-"@
}

/// What the name of a private profile's root begins with.
pub fn private_prefix(pid: u32) -> (r: String)
    ensures
        r@ == private_prefix_text(pid as nat),
{
    let mut r = "buffr-private-".to_string();
    let n = decimal(pid as u64);
    r.append(n.as_str());
    r.append("-");
    r
}

/// The cache and the data directory of a private profile.
pub open spec fn private_dirs(root: Seq<char>) -> (Seq<char>, Seq<char>) {
    (text::joined(root, "cache"@), text::joined(root, "data"@))
}

/// The directories of a private profile below its root.
pub fn private_paths(root: &str) -> (r: ProfilePaths)
    ensures
        (r.cache@, r.data@) == private_dirs(root@),
{
    ProfilePaths { cache: join(root, "cache"), data: join(root, "data") }
}

/// A number is written with at least one digit, and digits only.
proof fn lemma_decimal_digits(n: nat)
    ensures
        text::decimal_text(n).len() > 0,
        forall|i: int|
            0 <= i < text::decimal_text(n).len() ==> 48 <= (#[trigger] text::decimal_text(
                n,
            )[i]) as int <= 57,
    decreases n,
{
    lemma_digit(n as int % 10);
    if n >= 10 {
        lemma_decimal_digits(n / 10);
    }
}

/// The number of a digit.
proof fn lemma_digit(n: int)
    requires
        0 <= n < 10,
    ensures
        text::digit(n) as int == n + 48,
{
    assert(48 <= n + 48 <= 57);
}

/// Two numbers that are written the same are the same.
proof fn lemma_decimal_differs(a: nat, b: nat)
    requires
        text::decimal_text(a) == text::decimal_text(b),
    ensures
        a == b,
    decreases a,
{
    lemma_digit(a as int % 10);
    lemma_digit(b as int % 10);
    let s = text::decimal_text(a);
    let t = text::decimal_text(b);
    assert(s.last() == t.last());
    if a >= 10 && b >= 10 {
        assert(s.drop_last() =~= text::decimal_text(a / 10));
        assert(t.drop_last() =~= text::decimal_text(b / 10));
        lemma_decimal_differs(a / 10, b / 10);
    } else if a >= 10 {
        lemma_decimal_digits(a / 10);
    } else if b >= 10 {
        lemma_decimal_digits(b / 10);
    }
}

/// Law: private profiles of different processes never have the same root,
/// whatever the names go on with.
pub proof fn law_private_roots_differ(a: nat, b: nat, rest_a: Seq<char>, rest_b: Seq<char>)
    requires
        a != b,
    ensures
        private_prefix_text(a) + rest_a != private_prefix_text(b) + rest_b,
{
    let p = "buffr-private-"@;
    let da = text::decimal_text(a);
    let db = text::decimal_text(b);
    let x = private_prefix_text(a) + rest_a;
    let y = private_prefix_text(b) + rest_b;
    if x == y {
        reveal_strlit("-");
        lemma_decimal_digits(a);
        lemma_decimal_digits(b);
        let la = p.len() + da.len();
        let lb = p.len() + db.len();
        assert(x[la as int] == '-');
        assert(y[lb as int] == '-');
        if da.len() < db.len() {
            assert(y[la as int] == db[da.len() as int]);
        } else if db.len() < da.len() {
            assert(x[lb as int] == da[db.len() as int]);
        } else {
            assert forall|i: int| 0 <= i < da.len() implies da[i] == db[i] by {
                assert(x[p.len() + i] == da[i]);
                assert(y[p.len() + i] == db[i]);
            }
            assert(da =~= db);
            lemma_decimal_differs(a, b);
        }
    }
}

/// What is known about updates.
#[derive(Debug, Clone, Copy, PartialEq, Eq, Structural)]
pub enum UpdateStatus {
    Available,
    Stale,
    /// Up to date, not checked, or switched off.
    Quiet,
}

/// What the status line says about updates.
#[derive(Debug, Clone, Copy, PartialEq, Eq, Structural)]
pub enum UpdateIndicator {
    Available,
    Stale,
}

/// What the status line says about updates.
pub open spec fn indicator_of(status: UpdateStatus) -> Option<UpdateIndicator> {
    match status {
        UpdateStatus::Available => Some(UpdateIndicator::Available),
        UpdateStatus::Stale => Some(UpdateIndicator::Stale),
        UpdateStatus::Quiet => None,
    }
}

/// What the status line says about updates: an update, or that the last check is
/// long ago.
pub fn update_indicator_from(status: UpdateStatus) -> (r: Option<UpdateIndicator>)
    ensures
        r == indicator_of(status),
{
    match status {
        UpdateStatus::Available => Some(UpdateIndicator::Available),
        UpdateStatus::Stale => Some(UpdateIndicator::Stale),
        UpdateStatus::Quiet => None,
    }
}

/// Colours of a theme, each `None` if what was configured is no colour.
#[derive(Debug, Clone, Copy, PartialEq, Eq)]
pub struct Theme {
    pub high_contrast: bool,
    pub accent: Option<u32>,
    pub cert_secure: Option<u32>,
    pub cert_insecure: Option<u32>,
    pub private: Option<u32>,
    pub progress: Option<u32>,
    pub update: Option<u32>,
}

/// The colours of the chrome that can be configured.
#[derive(Debug, Clone, Copy, PartialEq, Eq, Structural)]
pub struct Palette {
    pub accent: u32,
    pub cert_secure: u32,
    pub cert_insecure: u32,
    pub private: u32,
    pub progress: u32,
    pub update: u32,
}

/// A colour, or the one that stands in for it.
pub open spec fn or_else(c: Option<u32>, d: u32) -> u32 {
    match c {
        Some(c) => c,
        None => d,
    }
}

/// A colour, or the one that stands in for it.
fn pick(c: Option<u32>, d: u32) -> (r: u32)
    ensures
        r == or_else(c, d),
{
    match c {
        Some(c) => c,
        None => d,
    }
}

/// The palette of a theme.
pub open spec fn palette_of(theme: Theme, default: Palette, high_contrast: Palette) -> Palette {
    if theme.high_contrast {
        high_contrast
    } else {
        Palette {
            accent: or_else(theme.accent, default.accent),
            cert_secure: or_else(theme.cert_secure, default.cert_secure),
            cert_insecure: or_else(theme.cert_insecure, default.cert_insecure),
            private: or_else(theme.private, default.private),
            progress: or_else(theme.progress, default.progress),
            update: or_else(theme.update, default.update),
        }
    }
}

/// The palette of a theme. High contrast overrides it; a colour that is none
/// falls back to the default.
pub fn build_palette(theme: &Theme, default: &Palette, high_contrast: &Palette) -> (r: Palette)
    ensures
        r == palette_of(*theme, *default, *high_contrast),
{
    if theme.high_contrast {
        return *high_contrast;
    }
    Palette {
        accent: pick(theme.accent, default.accent),
        cert_secure: pick(theme.cert_secure, default.cert_secure),
        cert_insecure: pick(theme.cert_insecure, default.cert_insecure),
        private: pick(theme.private, default.private),
        progress: pick(theme.progress, default.progress),
        update: pick(theme.update, default.update),
    }
}

/// Law: what is asked for earlier is wiped earlier: more items are wiped behind
/// those that are there.
pub proof fn law_wiping_keeps_its_order(s: Seq<ClearableData>, n: int)
    requires
        0 <= n <= s.len(),
    ensures
        distinct_items(s.take(n)).is_prefix_of(distinct_items(s)),
    decreases s.len(),
{
    if n == s.len() {
        assert(s.take(n) =~= s);
    } else {
        law_wiping_keeps_its_order(s.drop_last(), n);
        assert(s.drop_last().take(n) =~= s.take(n));
    }
}

/// Law: on exit exactly what was asked for is wiped, and in a private window
/// nothing is.
pub proof fn law_exit_wipes_what_was_asked_for(s: Seq<ClearableData>, item: ClearableData)
    ensures
        wiped_on_exit(s, true).len() == 0,
        wiped_on_exit(s, false).contains(item) <==> s.contains(item),
{
    law_everything_is_wiped_once(s);
    if s.contains(item) {
        let i = choose|i: int| 0 <= i < s.len() && s[i] == item;
        assert(distinct_items(s).contains(s[i]));
    }
    if distinct_items(s).contains(item) {
        let i = choose|i: int| 0 <= i < distinct_items(s).len() && distinct_items(s)[i] == item;
        assert(s.contains(distinct_items(s)[i]));
    }
}

/// Law: only the cache and the local storage are directories, each below the data
/// directory and never that directory itself; the rest is wiped through its store.
pub proof fn law_only_the_caches_are_deleted(data: Seq<char>, item: ClearableData)
    ensures
        wiped_dir(data, item) is Some <==> (item is Cache || item is LocalStorage),
        wiped_dir(data, item) matches Some(d) ==> data.is_prefix_of(d) && d.len() > data.len(),
        item is Cache ==> wiped_dir(data, item) == Some(text::joined(data, "Cache"@)),
        item is LocalStorage ==> wiped_dir(data, item) == Some(text::joined(data, "Local Storage"@)),
{
    reveal_strlit("Cache");
    reveal_strlit("Local Storage");
    if let Some(d) = wiped_dir(data, item) {
        assert(d.subrange(0, data.len() as int) =~= data);
    }
}

/// Law: a private profile keeps its cache and its data in two directories below its
/// own root.
pub proof fn law_private_directories_lie_below_the_root(root: Seq<char>)
    ensures
        ({
            let (cache, data) = private_dirs(root);
            &&& cache != data
            &&& root.is_prefix_of(cache) && root.is_prefix_of(data)
            &&& cache == text::joined(root, "cache"@) && data == text::joined(root, "data"@)
        }),
{
    reveal_strlit("cache");
    reveal_strlit("data");
    let (cache, data) = private_dirs(root);
    assert(cache.subrange(0, root.len() as int) =~= root);
    assert(data.subrange(0, root.len() as int) =~= root);
    assert(cache.last() == 'e');
    assert(data.last() == 'a');
}

/// Law: the status line names an update exactly where there is one, and an old
/// check exactly where the last one is long ago.
pub proof fn law_updates_are_named(s: UpdateStatus)
    ensures
        indicator_of(s) == Some(UpdateIndicator::Available) <==> s is Available,
        indicator_of(s) == Some(UpdateIndicator::Stale) <==> s is Stale,
{
}

/// Law: high contrast overrides a theme altogether. Otherwise each colour is the
/// theme's own, where it is one, and the default's where it is not.
pub proof fn law_theme_colours_are_used(theme: Theme, default: Palette, high: Palette)
    ensures
        ({
            let p = palette_of(theme, default, high);
            &&& theme.high_contrast ==> p == high
            &&& !theme.high_contrast ==> {
                &&& theme.accent is Some ==> p.accent == theme.accent->0
                &&& theme.cert_secure is Some ==> p.cert_secure == theme.cert_secure->0
                &&& theme.cert_insecure is Some ==> p.cert_insecure == theme.cert_insecure->0
                &&& theme.private is Some ==> p.private == theme.private->0
                &&& theme.progress is Some ==> p.progress == theme.progress->0
                &&& theme.update is Some ==> p.update == theme.update->0
                &&& theme.accent is None ==> p.accent == default.accent
                &&& theme.cert_secure is None ==> p.cert_secure == default.cert_secure
                &&& theme.cert_insecure is None ==> p.cert_insecure == default.cert_insecure
                &&& theme.private is None ==> p.private == default.private
                &&& theme.progress is None ==> p.progress == default.progress
                &&& theme.update is None ==> p.update == default.update
            }
        }),
{
}

/// Law: a step of wiping deletes the directory of its item where that has one, and the
/// items of the steps are theirs in their order.
pub proof fn law_steps_of_wiping_are_seen_whole(v: Seq<ClearStep>, c: ClearStep, data: Seq<char>)
    ensures
        step_items(v).len() == v.len(),
        forall|i: int| 0 <= i < v.len() ==> #[trigger] step_items(v)[i] == v[i].item,
        wipes(c, data) ==> (c.dir is Some <==> (c.item is Cache || c.item is LocalStorage)),
        wipes(c, data) && c.item is Cache ==> c.dir->0@ == text::joined(data, "Cache"@),
        wipes(c, data) && c.item is LocalStorage ==> c.dir->0@ == text::joined(data, "Local Storage"@),
{
}

} // verus!
