//! What the command line and the omnibar suggest.
use vstd::prelude::*;
use vstd::string::*;
use crate::text;
use crate::text::{has_prefix, same_text, trim};

verus! {

/// How many bookmarks are looked at.
pub const BOOKMARK_LIMIT: usize = 8;

/// Where a suggestion comes from.
#[derive(Debug, Clone, Copy, PartialEq, Eq, Structural)]
pub enum SuggestionKind {
    Command,
    History,
    Bookmark,
    SearchSuggestion,
}

/// A suggestion.
#[derive(Debug)]
pub struct Suggestion {
    /// What is shown.
    pub display: String,
    /// What is used when it is selected.
    pub value: String,
    pub kind: SuggestionKind,
}

/// The contents of a [`Suggestion`].
pub struct SuggestionView {
    pub display: Seq<char>,
    pub value: Seq<char>,
    pub kind: SuggestionKind,
}

impl View for Suggestion {
    type V = SuggestionView;

    open spec fn view(&self) -> SuggestionView {
        SuggestionView { display: self.display@, value: self.value@, kind: self.kind }
    }
}

/// The views of a list of suggestions.
pub open spec fn list_view(v: Seq<Suggestion>) -> Seq<SuggestionView> {
    v.map_values(|s: Suggestion| s@)
}

/// A page in the history or among the bookmarks.
#[derive(Debug)]
pub struct PageRow {
    pub url: String,
    pub title: Option<String>,
}

/// The contents of a [`PageRow`].
pub struct RowView {
    pub url: Seq<char>,
    pub title: Option<Seq<char>>,
}

impl View for PageRow {
    type V = RowView;

    open spec fn view(&self) -> RowView {
        RowView {
            url: self.url@,
            title: match self.title {
                Some(t) => Some(t@),
                None => None,
            },
        }
    }
}

/// The views of a list of pages.
pub open spec fn rows_view(v: Seq<PageRow>) -> Seq<RowView> {
    v.map_values(|r: PageRow| r@)
}

/// At most so many of the first items.
pub open spec fn at_most<A>(s: Seq<A>, max: nat) -> Seq<A> {
    if s.len() <= max { s } else { s.take(max as int) }
}

/// The suggestion of a command.
pub open spec fn command_suggestion(name: Seq<char>) -> SuggestionView {
    SuggestionView { display: ":"@ + name, value: name, kind: SuggestionKind::Command }
}

/// The commands that begin with what was typed, in their order.
pub open spec fn matching(names: Seq<&str>, needle: Seq<char>) -> Seq<SuggestionView>
    decreases names.len(),
{
    if names.len() == 0 {
        Seq::empty()
    } else {
        let before = matching(names.drop_last(), needle);
        if needle.is_prefix_of(names.last()@) {
            before.push(command_suggestion(names.last()@))
        } else {
            before
        }
    }
}

/// What is typed before is suggested before.
proof fn lemma_matching_grows(names: Seq<&str>, needle: Seq<char>, n: int)
    requires
        0 <= n <= names.len(),
    ensures
        matching(names.take(n), needle).is_prefix_of(matching(names, needle)),
    decreases names.len(),
{
    if n == names.len() {
        assert(names.take(n) =~= names);
    } else {
        lemma_matching_grows(names.drop_last(), needle, n);
        assert(names.drop_last().take(n) =~= names.take(n));
    }
}

/// The commands that begin with what was typed, at most `max` of them.
pub fn command_suggestions(names: &Vec<&str>, buffer: &str, max: usize) -> (r: Vec<Suggestion>)
    ensures
        list_view(r@) == at_most(matching(names@, text::trimmed(buffer@)), max as nat),
{
    let needle = trim(buffer);
    let ghost all = matching(names@, needle@);
    let mut out: Vec<Suggestion> = Vec::new();
    let mut i: usize = 0;
    proof {
        assert(names@.take(0) =~= Seq::empty());
        assert(list_view(out@) =~= Seq::empty());
    }
    while i < names.len() && out.len() < max
        invariant
            i <= names.len(),
            out.len() <= max,
            needle@ == text::trimmed(buffer@),
            list_view(out@) == matching(names@.take(i as int), needle@),
        decreases names.len() - i,
    {
        proof {
            assert(names@.take(i + 1).drop_last() =~= names@.take(i as int));
            assert(names@.take(i + 1).last() == names@[i as int]);
        }
        let name = names[i];
        if has_prefix(name, needle.as_str()) {
            let mut display = String::new();
            display.append(":");
            display.append(name);
            let s = Suggestion {
                display,
                value: name.to_string(),
                kind: SuggestionKind::Command,
            };
            let ghost before = out@;
            let ghost sv = s@;
            proof {
                assert(s.display@ =~= ":"@ + name@);
                assert(sv == command_suggestion(name@));
            }
            out.push(s);
            proof {
                assert(list_view(out@) =~= list_view(before).push(sv));
            }
        }
        i += 1;
    }
    proof {
        lemma_matching_grows(names@, needle@, i as int);
        if i == names@.len() {
            assert(names@.take(i as int) =~= names@);
        } else {
            assert(list_view(out@).len() == max);
        }
        let whole = matching(names@, needle@);
        assert(list_view(out@) =~= at_most(whole, max as nat));
    }
    out
}

/// How a page is shown.
pub open spec fn row_label(row: RowView) -> Seq<char> {
    match row.title {
        Some(t) => if t.len() > 0 { t + " — "@ + row.url } else { row.url },
        None => row.url,
    }
}

/// The suggestion of a page.
pub open spec fn row_suggestion(row: RowView, kind: SuggestionKind) -> SuggestionView {
    SuggestionView { display: row_label(row), value: row.url, kind }
}

/// The suggestions of pages.
pub open spec fn row_suggestions(rows: Seq<RowView>, kind: SuggestionKind) -> Seq<SuggestionView> {
    rows.map_values(|r: RowView| row_suggestion(r, kind))
}

/// Whether an address is suggested.
pub open spec fn suggests(s: Seq<SuggestionView>, url: Seq<char>) -> bool {
    exists|i: int| 0 <= i < s.len() && (#[trigger] s[i]).value == url
}

/// The first suggestion of each address.
pub open spec fn firsts(s: Seq<SuggestionView>) -> Seq<SuggestionView>
    decreases s.len(),
{
    if s.len() == 0 {
        Seq::empty()
    } else {
        let before = firsts(s.drop_last());
        if suggests(before, s.last().value) {
            before
        } else {
            before.push(s.last())
        }
    }
}

/// What the stores hold: the history before the bookmarks.
pub open spec fn stored(history: Seq<RowView>, bookmarks: Seq<RowView>) -> Seq<SuggestionView> {
    row_suggestions(history, SuggestionKind::History) + row_suggestions(
        at_most(bookmarks, BOOKMARK_LIMIT as nat),
        SuggestionKind::Bookmark,
    )
}

/// What the omnibar suggests for a text: pages of the history, then bookmarks,
/// none of them twice, then, if there is room, a search.
pub open spec fn omnibar_list(
    needle: Seq<char>,
    history: Seq<RowView>,
    bookmarks: Seq<RowView>,
    resolved: Seq<char>,
    max: nat,
) -> Seq<SuggestionView> {
    let pages = firsts(stored(history, bookmarks));
    if needle.len() == 0 {
        Seq::empty()
    } else if pages.len() >= max || resolved.len() == 0 {
        at_most(pages, max)
    } else {
        pages.push(
            SuggestionView {
                display: "Search: "@ + needle,
                value: resolved,
                kind: SuggestionKind::SearchSuggestion,
            },
        )
    }
}

/// What comes before is suggested before.
proof fn lemma_firsts_grow(s: Seq<SuggestionView>, n: int)
    requires
        0 <= n <= s.len(),
    ensures
        firsts(s.take(n)).is_prefix_of(firsts(s)),
    decreases s.len(),
{
    if n == s.len() {
        assert(s.take(n) =~= s);
    } else {
        lemma_firsts_grow(s.drop_last(), n);
        assert(s.drop_last().take(n) =~= s.take(n));
    }
}

/// The suggestion of a page.
fn suggest_row(row: &PageRow, kind: SuggestionKind) -> (r: Suggestion)
    ensures
        r@ == row_suggestion(row@, kind),
{
    let display = match &row.title {
        Some(t) => {
            if t.as_str().is_empty() {
                row.url.clone()
            } else {
                let mut d = t.clone();
                d.append(" — ");
                d.append(row.url.as_str());
                d
            }
        },
        None => row.url.clone(),
    };
    Suggestion { display, value: row.url.clone(), kind }
}

/// Whether an address is suggested.
fn is_suggested(list: &Vec<Suggestion>, url: &str) -> (r: bool)
    ensures
        r == suggests(list_view(list@), url@),
{
    let mut i: usize = 0;
    while i < list.len()
        invariant
            i <= list.len(),
            forall|k: int| 0 <= k < i ==> (#[trigger] list_view(list@)[k]).value != url@,
        decreases list.len() - i,
    {
        if same_text(list[i].value.as_str(), url) {
            proof {
                assert(list_view(list@)[i as int].value == url@);
            }
            return true;
        }
        i += 1;
    }
    false
}

/// Add the pages that are not suggested yet until there are `max` suggestions.
fn add_rows(
    out: &mut Vec<Suggestion>,
    rows: &Vec<PageRow>,
    limit: usize,
    kind: SuggestionKind,
    max: usize,
    Ghost(before): Ghost<Seq<SuggestionView>>,
)
    requires
        old(out).len() <= max,
        list_view(old(out)@) == at_most(firsts(before), max as nat),
    ensures
        final(out).len() <= max,
        list_view(final(out)@) == at_most(
            firsts(before + row_suggestions(at_most(rows_view(rows@), limit as nat), kind)),
            max as nat,
        ),
{
    let ghost shown = row_suggestions(at_most(rows_view(rows@), limit as nat), kind);
    let n: usize = if rows.len() < limit {
        rows.len()
    } else {
        limit
    };
    let mut i: usize = 0;
    let ghost all = before + shown;
    proof {
        assert(all.take(before.len() as int) =~= before);
        assert(shown.len() == n);
        lemma_firsts_grow(all, before.len() as int);
        if out.len() == max {
            assert(list_view(out@) =~= at_most(firsts(all), max as nat));
        }
    }
    while i < n && out.len() < max
        invariant
            i <= n <= rows.len(),
            n <= limit,
            out.len() <= max,
            shown == row_suggestions(at_most(rows_view(rows@), limit as nat), kind),
            shown.len() == n,
            all == before + shown,
            i > 0 || out.len() < max ==> list_view(out@) == firsts(all.take(before.len() + i)),
            out.len() == max ==> list_view(out@) == at_most(firsts(all), max as nat),
        decreases n - i,
    {
        let s = suggest_row(&rows[i], kind);
        let ghost sv = s@;
        proof {
            let m = before.len() + i;
            assert(at_most(rows_view(rows@), limit as nat)[i as int] == rows@[i as int]@);
            assert(shown[i as int] == sv);
            assert(all[m] == sv);
            assert(all.take(m + 1).drop_last() =~= all.take(m));
            assert(all.take(m + 1).last() == sv);
            lemma_firsts_grow(all, m + 1);
        }
        if !is_suggested(&*out, s.value.as_str()) {
            let ghost prior = out@;
            out.push(s);
            proof {
                assert(list_view(out@) =~= list_view(prior).push(sv));
            }
        }
        proof {
            if out.len() == max {
                assert(list_view(out@) =~= at_most(firsts(all), max as nat));
            }
        }
        i += 1;
    }
    proof {
        if i == n && out.len() < max {
            assert(all.take(before.len() + n) =~= all);
        }
    }
}

/// What the omnibar suggests for a text; `resolved` is the address that a search
/// for it leads to.
pub fn omnibar_suggestions(
    buffer: &str,
    history: &Vec<PageRow>,
    bookmarks: &Vec<PageRow>,
    resolved: &str,
    max: usize,
) -> (r: Vec<Suggestion>)
    ensures
        list_view(r@) == omnibar_list(
            text::trimmed(buffer@),
            rows_view(history@),
            rows_view(bookmarks@),
            resolved@,
            max as nat,
        ),
{
    let needle = trim(buffer);
    let mut out: Vec<Suggestion> = Vec::new();
    proof {
        assert(list_view(out@) =~= Seq::empty());
    }
    if needle.as_str().is_empty() {
        return out;
    }
    let ghost h = rows_view(history@);
    let ghost b = rows_view(bookmarks@);
    proof {
        assert(at_most(firsts(Seq::empty()), max as nat) =~= Seq::empty());
    }
    add_rows(
        &mut out,
        history,
        history.len(),
        SuggestionKind::History,
        max,
        Ghost(Seq::empty()),
    );
    let ghost first = row_suggestions(h, SuggestionKind::History);
    proof {
        assert(Seq::<SuggestionView>::empty() + row_suggestions(
            at_most(h, history.len() as nat),
            SuggestionKind::History,
        ) =~= first);
    }
    add_rows(
        &mut out,
        bookmarks,
        BOOKMARK_LIMIT,
        SuggestionKind::Bookmark,
        max,
        Ghost(first),
    );
    if out.len() < max && !resolved.is_empty() {
        let mut display = String::new();
        display.append("Search: ");
        display.append(needle.as_str());
        let s = Suggestion {
            display,
            value: resolved.to_string(),
            kind: SuggestionKind::SearchSuggestion,
        };
        let ghost prior = out@;
        let ghost sv = s@;
        proof {
            assert(s.display@ =~= "Search: "@ + needle@);
        }
        out.push(s);
        proof {
            assert(list_view(out@) =~= list_view(prior).push(sv));
        }
    }
    out
}

/// Law: no two suggestions from the stores lead to the same page, and none of
/// the pages is lost but for one that is suggested already.
pub proof fn law_pages_are_suggested_once(s: Seq<SuggestionView>)
    ensures
        forall|i: int, j: int|
            0 <= i < j < firsts(s).len() ==> (#[trigger] firsts(s)[i]).value != (
            #[trigger] firsts(s)[j]).value,
        forall|i: int| 0 <= i < s.len() ==> suggests(firsts(s), (#[trigger] s[i]).value),
    decreases s.len(),
{
    if s.len() > 0 {
        let t = s.drop_last();
        law_pages_are_suggested_once(t);
        assert forall|i: int| 0 <= i < s.len() implies suggests(
            firsts(s),
            (#[trigger] s[i]).value,
        ) by {
            if i < t.len() {
                assert(t[i] == s[i]);
                let k = choose|k: int|
                    0 <= k < firsts(t).len() && (#[trigger] firsts(t)[k]).value == s[i].value;
                assert(firsts(s)[k].value == s[i].value);
            } else if !suggests(firsts(t), s.last().value) {
                assert(firsts(s)[firsts(t).len() as int].value == s.last().value);
            }
        }
    }
}

/// Law: there are never more suggestions than there is room for.
pub proof fn law_suggestions_fit(
    needle: Seq<char>,
    history: Seq<RowView>,
    bookmarks: Seq<RowView>,
    resolved: Seq<char>,
    names: Seq<&str>,
    max: nat,
)
    ensures
        omnibar_list(needle, history, bookmarks, resolved, max).len() <= max,
        at_most(matching(names, needle), max).len() <= max,
{
}

/// Law: every suggested command begins with what was typed.
pub proof fn law_commands_begin_with_the_input(names: Seq<&str>, needle: Seq<char>)
    ensures
        forall|i: int|
            0 <= i < matching(names, needle).len() ==> needle.is_prefix_of(
                (#[trigger] matching(names, needle)[i]).value,
            ),
    decreases names.len(),
{
    if names.len() > 0 {
        law_commands_begin_with_the_input(names.drop_last(), needle);
    }
}

/// Law: exactly the commands that begin with what was typed are suggested, in
/// their order: those of two lists are those of the first and then those of the
/// second, and one command alone is suggested under its name, with a colon, where
/// it begins so.
pub proof fn law_matching_commands_are_suggested_in_order(
    a: Seq<&str>,
    b: Seq<&str>,
    name: &str,
    needle: Seq<char>,
)
    ensures
        matching(a + b, needle) == matching(a, needle) + matching(b, needle),
        needle.is_prefix_of(name@) ==> {
            let m = matching(seq![name], needle);
            &&& m.len() == 1
            &&& m[0].value == name@
            &&& m[0].display == ":"@ + name@
            &&& m[0].kind == SuggestionKind::Command
        },
        !needle.is_prefix_of(name@) ==> matching(seq![name], needle).len() == 0,
    decreases b.len(),
{
    let one = seq![name];
    assert(one.drop_last() =~= Seq::<&str>::empty());
    assert(matching(one.drop_last(), needle) == Seq::<SuggestionView>::empty());
    if b.len() == 0 {
        assert(a + b =~= a);
        assert(matching(a, needle) + Seq::<SuggestionView>::empty() =~= matching(a, needle));
    } else {
        law_matching_commands_are_suggested_in_order(a, b.drop_last(), name, needle);
        assert((a + b).drop_last() =~= a + b.drop_last());
        assert((a + b).last() == b.last());
        assert(matching(a + b, needle) =~= matching(a, needle) + matching(b, needle));
    }
}

/// Law: where there is not room for all, the first ones are kept, as many as fit.
pub proof fn law_the_first_ones_are_kept<A>(s: Seq<A>, max: nat)
    ensures
        at_most(s, max).is_prefix_of(s),
        s.len() <= max ==> at_most(s, max) == s,
        s.len() > max ==> at_most(s, max).len() == max,
{
    if s.len() > max {
        assert(s.take(max as int) =~= s.subrange(0, max as int));
    } else {
        assert(s.subrange(0, s.len() as int) =~= s);
    }
}

/// Law: a page is suggested by its address, shown with its title where it has one.
pub proof fn law_page_is_suggested_by_its_address(row: RowView, kind: SuggestionKind)
    ensures
        ({
            let s = row_suggestion(row, kind);
            &&& s.value == row.url
            &&& s.kind == kind
            &&& row.title is None ==> s.display == row.url
            &&& row.title is Some && row.title->0.len() == 0 ==> s.display == row.url
            &&& row.title is Some && row.title->0.len() > 0 ==> s.display == row.title->0 + " — "@
                + row.url
        }),
{
}

/// Law: of the suggestions for one page the first is kept, as it is.
pub proof fn law_first_suggestion_of_a_page_is_kept(s: Seq<SuggestionView>, i: int)
    requires
        0 <= i < s.len(),
        forall|k: int| 0 <= k < i ==> (#[trigger] s[k]).value != s[i].value,
    ensures
        firsts(s).contains(s[i]),
        forall|a: int| 0 <= a < firsts(s).len() ==> s.contains(#[trigger] firsts(s)[a]),
    decreases s.len(),
{
    let t = s.drop_last();
    lemma_firsts_come_from(s);
    if i < t.len() {
        assert forall|k: int| 0 <= k < i implies (#[trigger] t[k]).value != t[i].value by {
            assert(t[k] == s[k]);
        }
        law_first_suggestion_of_a_page_is_kept(t, i);
        let a = choose|a: int| 0 <= a < firsts(t).len() && firsts(t)[a] == t[i];
        assert(firsts(s)[a] == s[i]);
    } else {
        lemma_firsts_come_from(t);
        assert(!suggests(firsts(t), s[i].value)) by {
            if suggests(firsts(t), s[i].value) {
                let a = choose|a: int|
                    0 <= a < firsts(t).len() && (#[trigger] firsts(t)[a]).value == s[i].value;
                assert(t.contains(firsts(t)[a]));
                let k = choose|k: int| 0 <= k < t.len() && t[k] == firsts(t)[a];
                assert(s[k] == t[k]);
            }
        }
        assert(firsts(s)[firsts(t).len() as int] == s[i]);
    }
}

/// Only what was given is suggested.
proof fn lemma_firsts_come_from(s: Seq<SuggestionView>)
    ensures
        forall|a: int| 0 <= a < firsts(s).len() ==> s.contains(#[trigger] firsts(s)[a]),
    decreases s.len(),
{
    if s.len() > 0 {
        let t = s.drop_last();
        lemma_firsts_come_from(t);
        assert forall|a: int| 0 <= a < firsts(s).len() implies s.contains(
            #[trigger] firsts(s)[a],
        ) by {
            if a < firsts(t).len() {
                assert(firsts(s)[a] == firsts(t)[a]);
                let k = choose|k: int| 0 <= k < t.len() && t[k] == firsts(t)[a];
                assert(s[k] == t[k]);
            } else {
                assert(firsts(s)[a] == s.last());
                assert(s[s.len() - 1] == s.last());
            }
        }
    }
}

/// Law: the stores suggest the pages of the history, in their order and as such,
/// and behind them the bookmarks, the first eight of them.
pub proof fn law_history_comes_before_bookmarks(
    history: Seq<RowView>,
    bookmarks: Seq<RowView>,
    i: int,
)
    ensures
        ({
            let s = stored(history, bookmarks);
            let n = history.len();
            &&& s.len() == n + if bookmarks.len() <= 8 { bookmarks.len() as int } else { 8 }
            &&& 0 <= i < n ==> s[i].value == history[i].url && s[i].kind is History
            &&& n <= i < s.len() ==> s[i].value == bookmarks[i - n].url && s[i].kind is Bookmark
        }),
{
}

/// Law: for a blank text the omnibar suggests nothing. For any other it suggests
/// the pages of the stores first, each once, as many as there is room for; where
/// room is left and the text can be searched for, that search comes last and
/// nowhere else.
pub proof fn law_search_comes_last(
    needle: Seq<char>,
    history: Seq<RowView>,
    bookmarks: Seq<RowView>,
    resolved: Seq<char>,
    max: nat,
)
    requires
        needle.len() > 0,
    ensures
        ({
            let list = omnibar_list(needle, history, bookmarks, resolved, max);
            let pages = firsts(stored(history, bookmarks));
            let searches = pages.len() < max && resolved.len() > 0;
            &&& omnibar_list(Seq::empty(), history, bookmarks, resolved, max).len() == 0
            &&& list.len() == if searches {
                pages.len() + 1
            } else if pages.len() < max {
                pages.len()
            } else {
                max
            }
            &&& forall|k: int| 0 <= k < list.len() && k < pages.len() ==> #[trigger] list[k] == pages[k]
            &&& searches ==> {
                let s = list.last();
                &&& s.kind is SearchSuggestion
                &&& s.value == resolved
                &&& s.display == "Search: "@ + needle
            }
            &&& history.len() > 0 && max > 0 ==> list.len() > 0 && list[0].value == history[0].url
                && list[0].kind is History
        }),
{
    if history.len() > 0 && max > 0 {
        let s = stored(history, bookmarks);
        lemma_firsts_grow(s, 1);
        let one = s.take(1);
        assert(one.drop_last() =~= Seq::<SuggestionView>::empty());
        assert(firsts(one.drop_last()) == Seq::<SuggestionView>::empty());
        assert(firsts(one) =~= seq![s[0]]);
        assert(firsts(s).subrange(0, 1)[0] == firsts(one)[0]);
        assert(firsts(s)[0] == s[0]);
    }
}

/// Law: what comes before is suggested before: more pages add suggestions behind
/// those that are there.
pub proof fn law_earlier_pages_are_suggested_earlier(s: Seq<SuggestionView>, n: int)
    requires
        0 <= n <= s.len(),
    ensures
        firsts(s.take(n)).is_prefix_of(firsts(s)),
{
    lemma_firsts_grow(s, n);
}

/// Law: the models of suggestions and of pages show each of them in its place, with what
/// it holds.
pub proof fn law_suggestions_are_seen_whole(v: Seq<Suggestion>, w: Seq<PageRow>, s: Suggestion, x: PageRow)
    ensures
        list_view(v).len() == v.len(),
        forall|i: int| 0 <= i < v.len() ==> #[trigger] list_view(v)[i] == v[i]@,
        rows_view(w).len() == w.len(),
        forall|i: int| 0 <= i < w.len() ==> #[trigger] rows_view(w)[i] == w[i]@,
        s@.display == s.display@,
        s@.value == s.value@,
        s@.kind == s.kind,
        x@.url == x.url@,
        x@.title is Some <==> x.title is Some,
        x.title is Some ==> x@.title->0 == x.title->0@,
{
}

} // verus!
