//! The order of texts, and sorted lists of them.
use vstd::prelude::*;
use vstd::relations::*;
use vstd::seq_lib::*;
use vstd::string::*;
use crate::text;
use crate::text::chars_of;

verus! {

/// Whether `a` comes before `b` in the order of a dictionary, or is the same.
pub open spec fn text_le(a: Seq<char>, b: Seq<char>) -> bool
    decreases a.len(),
{
    ||| a.len() == 0
    ||| b.len() > 0 && (a[0] as int) < b[0] as int
    ||| b.len() > 0 && a[0] == b[0] && text_le(a.drop_first(), b.drop_first())
}

/// The order of texts.
pub open spec fn text_order() -> spec_fn(Seq<char>, Seq<char>) -> bool {
    |a: Seq<char>, b: Seq<char>| text_le(a, b)
}

/// A text comes before itself.
proof fn lemma_reflexive(a: Seq<char>)
    ensures
        text_le(a, a),
    decreases a.len(),
{
    if a.len() > 0 {
        lemma_reflexive(a.drop_first());
    }
}

/// Two texts that come before one another are the same.
proof fn lemma_antisymmetric(a: Seq<char>, b: Seq<char>)
    requires
        text_le(a, b),
        text_le(b, a),
    ensures
        a == b,
    decreases a.len(),
{
    if a.len() > 0 && b.len() > 0 {
        lemma_antisymmetric(a.drop_first(), b.drop_first());
        assert(a =~= seq![a[0]] + a.drop_first());
        assert(b =~= seq![b[0]] + b.drop_first());
    } else {
        assert(a =~= b);
    }
}

/// What comes before a text that comes before another comes before that one.
proof fn lemma_transitive(a: Seq<char>, b: Seq<char>, c: Seq<char>)
    requires
        text_le(a, b),
        text_le(b, c),
    ensures
        text_le(a, c),
    decreases a.len(),
{
    if a.len() > 0 && a[0] == b[0] && b[0] == c[0] {
        lemma_transitive(a.drop_first(), b.drop_first(), c.drop_first());
    }
}

/// Of two texts one comes before the other.
proof fn lemma_connected(a: Seq<char>, b: Seq<char>)
    ensures
        text_le(a, b) || text_le(b, a),
    decreases a.len(),
{
    if a.len() > 0 && b.len() > 0 {
        lemma_connected(a.drop_first(), b.drop_first());
    }
}

/// The order of texts is a total one.
pub proof fn lemma_text_order()
    ensures
        total_ordering(text_order()),
{
    let r = text_order();
    assert forall|a: Seq<char>| #[trigger] r(a, a) by {
        lemma_reflexive(a);
    }
    assert forall|a: Seq<char>, b: Seq<char>| #[trigger] r(a, b) && #[trigger] r(b, a) implies a
        == b by {
        lemma_antisymmetric(a, b);
    }
    assert forall|a: Seq<char>, b: Seq<char>, c: Seq<char>| #[trigger]
        r(a, b) && #[trigger] r(b, c) implies r(a, c) by {
        lemma_transitive(a, b, c);
    }
    assert forall|a: Seq<char>, b: Seq<char>| #[trigger] r(a, b) || #[trigger] r(b, a) by {
        lemma_connected(a, b);
    }
}

/// Whether `a` comes before `b`, or is the same.
pub fn comes_before(a: &str, b: &str) -> (r: bool)
    ensures
        r == text_le(a@, b@),
{
    let x = chars_of(a);
    let y = chars_of(b);
    let mut i: usize = 0;
    proof {
        assert(x@.skip(0) =~= x@);
        assert(y@.skip(0) =~= y@);
    }
    while i < x.len()
        invariant
            i <= x.len(),
            i <= y.len(),
            x@ == a@,
            y@ == b@,
            text_le(x@, y@) == text_le(x@.skip(i as int), y@.skip(i as int)),
        decreases x.len() - i,
    {
        if i == y.len() {
            return false;
        }
        let c: u32 = code_of(x[i]);
        let d: u32 = code_of(y[i]);
        proof {
            assert(x@.skip(i as int).drop_first() =~= x@.skip(i + 1));
            assert(y@.skip(i as int).drop_first() =~= y@.skip(i + 1));
        }
        if c < d {
            return true;
        }
        if d < c {
            return false;
        }
        i += 1;
    }
    true
}

/// The number of a character.
fn code_of(c: char) -> (r: u32)
    ensures
        r == c as int,
{
    c as u32
}

/// Put a text into its place in a sorted list, behind those that are the same.
pub fn insert_sorted(v: &mut Vec<String>, s: String)
    requires
        sorted_by(text::texts(old(v)@), text_order()),
    ensures
        sorted_by(text::texts(final(v)@), text_order()),
        text::texts(final(v)@).to_multiset() == text::texts(old(v)@).to_multiset().insert(s@),
{
    let ghost before = text::texts(v@);
    let mut i: usize = 0;
    while i < v.len() && comes_before(v[i].as_str(), s.as_str())
        invariant
            i <= v.len(),
            before == text::texts(v@),
            forall|k: int| 0 <= k < i ==> text_le(#[trigger] before[k], s@),
        decreases v.len() - i,
    {
        proof {
            assert(before[i as int] == v@[i as int]@);
        }
        i += 1;
    }
    let ghost sv = s@;
    proof {
        lemma_text_order();
        if i < v@.len() {
            assert(before[i as int] == v@[i as int]@);
            lemma_connected(before[i as int], sv);
        }
        assert forall|k: int| i <= k < before.len() implies text_le(sv, #[trigger] before[k]) by {
            let r = text_order();
            if k > i {
                assert(r(before[i as int], before[k]));
                lemma_transitive(sv, before[i as int], before[k]);
            }
        }
    }
    v.insert(i, s);
    proof {
        broadcast use group_to_multiset_ensures;

        let after = text::texts(v@);
        assert(after =~= before.insert(i as int, sv));
        to_multiset_insert(before, i as int, sv);
        let r = text_order();
        assert forall|a: int, b: int| 0 <= a < b < after.len() implies #[trigger] r(
            after[a],
            after[b],
        ) by {
            let p = if a < i { a } else { a - 1 };
            let q = if b < i { b } else { b - 1 };
            if a != i && b != i {
                assert(after[a] == before[p]);
                assert(after[b] == before[q]);
                assert(r(before[p], before[q]));
            } else if b == i {
                assert(after[a] == before[a]);
            } else {
                assert(after[b] == before[b - 1]);
            }
        }
    }
}

/// A sorted list of these texts is the sorted list of them.
pub proof fn lemma_sorted_is(s: Seq<Seq<char>>, of: Seq<Seq<char>>)
    requires
        sorted_by(s, text_order()),
        s.to_multiset() == of.to_multiset(),
    ensures
        s == of.sort_by(text_order()),
{
    lemma_text_order();
    of.lemma_sort_by_ensures(text_order());
    lemma_sorted_unique(s, of.sort_by(text_order()), text_order());
}

/// Law: the order of texts is that of a dictionary: the empty text comes first, no
/// other comes before it, where two texts begin differently their first characters
/// decide, and what they begin with in common plays no part.
pub proof fn law_texts_are_ordered_as_in_a_dictionary(p: Seq<char>, a: Seq<char>, b: Seq<char>)
    ensures
        text_le(Seq::empty(), a),
        a.len() > 0 ==> !text_le(a, Seq::empty()),
        a.len() > 0 && b.len() > 0 && a[0] < b[0] ==> text_le(a, b) && !text_le(b, a),
        text_le(p + a, p + b) == text_le(a, b),
    decreases p.len(),
{
    if p.len() == 0 {
        assert(p + a =~= a);
        assert(p + b =~= b);
    } else {
        assert((p + a).drop_first() =~= p.drop_first() + a);
        assert((p + b).drop_first() =~= p.drop_first() + b);
        law_texts_are_ordered_as_in_a_dictionary(p.drop_first(), a, b);
    }
}

} // verus!
