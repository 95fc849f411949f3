//! The new-tab page.
use vstd::prelude::*;
use vstd::relations::*;
use vstd::seq_lib::*;
use vstd::string::*;
use crate::order;
use crate::order::insert_sorted;
use crate::text;
use crate::text::{chars_of, has_prefix, same_text, string_of};

verus! {

/// What one character becomes inside a table cell.
pub open spec fn escaped_char(c: char) -> Seq<char> {
    if c == '&' {
        seq!['&', 'a', 'm', 'p', ';']
    } else if c == '<' {
        seq!['&', 'l', 't', ';']
    } else if c == '>' {
        seq!['&', 'g', 't', ';']
    } else if c == '"' {
        seq!['&', 'q', 'u', 'o', 't', ';']
    } else if c == '\'' {
        seq!['&', '#', '3', '9', ';']
    } else {
        seq![c]
    }
}

/// What a text becomes inside a table cell.
pub open spec fn escaped(s: Seq<char>) -> Seq<char>
    decreases s.len(),
{
    if s.len() == 0 {
        Seq::empty()
    } else {
        escaped(s.drop_last()) + escaped_char(s.last())
    }
}

/// Escape the five characters that matter when a label goes into a table
/// cell.
pub fn html_escape(s: &str) -> (out: String)
    ensures
        out@ == escaped(s@),
{
    let v = chars_of(s);
    let mut out = String::new();
    let mut i: usize = 0;
    proof {
        assert(v@.take(0) =~= Seq::empty());
        reveal_strlit("&amp;");
        reveal_strlit("&lt;");
        reveal_strlit("&gt;");
        reveal_strlit("&quot;");
        reveal_strlit("&#39;");
        assert("&amp;"@ =~= escaped_char('&'));
        assert("&lt;"@ =~= escaped_char('<'));
        assert("&gt;"@ =~= escaped_char('>'));
        assert("&quot;"@ =~= escaped_char('"'));
        assert("&#39;"@ =~= escaped_char('\''));
    }
    while i < v.len()
        invariant
            i <= v@.len(),
            out@ == escaped(v@.take(i as int)),
            "&amp;"@ == escaped_char('&'),
            "&lt;"@ == escaped_char('<'),
            "&gt;"@ == escaped_char('>'),
            "&quot;"@ == escaped_char('"'),
            "&#39;"@ == escaped_char('\''),
        decreases v.len() - i,
    {
        let c = v[i];
        proof {
            let t = v@.take(i as int + 1);
            assert(t.drop_last() =~= v@.take(i as int));
            assert(t.last() == c);
        }
        if c == '&' {
            out.append("&amp;");
        } else if c == '<' {
            out.append("&lt;");
        } else if c == '>' {
            out.append("&gt;");
        } else if c == '"' {
            out.append("&quot;");
        } else if c == '\'' {
            out.append("&#39;");
        } else {
            let ghost before = out@;
            out.push(c);
            proof {
                assert(out@ =~= before + escaped_char(c));
            }
        }
        i = i + 1;
    }
    proof {
        assert(v@.take(v@.len() as int) =~= v@);
    }
    out
}

/// Whether a character could end the text of a table cell or of an attribute.
pub open spec fn delimits(c: char) -> bool {
    c == '<' || c == '>' || c == '"' || c == '\''
}

/// Law: an escaped text holds no character that could end the cell it stands in.
pub proof fn law_escaped_text_is_inert(s: Seq<char>)
    ensures
        forall|i: int| 0 <= i < escaped(s).len() ==> !delimits(#[trigger] escaped(s)[i]),
    decreases s.len(),
{
    if s.len() > 0 {
        law_escaped_text_is_inert(s.drop_last());
        let a = escaped(s.drop_last());
        let b = escaped_char(s.last());
        assert forall|i: int| 0 <= i < escaped(s).len() implies !delimits(
            #[trigger] escaped(s)[i],
        ) by {
            if i < a.len() {
                assert(escaped(s)[i] == a[i]);
            } else {
                assert(escaped(s)[i] == b[i - a.len()]);
            }
        }
    }
}

/// A key binding.
#[derive(Debug)]
pub struct Binding {
    /// The keys, in the order in which they are pressed.
    pub keys: String,
    /// The name of the action.
    pub action: String,
}

/// The contents of a [`Binding`].
pub struct BindingView {
    pub keys: Seq<char>,
    pub action: Seq<char>,
}

impl View for Binding {
    type V = BindingView;

    open spec fn view(&self) -> BindingView {
        BindingView { keys: self.keys@, action: self.action@ }
    }
}

/// The views of a list of bindings.
pub open spec fn bindings_view(v: Seq<Binding>) -> Seq<BindingView> {
    v.map_values(|b: Binding| b@)
}

/// The actions that are bound, each of them once.
pub open spec fn actions_of(b: Seq<BindingView>) -> Seq<Seq<char>>
    decreases b.len(),
{
    if b.len() == 0 {
        Seq::empty()
    } else {
        let before = actions_of(b.drop_last());
        if before.contains(b.last().action) {
            before
        } else {
            before.push(b.last().action)
        }
    }
}

/// The keys that an action is bound to.
pub open spec fn keys_of(b: Seq<BindingView>, action: Seq<char>) -> Seq<Seq<char>>
    decreases b.len(),
{
    if b.len() == 0 {
        Seq::empty()
    } else {
        let before = keys_of(b.drop_last(), action);
        if b.last().action == action {
            before.push(b.last().keys)
        } else {
            before
        }
    }
}

/// The actions in their order.
pub open spec fn sorted_actions(b: Seq<BindingView>) -> Seq<Seq<char>> {
    actions_of(b).sort_by(order::text_order())
}

/// The keys of an action in their order.
pub open spec fn sorted_keys(b: Seq<BindingView>, action: Seq<char>) -> Seq<Seq<char>> {
    keys_of(b, action).sort_by(order::text_order())
}

/// Keys as the table shows them, with a space between them.
pub open spec fn keys_html(keys: Seq<Seq<char>>) -> Seq<char>
    decreases keys.len(),
{
    if keys.len() == 0 {
        Seq::empty()
    } else {
        let before = keys_html(keys.drop_last());
        before + (if keys.len() > 1 { " "@ } else { Seq::empty() }) + "<kbd>"@ + escaped(
            keys.last(),
        ) + "</kbd>"@
    }
}

/// One row of the table.
pub open spec fn row_html(keys: Seq<Seq<char>>, action: Seq<char>) -> Seq<char> {
    "<tr><td class=\"k\">"@ + keys_html(keys) + "</td><td class=\"a\">"@ + escaped(action)
        + "</td></tr>"@
}

/// The rows of these actions.
pub open spec fn rows_html(b: Seq<BindingView>, actions: Seq<Seq<char>>) -> Seq<char>
    decreases actions.len(),
{
    if actions.len() == 0 {
        Seq::empty()
    } else {
        rows_html(b, actions.drop_last()) + row_html(
            sorted_keys(b, actions.last()),
            actions.last(),
        )
    }
}

/// The body of the table: a row for each action, or one that says that there are
/// none.
pub open spec fn table_html(b: Seq<BindingView>) -> Seq<char> {
    if b.len() == 0 {
        "<tr><td class=\"empty\" colspan=\"2\">no bindings</td></tr>"@
    } else {
        rows_html(b, sorted_actions(b))
    }
}

/// Whether `marker` stands in `s` at `i`.
pub open spec fn stands_at(s: Seq<char>, marker: Seq<char>, i: int) -> bool {
    0 <= i && i + marker.len() <= s.len() && s.subrange(i, i + marker.len()) == marker
}

/// Whether `r` is `s` with `with` in place of the first `marker`, or `s` itself
/// if the marker is not in it.
pub open spec fn replaced_once(
    s: Seq<char>,
    marker: Seq<char>,
    with: Seq<char>,
    r: Seq<char>,
) -> bool {
    ||| exists|i: int|
        #[trigger] stands_at(s, marker, i) && (forall|k: int| k < i ==> !stands_at(s, marker, k))
            && r == s.take(i) + with + s.skip(i + marker.len())
    ||| (forall|k: int| !stands_at(s, marker, k)) && r == s
}

/// The text with another in place of the first marker.
pub fn replace_first(s: &str, marker: &str, with: &str) -> (r: String)
    ensures
        replaced_once(s@, marker@, with@, r@),
{
    let v = chars_of(s);
    let m = chars_of(marker);
    if v.len() < m.len() {
        return s.to_string();
    }
    let last: usize = v.len() - m.len();
    let mut i: usize = 0;
    let mut more = true;
    while more
        invariant
            v@ == s@,
            m@ == marker@,
            last == v.len() - m.len(),
            i <= last,
            forall|k: int| k < i ==> !stands_at(s@, marker@, k),
            !more ==> forall|k: int| !stands_at(s@, marker@, k),
        decreases (if more { last - i + 1 } else { 0 }),
    {
        if matches_at(&v, &m, i) {
            let mut r = string_of(&v, 0, i);
            r.append(with);
            let rest = string_of(&v, i + m.len(), v.len());
            r.append(rest.as_str());
            proof {
                assert(stands_at(s@, marker@, i as int));
                assert(r@ =~= s@.take(i as int) + with@ + s@.skip(i + marker@.len()));
            }
            return r;
        }
        if i == last {
            more = false;
        } else {
            i += 1;
        }
    }
    s.to_string()
}

/// Whether `m` stands in `v` at `i`.
fn matches_at(v: &Vec<char>, m: &Vec<char>, i: usize) -> (r: bool)
    requires
        i + m.len() <= v.len(),
    ensures
        r == stands_at(v@, m@, i as int),
{
    let mut k: usize = 0;
    while k < m.len()
        invariant
            k <= m.len(),
            i + m.len() <= v.len(),
            forall|j: int| 0 <= j < k ==> v@[i + j] == m@[j],
        decreases m.len() - k,
    {
        if v[i + k] != m[k] {
            proof {
                assert(v@.subrange(i as int, i + m.len())[k as int] == v@[i + k]);
            }
            return false;
        }
        k += 1;
    }
    proof {
        assert(v@.subrange(i as int, i + m.len()) =~= m@);
    }
    true
}

/// Whether a list holds a text.
fn lists(v: &Vec<String>, s: &str) -> (r: bool)
    ensures
        r == text::texts(v@).contains(s@),
{
    let mut i: usize = 0;
    while i < v.len()
        invariant
            i <= v.len(),
            forall|k: int| 0 <= k < i ==> text::texts(v@)[k] != s@,
        decreases v.len() - i,
    {
        if same_text(v[i].as_str(), s) {
            proof {
                assert(text::texts(v@)[i as int] == s@);
            }
            return true;
        }
        i += 1;
    }
    false
}

/// The bound actions in their order.
fn list_actions(bindings: &Vec<Binding>) -> (r: Vec<String>)
    ensures
        text::texts(r@) == sorted_actions(bindings_view(bindings@)),
{
    let ghost b = bindings_view(bindings@);
    let mut out: Vec<String> = Vec::new();
    let mut i: usize = 0;
    proof {
        assert(b.take(0) =~= Seq::empty());
        assert(text::texts(out@) =~= Seq::empty());
        assert(actions_of(b.take(0)) =~= Seq::empty());
    }
    while i < bindings.len()
        invariant
            i <= bindings.len(),
            b == bindings_view(bindings@),
            sorted_by(text::texts(out@), order::text_order()),
            text::texts(out@).to_multiset() == actions_of(b.take(i as int)).to_multiset(),
        decreases bindings.len() - i,
    {
        let ghost shown = text::texts(out@);
        let ghost acts = actions_of(b.take(i as int));
        let action = bindings[i].action.as_str();
        proof {
            assert(b.take(i + 1).drop_last() =~= b.take(i as int));
            assert(b.take(i + 1).last() == bindings@[i as int]@);
            to_multiset_contains(shown, action@);
            to_multiset_contains(acts, action@);
        }
        if !lists(&out, action) {
            insert_sorted(&mut out, action.to_string());
            proof {
                to_multiset_build(acts, action@);
            }
        }
        i += 1;
    }
    proof {
        assert(b.take(b.len() as int) =~= b);
        order::lemma_sorted_is(text::texts(out@), actions_of(b));
    }
    out
}

/// The keys of an action in their order.
fn list_keys(bindings: &Vec<Binding>, action: &str) -> (r: Vec<String>)
    ensures
        text::texts(r@) == sorted_keys(bindings_view(bindings@), action@),
{
    let ghost b = bindings_view(bindings@);
    let mut out: Vec<String> = Vec::new();
    let mut i: usize = 0;
    proof {
        assert(b.take(0) =~= Seq::empty());
        assert(text::texts(out@) =~= Seq::empty());
        assert(keys_of(b.take(0), action@) =~= Seq::empty());
    }
    while i < bindings.len()
        invariant
            i <= bindings.len(),
            b == bindings_view(bindings@),
            sorted_by(text::texts(out@), order::text_order()),
            text::texts(out@).to_multiset() == keys_of(b.take(i as int), action@).to_multiset(),
        decreases bindings.len() - i,
    {
        proof {
            assert(b.take(i + 1).drop_last() =~= b.take(i as int));
            assert(b.take(i + 1).last() == bindings@[i as int]@);
            to_multiset_build(keys_of(b.take(i as int), action@), bindings@[i as int].keys@);
        }
        if same_text(bindings[i].action.as_str(), action) {
            insert_sorted(&mut out, bindings[i].keys.clone());
        }
        i += 1;
    }
    proof {
        assert(b.take(b.len() as int) =~= b);
        order::lemma_sorted_is(text::texts(out@), keys_of(b, action@));
    }
    out
}

/// Keys as the table shows them.
fn render_keys(keys: &Vec<String>) -> (r: String)
    ensures
        r@ == keys_html(text::texts(keys@)),
{
    let ghost t = text::texts(keys@);
    let mut r = String::new();
    let mut i: usize = 0;
    proof {
        assert(t.take(0) =~= Seq::empty());
        assert(r@ =~= keys_html(t.take(0)));
    }
    while i < keys.len()
        invariant
            i <= keys.len(),
            t == text::texts(keys@),
            r@ == keys_html(t.take(i as int)),
        decreases keys.len() - i,
    {
        let ghost before = r@;
        if i > 0 {
            r.append(" ");
        }
        r.append("<kbd>");
        let key = html_escape(keys[i].as_str());
        r.append(key.as_str());
        r.append("</kbd>");
        proof {
            assert(t.take(i + 1).drop_last() =~= t.take(i as int));
            assert(t.take(i + 1).last() == keys@[i as int]@);
            let sep = if i > 0 { " "@ } else { Seq::<char>::empty() };
            assert(r@ =~= before + sep + "<kbd>"@ + key@ + "</kbd>"@);
        }
        i += 1;
    }
    proof {
        assert(t.take(t.len() as int) =~= t);
    }
    r
}

/// The body of the table of key bindings: one row for each action, with all the
/// keys it is bound to, everything in order.
pub fn render_table(bindings: &Vec<Binding>) -> (r: String)
    ensures
        r@ == table_html(bindings_view(bindings@)),
{
    let ghost b = bindings_view(bindings@);
    if bindings.len() == 0 {
        return "<tr><td class=\"empty\" colspan=\"2\">no bindings</td></tr>".to_string();
    }
    let actions = list_actions(bindings);
    let ghost a = text::texts(actions@);
    let mut r = String::new();
    let mut i: usize = 0;
    proof {
        assert(a.take(0) =~= Seq::empty());
        assert(r@ =~= rows_html(b, a.take(0)));
    }
    while i < actions.len()
        invariant
            i <= actions.len(),
            b == bindings_view(bindings@),
            a == text::texts(actions@),
            r@ == rows_html(b, a.take(i as int)),
        decreases actions.len() - i,
    {
        let ghost before = r@;
        let action = actions[i].as_str();
        let keys = list_keys(bindings, action);
        let kbds = render_keys(&keys);
        let name = html_escape(action);
        r.append("<tr><td class=\"k\">");
        r.append(kbds.as_str());
        r.append("</td><td class=\"a\">");
        r.append(name.as_str());
        r.append("</td></tr>");
        proof {
            assert(a.take(i + 1).drop_last() =~= a.take(i as int));
            assert(a.take(i + 1).last() == actions@[i as int]@);
            assert(r@ =~= before + row_html(sorted_keys(b, action@), action@));
        }
        i += 1;
    }
    proof {
        assert(a.take(a.len() as int) =~= a);
    }
    r
}

/// The new-tab page: the template with the table of key bindings in place of the
/// first of one marker, and then the splash art in place of the first of the
/// other.
pub fn render_new_tab_html(
    bindings: &Vec<Binding>,
    template: &str,
    keybinds_marker: &str,
    art_marker: &str,
    art: &str,
) -> (r: String)
    ensures
        exists|page: Seq<char>|
            #[trigger] replaced_once(
                template@,
                keybinds_marker@,
                table_html(bindings_view(bindings@)),
                page,
            ) && replaced_once(page, art_marker@, art@, r@),
{
    let body = render_table(bindings);
    let page = replace_first(template, keybinds_marker, body.as_str());
    replace_first(page.as_str(), art_marker, art)
}

/// Law: every binding is in the table, in the row of its action, and every
/// action has one row.
pub proof fn law_every_binding_is_shown(b: Seq<BindingView>, i: int)
    requires
        0 <= i < b.len(),
    ensures
        sorted_actions(b).contains(b[i].action),
        sorted_keys(b, b[i].action).contains(b[i].keys),
        sorted_actions(b).no_duplicates(),
{
    order::lemma_text_order();
    let acts = actions_of(b);
    let keys = keys_of(b, b[i].action);
    lemma_actions(b);
    lemma_keys(b, i);
    acts.lemma_sort_by_ensures(order::text_order());
    keys.lemma_sort_by_ensures(order::text_order());
    to_multiset_contains(acts, b[i].action);
    to_multiset_contains(sorted_actions(b), b[i].action);
    to_multiset_contains(keys, b[i].keys);
    to_multiset_contains(sorted_keys(b, b[i].action), b[i].keys);
    acts.lemma_multiset_has_no_duplicates();
    sorted_actions(b).lemma_multiset_has_no_duplicates_conv();
}

/// The actions hold every action once.
proof fn lemma_actions(b: Seq<BindingView>)
    ensures
        forall|i: int| 0 <= i < b.len() ==> actions_of(b).contains((#[trigger] b[i]).action),
        actions_of(b).no_duplicates(),
    decreases b.len(),
{
    if b.len() > 0 {
        let c = b.drop_last();
        lemma_actions(c);
        let before = actions_of(c);
        assert forall|i: int| 0 <= i < b.len() implies actions_of(b).contains(
            (#[trigger] b[i]).action,
        ) by {
            if i < c.len() {
                assert(c[i] == b[i]);
                let k = choose|k: int| 0 <= k < before.len() && before[k] == b[i].action;
                assert(actions_of(b)[k] == b[i].action);
            } else if !before.contains(b.last().action) {
                assert(actions_of(b)[before.len() as int] == b.last().action);
            }
        }
    }
}

/// The keys of an action hold those of every binding of it.
proof fn lemma_keys(b: Seq<BindingView>, i: int)
    requires
        0 <= i < b.len(),
    ensures
        keys_of(b, b[i].action).contains(b[i].keys),
    decreases b.len(),
{
    let c = b.drop_last();
    let a = b[i].action;
    if i < c.len() {
        lemma_keys(c, i);
        let before = keys_of(c, a);
        let k = choose|k: int| 0 <= k < before.len() && before[k] == b[i].keys;
        assert(keys_of(b, a)[k] == b[i].keys);
    } else {
        assert(keys_of(b, a).last() == b[i].keys);
    }
}

/// One character inside a JSON string.
pub open spec fn json_char(c: char) -> Seq<char> {
    let n = c as int;
    if c == '"' || c == '\\' {
        seq!['\\', c]
    } else if n == 8 {
        seq!['\\', 'b']
    } else if n == 9 {
        seq!['\\', 't']
    } else if n == 10 {
        seq!['\\', 'n']
    } else if n == 12 {
        seq!['\\', 'f']
    } else if n == 13 {
        seq!['\\', 'r']
    } else if n < 32 {
        seq!['\\', 'u', '0', '0', text::hex_digit(n / 16), text::hex_digit(n % 16)]
    } else {
        seq![c]
    }
}

/// A text inside a JSON string.
pub open spec fn json_chars(s: Seq<char>) -> Seq<char>
    decreases s.len(),
{
    if s.len() == 0 {
        Seq::empty()
    } else {
        json_chars(s.drop_last()) + json_char(s.last())
    }
}

/// A text as a JSON string.
pub open spec fn json_text(s: Seq<char>) -> Seq<char> {
    seq!['"'] + json_chars(s) + seq!['"']
}

/// `serde_json::to_string` of a string. It writes a quote, each character, and a
/// quote: the quote and the backslash behind a backslash, the control characters
/// below the space by their short escapes or by `\u00` and two lower-case
/// digits, everything else as it is. Writing to memory, it does not fail.
#[verifier::external_body]
fn json_string(s: &str) -> (r: Option<String>)
    ensures
        r is Some,
        r->0@ == json_text(s@),
{
    serde_json::to_string(s).ok()
}

/// The script that shows a frame of the animation on the new-tab page.
pub open spec fn splash_script_text(html: Seq<char>) -> Seq<char> {
    "(()=>{const e=document.getElementById('buffr-splash');if(e)e.innerHTML="@ + json_text(html)
        + ";})()"@
}

/// The script that shows a frame of the animation on the new-tab page.
pub fn splash_script(html: &str) -> (r: String)
    ensures
        r@ == splash_script_text(html@),
{
    let escaped = match json_string(html) {
        Some(t) => t,
        None => "\"\"".to_string(),
    };
    let mut r = "(()=>{const e=document.getElementById('buffr-splash');if(e)e.innerHTML=".to_string();
    r.append(escaped.as_str());
    r.append(";})()");
    r
}

/// The script that types a text into the field that has the caret.
pub open spec fn insert_script_text(text: Seq<char>) -> Seq<char> {
    "document.execCommand('insertText',false,"@ + json_text(text) + ")"@
}

/// The script that types a text into the field that has the caret.
pub fn insert_script(text: &str) -> (r: String)
    ensures
        r@ == insert_script_text(text@),
{
    let escaped = match json_string(text) {
        Some(t) => t,
        None => "\"\"".to_string(),
    };
    let mut r = "document.execCommand('insertText',false,".to_string();
    r.append(escaped.as_str());
    r.append(")");
    r
}

/// What stands for one character inside a JSON string.
proof fn lemma_json_char(c: char)
    ensures
        json_char(c).len() > 0,
        forall|i: int|
            0 <= i < json_char(c).len() ==> {
                &&& (#[trigger] json_char(c)[i]) as int >= 32
                &&& json_char(c)[i] == '"' ==> i > 0 && json_char(c)[i - 1] == '\\'
            },
{
    let n = c as int;
    assert(n >= 0);
    if n < 32 {
        let high = if n / 16 < 10 { n / 16 + 48 } else { n / 16 + 87 };
        let low = if n % 16 < 10 { n % 16 + 48 } else { n % 16 + 87 };
        assert(48 <= high <= 102 && 48 <= low <= 102);
        assert((high as char) as int == high);
        assert((low as char) as int == low);
    }
}

/// Law: inside a JSON string no quote stands without a backslash before it, and
/// no control character stands at all, so the text cannot end the string.
pub proof fn law_json_text_cannot_end_early(s: Seq<char>)
    ensures
        ({
            let t = json_chars(s);
            forall|i: int|
                0 <= i < t.len() ==> {
                    &&& (#[trigger] t[i]) as int >= 32
                    &&& t[i] == '"' ==> i > 0 && t[i - 1] == '\\'
                }
        }),
    decreases s.len(),
{
    if s.len() > 0 {
        law_json_text_cannot_end_early(s.drop_last());
        let a = json_chars(s.drop_last());
        let b = json_char(s.last());
        let t = json_chars(s);
        lemma_json_char(s.last());
        assert forall|i: int| 0 <= i < t.len() implies {
            &&& (#[trigger] t[i]) as int >= 32
            &&& t[i] == '"' ==> i > 0 && t[i - 1] == '\\'
        } by {
            if i < a.len() {
                assert(t[i] == a[i]);
                if i > 0 {
                    assert(t[i - 1] == a[i - 1]);
                }
            } else {
                let k = i - a.len();
                assert(t[i] == b[k]);
                if k > 0 {
                    assert(t[i - 1] == b[k - 1]);
                }
            }
        }
    }
}

/// Whether a page is the new-tab page.
pub open spec fn at_new_tab(url: Seq<char>, new_tab_url: Seq<char>) -> bool {
    new_tab_url.is_prefix_of(url)
}

/// Whether a page is the new-tab page, at `new_tab_url` or below it.
pub fn is_new_tab(url: &str, new_tab_url: &str) -> (r: bool)
    ensures
        r == at_new_tab(url@, new_tab_url@),
{
    has_prefix(url, new_tab_url)
}

/// Law: escaping goes character by character. The five characters that matter
/// become their entities, every other stays as it is, so a text without them is
/// shown unchanged.
pub proof fn law_escaping_keeps_the_text(a: Seq<char>, b: Seq<char>, c: char)
    ensures
        escaped(a + b) == escaped(a) + escaped(b),
        c == '&' ==> escaped(seq![c]) == "&amp;"@,
        c == '<' ==> escaped(seq![c]) == "&lt;"@,
        c == '>' ==> escaped(seq![c]) == "&gt;"@,
        c == '"' ==> escaped(seq![c]) == "&quot;"@,
        c == '\'' ==> escaped(seq![c]) == "&#39;"@,
        c != '&' && c != '<' && c != '>' && c != '"' && c != '\'' ==> escaped(seq![c]) == seq![c],
    decreases b.len(),
{
    reveal_strlit("&amp;");
    reveal_strlit("&lt;");
    reveal_strlit("&gt;");
    reveal_strlit("&quot;");
    reveal_strlit("&#39;");
    let one = seq![c];
    assert(one.drop_last() =~= Seq::<char>::empty());
    assert(escaped(one.drop_last()) == Seq::<char>::empty());
    assert(escaped(one) =~= escaped_char(c));
    if c == '&' {
        assert(escaped_char(c) =~= "&amp;"@);
    } else if c == '<' {
        assert(escaped_char(c) =~= "&lt;"@);
    } else if c == '>' {
        assert(escaped_char(c) =~= "&gt;"@);
    } else if c == '"' {
        assert(escaped_char(c) =~= "&quot;"@);
    } else if c == '\'' {
        assert(escaped_char(c) =~= "&#39;"@);
    }
    if b.len() == 0 {
        assert(a + b =~= a);
        assert(escaped(a) + Seq::<char>::empty() =~= escaped(a));
    } else {
        law_escaping_keeps_the_text(a, b.drop_last(), c);
        assert((a + b).drop_last() =~= a + b.drop_last());
        assert((a + b).last() == b.last());
        assert(escaped(a + b) =~= escaped(a) + escaped(b));
    }
}

/// Law: the table shows nothing that is not bound: each of its actions is that of a
/// binding, and each key shown for an action is bound to it. Both stand in the
/// order of a dictionary.
pub proof fn law_only_bindings_are_shown(b: Seq<BindingView>, action: Seq<char>, keys: Seq<char>)
    ensures
        sorted_actions(b).contains(action) ==> exists|i: int|
            0 <= i < b.len() && (#[trigger] b[i]).action == action,
        sorted_keys(b, action).contains(keys) ==> exists|i: int|
            0 <= i < b.len() && (#[trigger] b[i]).action == action && b[i].keys == keys,
        forall|i: int, j: int|
            0 <= i < j < sorted_actions(b).len() ==> order::text_le(
                #[trigger] sorted_actions(b)[i],
                #[trigger] sorted_actions(b)[j],
            ),
        forall|i: int, j: int|
            0 <= i < j < sorted_keys(b, action).len() ==> order::text_le(
                #[trigger] sorted_keys(b, action)[i],
                #[trigger] sorted_keys(b, action)[j],
            ),
{
    order::lemma_text_order();
    let acts = actions_of(b);
    let list = keys_of(b, action);
    acts.lemma_sort_by_ensures(order::text_order());
    list.lemma_sort_by_ensures(order::text_order());
    to_multiset_contains(acts, action);
    to_multiset_contains(sorted_actions(b), action);
    to_multiset_contains(list, keys);
    to_multiset_contains(sorted_keys(b, action), keys);
    lemma_shown_comes_from_a_binding(b, action, keys);
    let r = order::text_order();
    assert forall|i: int, j: int| 0 <= i < j < sorted_actions(b).len() implies order::text_le(
        #[trigger] sorted_actions(b)[i],
        #[trigger] sorted_actions(b)[j],
    ) by {
        assert(r(sorted_actions(b)[i], sorted_actions(b)[j]));
    }
    assert forall|i: int, j: int| 0 <= i < j < sorted_keys(b, action).len() implies order::text_le(
        #[trigger] sorted_keys(b, action)[i],
        #[trigger] sorted_keys(b, action)[j],
    ) by {
        assert(r(sorted_keys(b, action)[i], sorted_keys(b, action)[j]));
    }
}

/// What is listed belongs to a binding.
proof fn lemma_shown_comes_from_a_binding(b: Seq<BindingView>, action: Seq<char>, keys: Seq<char>)
    ensures
        actions_of(b).contains(action) ==> exists|i: int|
            0 <= i < b.len() && (#[trigger] b[i]).action == action,
        keys_of(b, action).contains(keys) ==> exists|i: int|
            0 <= i < b.len() && (#[trigger] b[i]).action == action && b[i].keys == keys,
    decreases b.len(),
{
    if b.len() > 0 {
        let c = b.drop_last();
        lemma_shown_comes_from_a_binding(c, action, keys);
        let n = b.len() - 1;
        assert(b[n] == b.last());
        if actions_of(b).contains(action) && b.last().action != action {
            let k = choose|k: int| 0 <= k < actions_of(b).len() && actions_of(b)[k] == action;
            assert(actions_of(c)[k] == action);
            let i = choose|i: int| 0 <= i < c.len() && (#[trigger] c[i]).action == action;
            assert(b[i] == c[i]);
        }
        if keys_of(b, action).contains(keys) && !(b.last().action == action && b.last().keys == keys) {
            let k = choose|k: int| 0 <= k < keys_of(b, action).len() && keys_of(b, action)[k] == keys;
            assert(keys_of(c, action)[k] == keys);
            let i = choose|i: int|
                0 <= i < c.len() && (#[trigger] c[i]).action == action && c[i].keys == keys;
            assert(b[i] == c[i]);
        }
    }
}

/// Law: the table is made of one row after the other, each with the keys of its
/// action and its name, escaped; within a row the keys follow one another with a
/// space between.
pub proof fn law_table_is_made_of_rows(
    b: Seq<BindingView>,
    first: Seq<Seq<char>>,
    action: Seq<char>,
    keys: Seq<Seq<char>>,
    key: Seq<char>,
)
    ensures
        rows_html(b, first.push(action)) == rows_html(b, first) + "<tr><td class=\"k\">"@ + keys_html(
            sorted_keys(b, action),
        ) + "</td><td class=\"a\">"@ + escaped(action) + "</td></tr>"@,
        rows_html(b, Seq::empty()).len() == 0,
        keys_html(seq![key]) == "<kbd>"@ + escaped(key) + "</kbd>"@,
        keys.len() > 0 ==> keys_html(keys.push(key)) == keys_html(keys) + " "@ + keys_html(seq![key]),
        b.len() > 0 ==> table_html(b) == rows_html(b, sorted_actions(b)),
{
    assert(first.push(action).drop_last() =~= first);
    assert(rows_html(b, first.push(action)) =~= rows_html(b, first) + "<tr><td class=\"k\">"@
        + keys_html(sorted_keys(b, action)) + "</td><td class=\"a\">"@ + escaped(action)
        + "</td></tr>"@);
    let one = seq![key];
    assert(one.drop_last() =~= Seq::<Seq<char>>::empty());
    assert(keys_html(one.drop_last()) == Seq::<char>::empty());
    assert(keys_html(one) =~= "<kbd>"@ + escaped(key) + "</kbd>"@);
    if keys.len() > 0 {
        assert(keys.push(key).drop_last() =~= keys);
        assert(keys_html(keys.push(key)) =~= keys_html(keys) + " "@ + keys_html(one));
    }
}

/// Law: a marker is replaced where it first stands and nowhere else, what stands
/// before and behind it stays, and a text without it stays whole; there is only one
/// such result.
pub proof fn law_marker_is_replaced_in_place(
    before: Seq<char>,
    marker: Seq<char>,
    behind: Seq<char>,
    with: Seq<char>,
    r: Seq<char>,
)
    requires
        replaced_once(before + marker + behind, marker, with, r),
        forall|k: int|
            k < before.len() ==> !#[trigger] stands_at(before + marker + behind, marker, k),
    ensures
        r == before + with + behind,
{
    let s = before + marker + behind;
    let n = before.len() as int;
    assert(s.subrange(n, n + marker.len()) =~= marker);
    assert(stands_at(s, marker, n));
    let i = choose|i: int|
        #[trigger] stands_at(s, marker, i) && (forall|k: int| k < i ==> !stands_at(s, marker, k)) && r
            == s.take(i) + with + s.skip(i + marker.len());
    assert(i == n);
    assert(s.take(n) =~= before);
    assert(s.skip(n + marker.len()) =~= behind);
}

/// Law: a text that the marker is not in stays as it is.
pub proof fn law_text_without_the_marker_stays(
    s: Seq<char>,
    marker: Seq<char>,
    with: Seq<char>,
    r: Seq<char>,
)
    requires
        replaced_once(s, marker, with, r),
        forall|k: int| !#[trigger] stands_at(s, marker, k),
    ensures
        r == s,
{
}

/// Law: a text goes into a script as a JSON string, character by character: what
/// needs no escape stays as it is, so that the script gets the text itself.
pub proof fn law_scripts_get_the_text(a: Seq<char>, b: Seq<char>, c: char)
    ensures
        json_chars(a + b) == json_chars(a) + json_chars(b),
        c as int >= 32 && c != '"' && c != '\\' ==> json_chars(seq![c]) == seq![c],
        c == '"' || c == '\\' ==> json_chars(seq![c]) == seq!['\\', c],
        json_text(a) == seq!['"'] + json_chars(a) + seq!['"'],
        insert_script_text(a) == "document.execCommand('insertText',false,"@ + json_text(a) + ")"@,
        splash_script_text(a)
            == "(()=>{const e=document.getElementById('buffr-splash');if(e)e.innerHTML="@ + json_text(
            a,
        ) + ";})()"@,
    decreases b.len(),
{
    let one = seq![c];
    assert(one.drop_last() =~= Seq::<char>::empty());
    assert(json_chars(one.drop_last()) == Seq::<char>::empty());
    assert(json_chars(one) =~= json_char(c));
    if b.len() == 0 {
        assert(a + b =~= a);
        assert(json_chars(a) + Seq::<char>::empty() =~= json_chars(a));
    } else {
        law_scripts_get_the_text(a, b.drop_last(), c);
        assert((a + b).drop_last() =~= a + b.drop_last());
        assert((a + b).last() == b.last());
        assert(json_chars(a + b) =~= json_chars(a) + json_chars(b));
    }
}

/// Law: the new-tab page is the page at its address, with whatever follows, and no
/// page that begins otherwise.
pub proof fn law_new_tab_page_is_told_by_its_address(url: Seq<char>, at: Seq<char>, more: Seq<char>)
    ensures
        at_new_tab(at, at),
        at_new_tab(at + more, at),
        url.len() < at.len() ==> !at_new_tab(url, at),
        url.len() > 0 && at.len() > 0 && url[0] != at[0] ==> !at_new_tab(url, at),
{
    assert(at.subrange(0, at.len() as int) =~= at);
    assert((at + more).subrange(0, at.len() as int) =~= at);
    if at_new_tab(url, at) && at.len() > 0 {
        assert(url.subrange(0, at.len() as int)[0] == url[0]);
    }
}

/// Law: the model of the bindings shows each of them in its place, keys and action.
pub proof fn law_bindings_are_seen_whole(v: Seq<Binding>, x: Binding)
    ensures
        bindings_view(v).len() == v.len(),
        forall|i: int| 0 <= i < v.len() ==> #[trigger] bindings_view(v)[i] == v[i]@,
        x@.keys == x.keys@,
        x@.action == x.action@,
{
}

} // verus!
