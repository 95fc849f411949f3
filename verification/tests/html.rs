//! The new-tab page, texts and their order.
use buffr::fixed::{abs_i128, abs_i64, add_cut, round_to_i32, times_cut};
use buffr::html::{
    html_escape, insert_script, is_new_tab, render_new_tab_html, render_table, replace_first,
    splash_script, Binding,
};
use buffr::order::{comes_before, insert_sorted};
use buffr::text::{
    after_prefix, chars_of, copy_texts, decimal, has_prefix, is_white_space, join, same_text,
    string_of, trim,
};

fn bind(keys: &str, action: &str) -> Binding {
    Binding { keys: keys.to_string(), action: action.to_string() }
}

#[test]
fn five_characters_are_escaped() {
    assert_eq!(html_escape("<a href=\"x\">'&'</a>"), "&lt;a href=&quot;x&quot;&gt;&#39;&amp;&#39;&lt;/a&gt;");
    assert_eq!(html_escape("plain — text"), "plain — text");
}

#[test]
fn bindings_are_grouped_and_sorted() {
    let table = render_table(&vec![
        bind("x", "TabClose"),
        bind("gg", "ScrollTop"),
        bind("<C-w>", "TabClose"),
    ]);
    assert_eq!(
        table,
        "<tr><td class=\"k\"><kbd>gg</kbd></td><td class=\"a\">ScrollTop</td></tr>\
         <tr><td class=\"k\"><kbd>&lt;C-w&gt;</kbd> <kbd>x</kbd></td><td class=\"a\">TabClose</td></tr>"
    );
    assert_eq!(
        render_table(&vec![]),
        "<tr><td class=\"empty\" colspan=\"2\">no bindings</td></tr>"
    );
}

#[test]
fn markers_are_replaced_once() {
    assert_eq!(replace_first("a-M-b-M-c", "M", "xx"), "a-xx-b-M-c");
    assert_eq!(replace_first("abc", "M", "xx"), "abc");
    assert_eq!(replace_first("", "M", "xx"), "");
    assert_eq!(replace_first("abc", "", "x"), "xabc");
    assert_eq!(replace_first("aab", "ab", "x"), "ax");
}

#[test]
fn the_page_is_the_filled_template() {
    let page = render_new_tab_html(&vec![], "<p>{ART}</p><t>{KEYS}</t>", "{KEYS}", "{ART}", "@@");
    assert_eq!(
        page,
        "<p>@@</p><t><tr><td class=\"empty\" colspan=\"2\">no bindings</td></tr></t>"
    );
}

#[test]
fn scripts_carry_their_text_as_json() {
    assert_eq!(
        splash_script("<b>\"x\"\\\n\u{1}\u{1f}é</b>"),
        "(()=>{const e=document.getElementById('buffr-splash');if(e)e.innerHTML=\
         \"<b>\\\"x\\\"\\\\\\n\\u0001\\u001fé</b>\";})()"
    );
    assert!(splash_script("\u{8}\t\u{c}\r\u{7f}/").contains("\"\\b\\t\\f\\r\u{7f}/\""));
}

#[test]
fn json_agrees_with_the_writer_on_every_character() {
    for n in 0..0x3000u32 {
        if let Some(c) = char::from_u32(n) {
            let s = c.to_string();
            let written = serde_json::to_string(&s).unwrap();
            assert!(splash_script(&s).contains(&format!("innerHTML={written};")));
        }
    }
}

#[test]
fn the_new_tab_page_is_known_by_its_beginning() {
    assert!(is_new_tab("buffr://new", "buffr://new"));
    assert!(is_new_tab("buffr://newtab", "buffr://new"));
    assert!(!is_new_tab("https://buffr://new", "buffr://new"));
}

#[test]
fn texts_have_an_order() {
    assert!(comes_before("", "a"));
    assert!(comes_before("a", "a"));
    assert!(comes_before("a", "ab"));
    assert!(!comes_before("ab", "a"));
    assert!(comes_before("Z", "a"));
    assert!(!comes_before("é", "z"));
    let words = ["", "a", "ab", "b", "B", "é", "z", "\u{10000}", "\u{ffff}"];
    for x in words {
        for y in words {
            assert_eq!(comes_before(x, y), x <= y);
        }
    }
}

#[test]
fn texts_are_inserted_in_order() {
    let mut v: Vec<String> = Vec::new();
    for s in ["b", "a", "c", "a"] {
        insert_sorted(&mut v, s.to_string());
    }
    assert_eq!(v, vec!["a", "a", "b", "c"]);
}

#[test]
fn white_space_is_the_same_everywhere() {
    for n in 0..=0x10ffffu32 {
        if let Some(c) = char::from_u32(n) {
            assert_eq!(is_white_space(c), c.is_whitespace());
        }
    }
}

#[test]
fn trimming_takes_white_space_from_both_ends() {
    for s in ["", " ", " a ", "a b", "\u{3000}x\u{a0}", "\n\tx\r\n"] {
        assert_eq!(trim(s), s.trim());
    }
}

#[test]
fn a_pasted_text_cannot_end_its_script() {
    assert_eq!(insert_script("ab"), "document.execCommand('insertText',false,\"ab\")");
    assert_eq!(
        insert_script("a\"\\\n"),
        "document.execCommand('insertText',false,\"a\\\"\\\\\\n\")"
    );
}

#[test]
fn small_text_tools() {
    assert_eq!(chars_of("aé"), vec!['a', 'é']);
    assert_eq!(string_of(&vec!['a', 'b', 'c'], 1, 3), "bc");
    assert!(same_text("a", "a") && !same_text("a", "b"));
    assert!(has_prefix("abc", "ab") && has_prefix("abc", "") && !has_prefix("ab", "abc"));
    assert_eq!(after_prefix("abc", "ab"), Some("c".to_string()));
    assert_eq!(after_prefix("abc", "b"), None);
    assert_eq!(join("/a", "b"), "/a/b");
    assert_eq!(join("", "b"), "b");
    assert_eq!(decimal(0), "0");
    assert_eq!(decimal(18_446_744_073_709_551_615), "18446744073709551615");
    assert_eq!(copy_texts(&vec!["x".to_string()]), vec!["x"]);
}

#[test]
fn fractions_are_rounded_and_cut() {
    assert_eq!(round_to_i32(65_536 + 32_768, 1), 2);
    assert_eq!(round_to_i32(-(65_536 + 32_768), 1), -2);
    assert_eq!(round_to_i32(65_536, 120), 120);
    assert_eq!(round_to_i32(i64::MAX, 120), i32::MAX);
    assert_eq!(round_to_i32(i64::MIN, 120), i32::MIN);
    assert_eq!(abs_i64(i64::MIN), 9_223_372_036_854_775_808);
    assert_eq!(abs_i128(i128::MIN), 1 << 127);
    assert_eq!((abs_i128(-7), abs_i128(7)), (7, 7));
    assert_eq!(add_cut(i128::MAX, 1), i128::MAX);
    assert_eq!(add_cut(i128::MIN, -1), i128::MIN);
    assert_eq!(add_cut(i128::MAX, -1), i128::MAX - 1);
    assert_eq!(add_cut(2, 3), 5);
    assert_eq!(times_cut(3, -4), -12);
    assert_eq!(times_cut(i64::MIN, i64::MIN), i64::MAX);
    assert_eq!(times_cut(i64::MAX, -2), i64::MIN);
}
