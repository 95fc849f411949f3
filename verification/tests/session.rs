//! Saved sessions.
use buffr::session::{default_path, default_version, filter_entries, Session, SCHEMA_VERSION};

#[test]
fn entries_yields_pinned_first() {
    let s = Session::from_tabs(&[
        ("https://a", false),
        ("https://b", true),
        ("https://c", false),
        ("https://d", true),
    ]);
    assert_eq!(
        s.entries(),
        vec![
            ("https://b", true),
            ("https://d", true),
            ("https://a", false),
            ("https://c", false),
        ]
    );
}

#[test]
fn filter_entries_rebases_active_across_dropped_entries() {
    let mut s = Session::from_tabs(&[
        ("https://a.example/", false),
        ("javascript:alert(1)", false),
        ("https://b.example/", false),
    ]);
    s.active = Some(2);
    let (kept, active) = filter_entries(s.entries(), s.active, |u: &str| {
        !matches!(u, "javascript:alert(1)")
    });
    assert_eq!(
        kept.iter().map(|(u, _)| *u).collect::<Vec<_>>(),
        vec!["https://a.example/", "https://b.example/"]
    );
    assert_eq!(active, Some(1), "active should land on b.example");
}

#[test]
fn filter_entries_drops_after_active_do_not_shift_it() {
    let mut s = Session::from_tabs(&[
        ("https://a.example/", false),
        ("https://b.example/", false),
        ("javascript:alert(1)", false),
    ]);
    s.active = Some(1);
    let (kept, active) =
        filter_entries(s.entries(), s.active, |u: &str| !u.starts_with("javascript:"));
    assert_eq!(kept.len(), 2);
    assert_eq!(active, Some(1), "drop after active is index-neutral");
}

#[test]
fn filter_entries_adjusted_index_out_of_range_becomes_none() {
    let mut s = Session::from_tabs(&[
        ("https://a.example/", false),
        ("javascript:alert(1)", false),
        ("https://b.example/", false),
        ("javascript:alert(2)", false),
    ]);
    s.active = Some(3);
    let (kept, active) =
        filter_entries(s.entries(), s.active, |u: &str| !u.starts_with("javascript:"));
    assert_eq!(kept.len(), 2);
    assert_eq!(active, None);
}

#[test]
fn tabs_are_split_by_pinning() {
    let s = Session::from_tabs(&[
        ("https://a.example", false),
        ("https://b.example", true),
        ("https://c.example", false),
        ("https://d.example", true),
    ]);
    assert_eq!(s.version, SCHEMA_VERSION);
    assert_eq!(s.pinned, vec!["https://b.example", "https://d.example"]);
    assert_eq!(s.tabs, vec!["https://a.example", "https://c.example"]);
    assert_eq!(s.active, None);
}

#[test]
fn the_active_tab_is_kept() {
    let s = Session::from_tabs_with_active(&[("https://a", false)], Some(0));
    assert_eq!(s.active, Some(0));
}

#[test]
fn the_default_session_is_empty_and_current() {
    let s = Session::default();
    assert!(s.is_current());
    assert!(s.entries().is_empty());
    assert_eq!(s.active, None);
    assert_eq!(default_version(), SCHEMA_VERSION);
}

#[test]
fn another_version_is_not_current() {
    let mut s = Session::default();
    s.version = 99;
    assert!(!s.is_current());
}

#[test]
fn saving_what_was_restored_changes_nothing() {
    let s = Session::from_tabs(&[("https://b", true), ("https://a", false)]);
    let again = Session::from_tabs(&s.entries());
    assert_eq!(again.pinned, s.pinned);
    assert_eq!(again.tabs, s.tabs);
}

#[test]
fn the_session_lies_in_the_data_directory() {
    assert_eq!(default_path("/home/u/data"), "/home/u/data/session.json");
    assert_eq!(default_path("/home/u/data/"), "/home/u/data/session.json");
}
