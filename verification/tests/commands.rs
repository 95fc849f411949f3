//! Commands, actions and suggestions.
use buffr::commands::{
    adjacent_tab_opened, apply_set, check_cross_engine_nav, counts_as_search, dispatch_action,
    dispatch_command, dispatch_omnibar, engine_opened, navigation_target, paste_candidate,
    paste_is_an_address, ActionInput, ActionStep, Command, CommandStep, InputKind,
    NavigationVerdict, OmnibarStep, PageAction, Zoom,
};
use buffr::edit_focus::{EditConsoleEvent, EditFocus, EditState};
use buffr::overlay::{FindStep, Overlay, OverlayKind};
use buffr::suggestions::{command_suggestions, omnibar_suggestions, PageRow, SuggestionKind};

fn input<'a>() -> ActionInput<'a> {
    ActionInput {
        has_engine: true,
        active_index: Some(3),
        pinned_count: 2,
        active_engine: "cef",
        engine_is_known: true,
        live_url: "https://a.example/",
        homepage: "https://home.example/",
    }
}

fn step_of(action: PageAction) -> ActionStep {
    let mut edit = EditState::new();
    dispatch_action(&action, &input(), &mut edit, 7)
}

#[test]
fn a_new_tab_opens_beside_the_active_one() {
    assert!(matches!(step_of(PageAction::TabNewRight), ActionStep::OpenTabAt(4)));
    assert!(matches!(step_of(PageAction::TabNewLeft), ActionStep::OpenTabAt(3)));
    let mut edit = EditState::new();
    let among_pinned = ActionInput { active_index: Some(0), ..input() };
    let step = dispatch_action(&PageAction::TabNewLeft, &among_pinned, &mut edit, 7);
    assert!(matches!(step, ActionStep::OpenTabAt(2)));
    let nothing_active = ActionInput { active_index: None, pinned_count: 0, ..input() };
    let step = dispatch_action(&PageAction::TabNewRight, &nothing_active, &mut edit, 7);
    assert!(matches!(step, ActionStep::OpenTabAt(1)));
}

#[test]
fn actions_lead_where_they_should() {
    assert!(matches!(step_of(PageAction::TabNew), ActionStep::OpenTab));
    assert!(matches!(step_of(PageAction::TabClose), ActionStep::CloseTab));
    assert!(matches!(step_of(PageAction::TabNext), ActionStep::NextTab));
    assert!(matches!(step_of(PageAction::TabPrev), ActionStep::PrevTab));
    assert!(matches!(step_of(PageAction::PinTab), ActionStep::TogglePin));
    assert!(matches!(step_of(PageAction::PasteUrl { after: true }), ActionStep::PasteAt(4)));
    assert!(matches!(step_of(PageAction::PasteUrl { after: false }), ActionStep::PasteAt(3)));
    assert!(matches!(step_of(PageAction::YankSelection), ActionStep::DispatchThenNormal));
    assert!(matches!(step_of(PageAction::OpenDevTools), ActionStep::DevTools));
    assert!(matches!(step_of(PageAction::ZoomIn), ActionStep::Zoom(Zoom::In)));
    assert!(matches!(step_of(PageAction::ZoomOut), ActionStep::Zoom(Zoom::Out)));
    assert!(matches!(step_of(PageAction::ZoomReset), ActionStep::Zoom(Zoom::Reset)));
    assert!(matches!(step_of(PageAction::Reload), ActionStep::Dispatch));
    assert!(matches!(step_of(PageAction::Other(9)), ActionStep::Dispatch));
}

#[test]
fn without_an_engine_nothing_happens() {
    let mut edit = EditState::new();
    let none = ActionInput { has_engine: false, ..input() };
    let step = dispatch_action(&PageAction::FocusFirstInput, &none, &mut edit, 7);
    assert!(matches!(step, ActionStep::Dropped));
    assert_eq!(edit.insert_intent_at, None);
}

#[test]
fn the_last_field_gets_the_caret_back() {
    let mut edit = EditState::new();
    let step = dispatch_action(&PageAction::FocusFirstInput, &input(), &mut edit, 7);
    assert!(matches!(step, ActionStep::Dispatch));
    assert_eq!(edit.insert_intent_at, Some(7));
    edit.report(EditConsoleEvent::Focus { field_id: "f".to_string() }, 8);
    let step = dispatch_action(&PageAction::FocusFirstInput, &input(), &mut edit, 9);
    assert!(matches!(step, ActionStep::FocusField(f) if f == "f"));
    let step = dispatch_action(&PageAction::ExitInsertMode, &input(), &mut edit, 10);
    assert!(matches!(step, ActionStep::DispatchThenNormal));
    assert!(matches!(edit.focus, EditFocus::Idle));
}

#[test]
fn a_page_moves_to_another_engine() {
    let mut edit = EditState::new();
    let to = |id: &str| PageAction::Engine(id.to_string());
    let step = dispatch_action(&to("webkit"), &input(), &mut edit, 7);
    assert!(matches!(step, ActionStep::OpenInEngine { engine, url }
        if engine == "webkit" && url == "https://a.example/"));
    let blank = ActionInput { live_url: "", ..input() };
    let step = dispatch_action(&to("webkit"), &blank, &mut edit, 7);
    assert!(matches!(step, ActionStep::OpenInEngine { url, .. } if url == "https://home.example/"));
    assert!(matches!(dispatch_action(&to("cef"), &input(), &mut edit, 7), ActionStep::Nothing));
    let unknown = ActionInput { engine_is_known: false, ..input() };
    assert!(matches!(dispatch_action(&to("x"), &unknown, &mut edit, 7), ActionStep::Nothing));
    let mut active = "cef".to_string();
    assert!(!engine_opened(&mut active, "webkit", false));
    assert_eq!(active, "cef");
    assert!(engine_opened(&mut active, "webkit", true));
    assert_eq!(active, "webkit");
}

#[test]
fn a_navigation_may_change_the_engine() {
    let cross = || Some(NavigationVerdict::CrossEngine { target: "webkit".to_string() });
    assert_eq!(check_cross_engine_nav(cross(), "https://a", true), Some("webkit".to_string()));
    assert_eq!(check_cross_engine_nav(cross(), "", true), None);
    assert_eq!(check_cross_engine_nav(cross(), "https://a", false), None);
    assert_eq!(check_cross_engine_nav(None, "https://a", true), None);
    assert_eq!(
        check_cross_engine_nav(Some(NavigationVerdict::SameEngine), "https://a", true),
        None
    );
    assert_eq!(
        check_cross_engine_nav(Some(NavigationVerdict::DisallowedScheme), "x:", true),
        None
    );
}

#[test]
fn only_addresses_are_pasted() {
    assert_eq!(paste_candidate(Some("  https://a \n")), Some("https://a".to_string()));
    assert_eq!(paste_candidate(Some(" \n")), None);
    assert_eq!(paste_candidate(None), None);
    assert!(paste_is_an_address(InputKind::Url));
    assert!(paste_is_an_address(InputKind::Host));
    assert!(!paste_is_an_address(InputKind::Search));
    assert!(counts_as_search(InputKind::Search));
    assert!(!counts_as_search(InputKind::Url));
}

#[test]
fn an_opened_tab_brings_the_omnibar() {
    let mut o = Overlay::new(None, None);
    adjacent_tab_opened(&mut o, 12, 5);
    assert_eq!(o.kind, Some(OverlayKind::Omnibar));
    assert_eq!(o.cancel_closes_tab, Some(12));
}

#[test]
fn only_zoom_can_be_set() {
    assert!(matches!(apply_set("zoom", "in"), Some(PageAction::ZoomIn)));
    assert!(matches!(apply_set("zoom", "out"), Some(PageAction::ZoomOut)));
    assert!(matches!(apply_set("zoom", "reset"), Some(PageAction::ZoomReset)));
    assert!(matches!(apply_set("zoom", "0"), Some(PageAction::ZoomReset)));
    assert!(apply_set("zoom", "1").is_none());
    assert!(apply_set("theme", "in").is_none());
}

#[test]
fn commands_lead_where_they_should() {
    let mut o = Overlay::new(None, None);
    let mut run = |c: Command| dispatch_command(&mut o, c, "https://a", true);
    assert!(matches!(run(Command::Quit), CommandStep::CloseTab));
    assert!(matches!(run(Command::Reload), CommandStep::Action(PageAction::Reload)));
    assert!(matches!(run(Command::Back), CommandStep::Action(PageAction::HistoryBack)));
    assert!(matches!(run(Command::Forward), CommandStep::Action(PageAction::HistoryForward)));
    assert!(matches!(run(Command::DevTools), CommandStep::Action(PageAction::OpenDevTools)));
    assert!(matches!(run(Command::TabNew), CommandStep::OpenTab));
    assert!(matches!(run(Command::Unknown("x".to_string())), CommandStep::Nothing));
    assert!(matches!(run(Command::Open("b".to_string())), CommandStep::Open(t) if t == "b"));
    assert!(matches!(
        run(Command::Engine("webkit".to_string())),
        CommandStep::Action(PageAction::Engine(t)) if t == "webkit"
    ));
    let set = Command::Assign { key: "zoom".to_string(), value: "in".to_string() };
    assert!(matches!(run(set), CommandStep::Action(PageAction::ZoomIn)));
    let tags = vec!["t".to_string()];
    assert!(matches!(run(Command::Bookmark { tags }), CommandStep::Bookmark { url, tags }
        if url == "https://a" && tags == vec!["t".to_string()]));
    let found = run(Command::Find("cat".to_string()));
    assert!(matches!(found, CommandStep::Find(FindStep::Start { query, forward: true })
        if query == "cat"));
    assert_eq!(o.find_query.as_ref().unwrap().query, "cat");
}

#[test]
fn some_commands_need_a_page_or_an_engine() {
    let mut o = Overlay::new(None, None);
    let bookmark = Command::Bookmark { tags: vec![] };
    assert!(matches!(dispatch_command(&mut o, bookmark, "", true), CommandStep::Nothing));
    let find = Command::Find("cat".to_string());
    assert!(matches!(dispatch_command(&mut o, find, "u", false), CommandStep::Nothing));
    assert!(o.find_query.is_none());
    assert!(matches!(dispatch_command(&mut o, Command::TabNew, "u", false), CommandStep::Nothing));
    assert_eq!(navigation_target("u".to_string(), true), Some("u".to_string()));
    assert_eq!(navigation_target("u".to_string(), false), None);
    assert_eq!(navigation_target(String::new(), true), None);
}

#[test]
fn a_selected_suggestion_is_an_address() {
    assert!(matches!(dispatch_omnibar("", true), OmnibarStep::Nothing));
    assert!(matches!(dispatch_omnibar("https://a", true), OmnibarStep::Navigate(t) if t == "https://a"));
    assert!(matches!(dispatch_omnibar("cats", false), OmnibarStep::Resolve(t) if t == "cats"));
}

#[test]
fn commands_are_suggested_by_their_beginning() {
    let names = vec!["quit", "reload", "back", "forward", "find"];
    let shown = |buffer: &str, max: usize| -> Vec<String> {
        command_suggestions(&names, buffer, max).into_iter().map(|s| s.display).collect()
    };
    assert_eq!(shown(" f ", 8), vec![":forward", ":find"]);
    assert_eq!(shown("", 2), vec![":quit", ":reload"]);
    assert!(shown("x", 8).is_empty());
    let s = &command_suggestions(&names, "q", 8)[0];
    assert_eq!((s.value.as_str(), s.kind), ("quit", SuggestionKind::Command));
}

fn row(url: &str, title: Option<&str>) -> PageRow {
    PageRow { url: url.to_string(), title: title.map(|t| t.to_string()) }
}

#[test]
fn pages_are_suggested_once_and_in_order() {
    let history = vec![row("u1", Some("One")), row("u2", None), row("u1", None)];
    let bookmarks = vec![row("u2", Some("Two")), row("u3", Some(""))];
    let list = omnibar_suggestions(" cats ", &history, &bookmarks, "https://s?q=cats", 8);
    let shown: Vec<(&str, &str, SuggestionKind)> =
        list.iter().map(|s| (s.display.as_str(), s.value.as_str(), s.kind)).collect();
    assert_eq!(
        shown,
        vec![
            ("One — u1", "u1", SuggestionKind::History),
            ("u2", "u2", SuggestionKind::History),
            ("u3", "u3", SuggestionKind::Bookmark),
            ("Search: cats", "https://s?q=cats", SuggestionKind::SearchSuggestion),
        ]
    );
}

#[test]
fn suggestions_fit() {
    let history: Vec<PageRow> = (0..8).map(|i| row(&format!("h{i}"), None)).collect();
    let bookmarks: Vec<PageRow> = (0..12).map(|i| row(&format!("b{i}"), None)).collect();
    assert_eq!(omnibar_suggestions("x", &history, &bookmarks, "s", 8).len(), 8);
    // Eight of each store, then the search.
    let all = omnibar_suggestions("x", &history, &bookmarks, "s", 50);
    assert_eq!(all.len(), 17);
    assert_eq!(all[15].value, "b7");
    assert!(omnibar_suggestions("  ", &history, &bookmarks, "s", 8).is_empty());
    assert_eq!(omnibar_suggestions("x", &vec![], &vec![], "", 8).len(), 0);
}
