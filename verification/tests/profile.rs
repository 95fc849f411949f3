//! Profiles, start-up, and what is wiped.
use buffr::profile::{
    build_palette, clear_dir_path, private_paths, private_prefix, run_clear_on_exit,
    update_indicator_from, ClearableData, Palette, Theme, UpdateIndicator, UpdateStatus,
};
use buffr::startup::{
    is_subprocess, is_wayland_session, plan_startup, requested_tabs, restores_session,
    same_ignoring_case, uses_cef, validate_engine, StartupFlags,
};
use buffr::wayland_globals::{BindState, GlobalBind};

#[test]
fn clear_dir_path_cache_and_local_storage_under_data_not_cache() {
    assert_eq!(
        clear_dir_path("/tmp/data-root", ClearableData::Cache),
        Some("/tmp/data-root/Cache".to_string())
    );
    assert_eq!(
        clear_dir_path("/tmp/data-root", ClearableData::LocalStorage),
        Some("/tmp/data-root/Local Storage".to_string())
    );
}

#[test]
fn clear_dir_path_other_variants_route_elsewhere() {
    for item in [
        ClearableData::Cookies,
        ClearableData::History,
        ClearableData::Bookmarks,
        ClearableData::Downloads,
    ] {
        assert_eq!(clear_dir_path("/tmp/data-root", item), None);
    }
}

#[test]
fn everything_is_wiped_once() {
    let items = vec![
        ClearableData::History,
        ClearableData::Cache,
        ClearableData::History,
        ClearableData::Cookies,
        ClearableData::Cache,
    ];
    let steps = run_clear_on_exit(&items, "/d", false);
    let order: Vec<ClearableData> = steps.iter().map(|s| s.item).collect();
    assert_eq!(
        order,
        vec![ClearableData::History, ClearableData::Cache, ClearableData::Cookies]
    );
    assert_eq!(steps[1].dir.as_deref(), Some("/d/Cache"));
    assert_eq!(steps[0].dir, None);
    assert!(run_clear_on_exit(&items, "/d", true).is_empty());
    assert!(run_clear_on_exit(&vec![], "/d", false).is_empty());
}

#[test]
fn private_profiles_have_their_own_root() {
    assert_eq!(private_prefix(42), "buffr-private-42-");
    assert_ne!(private_prefix(4), private_prefix(42));
    let p = private_paths("/tmp/buffr-private-42-x");
    assert_eq!(p.cache, "/tmp/buffr-private-42-x/cache");
    assert_eq!(p.data, "/tmp/buffr-private-42-x/data");
}

#[test]
fn updates_show_when_there_is_something_to_say() {
    assert_eq!(update_indicator_from(UpdateStatus::Available), Some(UpdateIndicator::Available));
    assert_eq!(update_indicator_from(UpdateStatus::Stale), Some(UpdateIndicator::Stale));
    assert_eq!(update_indicator_from(UpdateStatus::Quiet), None);
}

#[test]
fn a_palette_falls_back_colour_by_colour() {
    let default = Palette {
        accent: 1,
        cert_secure: 2,
        cert_insecure: 3,
        private: 4,
        progress: 5,
        update: 6,
    };
    let contrast = Palette { accent: 0xffffff, ..default };
    let mut theme = Theme {
        high_contrast: false,
        accent: Some(10),
        cert_secure: None,
        cert_insecure: Some(30),
        private: None,
        progress: Some(50),
        update: None,
    };
    assert_eq!(
        build_palette(&theme, &default, &contrast),
        Palette {
            accent: 10,
            cert_secure: 2,
            cert_insecure: 30,
            private: 4,
            progress: 50,
            update: 6
        }
    );
    theme.high_contrast = true;
    assert_eq!(build_palette(&theme, &default, &contrast), contrast);
}

fn flags() -> StartupFlags {
    StartupFlags {
        private: false,
        no_restore: false,
        restore_session: true,
        show_favicons: true,
        enable_telemetry: true,
        crash_reporter: true,
    }
}

#[test]
fn a_private_launch_keeps_nothing() {
    let p = plan_startup(StartupFlags { private: true, ..flags() });
    assert!(p.in_memory_stores);
    assert!(!p.session_file && !p.crash_guard && !p.favicon_cache);
    assert!(!p.telemetry && !p.crash_reporter && !p.single_instance && !p.clear_on_exit);
    let p = plan_startup(flags());
    assert!(!p.in_memory_stores && p.session_file && p.favicon_cache && p.telemetry);
    let p = plan_startup(StartupFlags { show_favicons: false, ..flags() });
    assert!(!p.favicon_cache);
}

#[test]
fn the_session_is_restored_only_when_it_is_safe() {
    assert!(restores_session(flags(), false));
    assert!(!restores_session(flags(), true));
    assert!(!restores_session(StartupFlags { private: true, ..flags() }, false));
    assert!(!restores_session(StartupFlags { no_restore: true, ..flags() }, false));
    assert!(!restores_session(StartupFlags { restore_session: false, ..flags() }, false));
}

#[test]
fn requested_tabs_keep_their_order() {
    let urls = vec!["a".to_string(), "b".to_string()];
    let new_tab = vec!["c".to_string()];
    assert_eq!(requested_tabs(&urls, &new_tab), vec!["a", "b", "c"]);
}

#[test]
fn workers_are_told_by_their_type() {
    let args = |v: &[&str]| -> Vec<String> { v.iter().map(|s| s.to_string()).collect() };
    assert!(is_subprocess(&args(&["buffr", "--type=renderer"])));
    assert!(!is_subprocess(&args(&["buffr", "--types", "x--type=y"])));
}

#[test]
fn engines_and_sessions_are_checked() {
    assert!(validate_engine("cef").is_ok());
    assert_eq!(
        validate_engine("gecko").unwrap_err(),
        "--engine gecko: unknown backend. Valid values: cef"
    );
    assert!(is_wayland_session("Wayland"));
    assert!(!is_wayland_session("x11"));
    assert!(!is_wayland_session(""));
    assert!(uses_cef(None) && uses_cef(Some("CEF")) && !uses_cef(Some("webkit")));
    assert!(same_ignoring_case("AbC", "aBc"));
    assert!(!same_ignoring_case("É", "é"));
}

#[test]
fn globals_are_bound_once_and_capped() {
    let mut s = BindState::new();
    assert_eq!(s.on_global("wl_compositor", 6), GlobalBind::Compositor(4));
    assert_eq!(s.on_global("wl_compositor", 3), GlobalBind::Compositor(3));
    assert_eq!(s.on_global("wl_subcompositor", 5), GlobalBind::Subcompositor(1));
    assert_eq!(s.on_global("wl_shm", 1), GlobalBind::Ignore);
    s.bound(GlobalBind::Compositor(4), false);
    assert!(!s.compositor);
    s.bound(GlobalBind::Compositor(4), true);
    assert!(s.compositor && !s.subcompositor);
    assert_eq!(s.on_global("wl_compositor", 6), GlobalBind::Ignore);
    s.bound(GlobalBind::Subcompositor(1), true);
    assert_eq!(s.on_global("wl_subcompositor", 1), GlobalBind::Ignore);
}
