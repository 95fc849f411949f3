//! What a launch opens, restores and refuses.
use vstd::prelude::*;
use vstd::string::*;
use crate::keys;
use crate::keys::to_ascii_lower;
use crate::text;
use crate::text::{chars_of, copy_texts, has_prefix, same_text};

verus! {

/// Whether two texts are the same but for the case of ASCII letters.
pub open spec fn same_but_case(a: Seq<char>, b: Seq<char>) -> bool {
    &&& a.len() == b.len()
    &&& forall|i: int|
        0 <= i < a.len() ==> keys::ascii_lower(#[trigger] a[i]) == keys::ascii_lower(b[i])
}

/// Whether two texts are the same but for the case of ASCII letters.
pub fn same_ignoring_case(a: &str, b: &str) -> (r: bool)
    ensures
        r == same_but_case(a@, b@),
{
    let x = chars_of(a);
    let y = chars_of(b);
    if x.len() != y.len() {
        return false;
    }
    let mut i: usize = 0;
    while i < x.len()
        invariant
            i <= x.len(),
            x.len() == y.len(),
            x@ == a@,
            y@ == b@,
            forall|k: int|
                0 <= k < i ==> keys::ascii_lower(#[trigger] a@[k]) == keys::ascii_lower(b@[k]),
        decreases x.len() - i,
    {
        let c = to_ascii_lower(x[i]);
        let d = to_ascii_lower(y[i]);
        if c != d {
            proof {
                assert(keys::ascii_lower(a@[i as int]) != keys::ascii_lower(b@[i as int]));
            }
            return false;
        }
        i += 1;
    }
    true
}

/// Whether the arguments are those of a worker process that the engine starts.
pub open spec fn worker_args(args: Seq<Seq<char>>) -> bool {
    exists|i: int| 0 <= i < args.len() && "--type="@.is_prefix_of(#[trigger] args[i])
}

/// Whether the program was started as a worker process of the engine.
pub fn is_subprocess(args: &Vec<String>) -> (r: bool)
    ensures
        r == worker_args(text::texts(args@)),
{
    let mut i: usize = 0;
    while i < args.len()
        invariant
            i <= args.len(),
            forall|k: int|
                0 <= k < i ==> !("--type="@.is_prefix_of(#[trigger] text::texts(args@)[k])),
        decreases args.len() - i,
    {
        if has_prefix(args[i].as_str(), "--type=") {
            proof {
                assert("--type="@.is_prefix_of(text::texts(args@)[i as int]));
            }
            return true;
        }
        i += 1;
    }
    false
}

/// Whether a session is one that the browser runs in.
pub fn is_wayland_session(session_type: &str) -> (r: bool)
    ensures
        r == same_but_case(session_type@, "wayland"@),
{
    same_ignoring_case(session_type, "wayland")
}

/// Why an engine cannot be asked for, if it cannot.
pub open spec fn engine_refusal(chosen: Seq<char>) -> Option<Seq<char>> {
    if chosen == "cef"@ {
        None
    } else {
        Some("--engine "@ + chosen + ": unknown backend. Valid values: cef"@)
    }
}

/// Whether an engine, its name in lower case, can be asked for.
pub fn validate_engine(chosen: &str) -> (r: Result<(), String>)
    ensures
        match r {
            Ok(_) => engine_refusal(chosen@) is None,
            Err(m) => engine_refusal(chosen@) == Some(m@),
        },
{
    if same_text(chosen, "cef") {
        return Ok(());
    }
    let mut m = "--engine ".to_string();
    m.append(chosen);
    m.append(": unknown backend. Valid values: cef");
    Err(m)
}

/// Whether the engine that needs initialising before the others is used.
pub open spec fn needs_cef(engine: Option<Seq<char>>) -> bool {
    match engine {
        Some(e) => same_but_case(e, "cef"@),
        None => true,
    }
}

/// Whether the engine that needs initialising before the others is used; `None`
/// asks for none in particular.
pub fn uses_cef(engine: Option<&str>) -> (r: bool)
    ensures
        r == needs_cef(
            match engine {
                Some(e) => Some(e@),
                None => None,
            },
        ),
{
    match engine {
        Some(e) => same_ignoring_case(e, "cef"),
        None => true,
    }
}

/// What was asked for on the command line and in the configuration.
#[derive(Debug, Clone, Copy, PartialEq, Eq, Structural)]
pub struct StartupFlags {
    pub private: bool,
    pub no_restore: bool,
    pub restore_session: bool,
    pub show_favicons: bool,
    pub enable_telemetry: bool,
    pub crash_reporter: bool,
}

/// What a launch uses.
#[derive(Debug, Clone, Copy, PartialEq, Eq, Structural)]
pub struct StartupPlan {
    /// Only one process may own the profile.
    pub single_instance: bool,
    /// Histories, bookmarks and the like are kept in memory.
    pub in_memory_stores: bool,
    pub session_file: bool,
    pub crash_guard: bool,
    pub favicon_cache: bool,
    pub telemetry: bool,
    pub crash_reporter: bool,
    /// What was to be wiped is wiped on exit.
    pub clear_on_exit: bool,
}

/// What a launch uses: a private one keeps nothing.
pub open spec fn startup_plan(f: StartupFlags) -> StartupPlan {
    StartupPlan {
        single_instance: !f.private,
        in_memory_stores: f.private,
        session_file: !f.private,
        crash_guard: !f.private,
        favicon_cache: !f.private && f.show_favicons,
        telemetry: !f.private && f.enable_telemetry,
        crash_reporter: !f.private && f.crash_reporter,
        clear_on_exit: !f.private,
    }
}

/// What a launch uses.
pub fn plan_startup(f: StartupFlags) -> (r: StartupPlan)
    ensures
        r == startup_plan(f),
{
    let keep = !f.private;
    StartupPlan {
        single_instance: keep,
        in_memory_stores: f.private,
        session_file: keep,
        crash_guard: keep,
        favicon_cache: keep && f.show_favicons,
        telemetry: keep && f.enable_telemetry,
        crash_reporter: keep && f.crash_reporter,
        clear_on_exit: keep,
    }
}

/// Whether the saved session is read.
pub open spec fn reads_session(f: StartupFlags, crash_loop: bool) -> bool {
    !f.private && !f.no_restore && f.restore_session && !crash_loop
}

/// The pages asked for on the command line.
pub open spec fn requested(urls: Seq<Seq<char>>, new_tab: Seq<Seq<char>>) -> Seq<Seq<char>> {
    urls + new_tab
}

/// Whether the saved session is read. After a crash loop it is not, so that a
/// page that kills the browser is not opened again.
pub fn restores_session(f: StartupFlags, crash_loop: bool) -> (r: bool)
    ensures
        r == reads_session(f, crash_loop),
{
    !f.private && !f.no_restore && f.restore_session && !crash_loop
}

/// The pages asked for on the command line: those given as they are, then those
/// given as new tabs.
pub fn requested_tabs(urls: &Vec<String>, new_tab: &Vec<String>) -> (r: Vec<String>)
    ensures
        text::texts(r@) == requested(text::texts(urls@), text::texts(new_tab@)),
{
    let mut out = copy_texts(urls);
    let mut more = copy_texts(new_tab);
    let ghost a = out@;
    let ghost b = more@;
    out.append(&mut more);
    proof {
        assert(text::texts(out@) =~= text::texts(a) + text::texts(b));
    }
    out
}

/// Law: a private launch keeps nothing on disk, restores nothing and talks to no
/// other process.
pub proof fn law_private_launch_keeps_nothing(f: StartupFlags)
    requires
        f.private,
    ensures
        ({
            let p = startup_plan(f);
            &&& p.in_memory_stores
            &&& !p.single_instance && !p.session_file && !p.crash_guard && !p.favicon_cache
            &&& !p.telemetry && !p.crash_reporter
        }),
{
}

/// Law: what a launch that is not private uses: it keeps its stores, its session and
/// its crash guard on disk, owns its profile alone, wipes what was asked for on exit,
/// and uses the favicon cache, telemetry and crash reports exactly as configured.
pub proof fn law_ordinary_launch_keeps_its_profile(f: StartupFlags)
    requires
        !f.private,
    ensures
        ({
            let p = startup_plan(f);
            &&& !p.in_memory_stores
            &&& p.single_instance && p.session_file && p.crash_guard && p.clear_on_exit
            &&& p.favicon_cache == f.show_favicons
            &&& p.telemetry == f.enable_telemetry
            &&& p.crash_reporter == f.crash_reporter
        }),
{
}

/// Law: the session is restored where that is configured, and not in a private
/// window, nor where it was forbidden, nor after a crash loop.
pub proof fn law_session_is_restored_when_configured(f: StartupFlags, crash_loop: bool)
    ensures
        reads_session(f, crash_loop) ==> f.restore_session,
        f.private || f.no_restore || crash_loop ==> !reads_session(f, crash_loop),
        f.restore_session && !f.private && !f.no_restore && !crash_loop ==> reads_session(
            f,
            crash_loop,
        ),
{
}

/// Law: every page asked for is opened, those given as they are before those given
/// as new tabs, each in its order.
pub proof fn law_requested_pages_keep_their_order(
    urls: Seq<Seq<char>>,
    new_tab: Seq<Seq<char>>,
    i: int,
)
    ensures
        requested(urls, new_tab).len() == urls.len() + new_tab.len(),
        0 <= i < urls.len() ==> requested(urls, new_tab)[i] == urls[i],
        0 <= i < new_tab.len() ==> requested(urls, new_tab)[urls.len() + i] == new_tab[i],
{
}

/// Law: an engine is refused exactly where its name is not a known one, and the
/// refusal names it.
pub proof fn law_unknown_engines_are_refused(chosen: Seq<char>)
    ensures
        engine_refusal(chosen) is None <==> chosen == "cef"@,
        engine_refusal(chosen) matches Some(m) ==> "--engine "@.is_prefix_of(m) && m.subrange(
            "--engine "@.len() as int,
            "--engine "@.len() as int + chosen.len(),
        ) == chosen,
        needs_cef(None),
        needs_cef(Some("cef"@)),
{
    let m = "--engine "@ + chosen + ": unknown backend. Valid values: cef"@;
    assert(m.subrange(0, "--engine "@.len() as int) =~= "--engine "@);
    assert(m.subrange("--engine "@.len() as int, "--engine "@.len() as int + chosen.len()) =~= chosen);
}

/// Law: the case of letters plays no part in a comparison, and nothing else is
/// passed over.
pub proof fn law_only_the_case_is_passed_over(a: Seq<char>, b: Seq<char>)
    ensures
        same_but_case(a, a),
        same_but_case(a, b) == same_but_case(b, a),
        a.len() != b.len() ==> !same_but_case(a, b),
        same_but_case(a, b) ==> forall|i: int|
            0 <= i < a.len() ==> #[trigger] a[i] == b[i] || a[i] as int == b[i] as int + 32 || b[i]
                as int == a[i] as int + 32,
{
    if same_but_case(a, b) {
        assert forall|i: int| 0 <= i < a.len() implies keys::ascii_lower(#[trigger] b[i])
            == keys::ascii_lower(a[i]) by {
            assert(keys::ascii_lower(a[i]) == keys::ascii_lower(b[i]));
        }
    }
    if same_but_case(b, a) {
        assert forall|i: int| 0 <= i < a.len() implies keys::ascii_lower(#[trigger] a[i])
            == keys::ascii_lower(b[i]) by {
            assert(keys::ascii_lower(b[i]) == keys::ascii_lower(a[i]));
        }
    }
    if same_but_case(a, b) {
        assert forall|i: int| 0 <= i < a.len() implies #[trigger] a[i] == b[i] || a[i] as int
            == b[i] as int + 32 || b[i] as int == a[i] as int + 32 by {
            keys::law_only_capitals_become_small(a[i]);
            keys::law_only_capitals_become_small(b[i]);
            assert(keys::ascii_lower(a[i]) == keys::ascii_lower(b[i]));
        }
    }
}

/// Law: a process is one of the engine's workers exactly where some argument says
/// its kind, wherever it stands.
pub proof fn law_workers_are_told_by_an_argument(args: Seq<Seq<char>>, i: int)
    ensures
        0 <= i < args.len() && "--type="@.is_prefix_of(args[i]) ==> worker_args(args),
        (forall|k: int| 0 <= k < args.len() ==> !"--type="@.is_prefix_of(#[trigger] args[k]))
            ==> !worker_args(args),
{
}

} // verus!
