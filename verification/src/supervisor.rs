//! The watchdog around the browser process: when to restart it, and when to
//! stop trying.
use vstd::prelude::*;
use vstd::string::*;
use crate::text;
use crate::text::join;

verus! {

/// How far back crashes and hangs count.
pub const CRASH_WINDOW: u64 = 30_000_000_000;

/// So many of them within the window, and the browser is not restarted.
pub const CRASH_LIMIT: usize = 3;

/// Before a restart.
pub const RESTART_COOLDOWN: u64 = 250_000_000;

/// Between the polite and the firm request to end.
pub const GRACEFUL_TIMEOUT: u64 = 5_000_000_000;

/// How the browser process ended.
#[derive(Debug, Clone, Copy, PartialEq, Eq, Structural)]
pub enum ChildEnd {
    /// With this code, or by a signal.
    Exited(Option<i32>),
    /// It stopped answering and was killed.
    Hung,
}

/// What the watchdog does.
#[derive(Debug, Clone, Copy, PartialEq, Eq, Structural)]
pub enum SupervisorStep {
    /// The browser ended on purpose: end too.
    Done,
    /// Start it again after [`RESTART_COOLDOWN`].
    Restart,
    /// It failed too often: end with a failure.
    Refuse,
}

/// The moments that are no further back than the window.
pub open spec fn recent(times: Seq<u64>, now: u64) -> Seq<u64>
    decreases times.len(),
{
    if times.len() == 0 {
        Seq::empty()
    } else {
        let rest = recent(times.drop_last(), now);
        if now - times.last() <= CRASH_WINDOW { rest.push(times.last()) } else { rest }
    }
}

/// Whether the browser ended on purpose: with success, after saying that it is
/// about to, or because the watchdog itself was asked to end.
pub open spec fn intentional(end: ChildEnd, shutdown_requested: bool, clean_flag: bool) -> bool {
    ||| end == ChildEnd::Exited(Some(0i32))
    ||| end != ChildEnd::Hung && clean_flag
    ||| shutdown_requested
}

/// The failures that count, and what the watchdog does, after the browser ended.
pub open spec fn ended(
    times: Seq<u64>,
    end: ChildEnd,
    shutdown_requested: bool,
    clean_flag: bool,
    now: u64,
) -> (Seq<u64>, SupervisorStep) {
    if intentional(end, shutdown_requested, clean_flag) {
        (times, SupervisorStep::Done)
    } else {
        let failures = recent(times.push(now), now);
        (
            failures,
            if failures.len() >= CRASH_LIMIT {
                SupervisorStep::Refuse
            } else {
                SupervisorStep::Restart
            },
        )
    }
}

/// The watchdog's memory: when the browser failed lately.
pub struct Supervisor {
    pub crash_times: Vec<u64>,
}

impl Supervisor {
    /// Nothing has failed yet.
    pub fn new() -> (r: Self)
        ensures
            r.crash_times@.len() == 0,
    {
        Supervisor { crash_times: Vec::new() }
    }

    /// The browser process ended.
    pub fn run_supervisor(
        &mut self,
        end: ChildEnd,
        shutdown_requested: bool,
        clean_flag: bool,
        now: u64,
    ) -> (step: SupervisorStep)
        ensures
            (final(self).crash_times@, step) == ended(
                old(self).crash_times@,
                end,
                shutdown_requested,
                clean_flag,
                now,
            ),
    {
        let clean = match end {
            ChildEnd::Exited(Some(code)) => code == 0 || clean_flag,
            ChildEnd::Exited(None) => clean_flag,
            ChildEnd::Hung => false,
        };
        if clean || shutdown_requested {
            return SupervisorStep::Done;
        }
        self.crash_times.push(now);
        let ghost all = self.crash_times@;
        let mut kept: Vec<u64> = Vec::new();
        let mut i: usize = 0;
        proof {
            assert(all.take(0) =~= Seq::empty());
        }
        while i < self.crash_times.len()
            invariant
                all == self.crash_times@,
                i <= all.len(),
                kept@ == recent(all.take(i as int), now),
            decreases self.crash_times.len() - i,
        {
            let t: u64 = self.crash_times[i];
            proof {
                let p = all.take(i as int + 1);
                assert(p.drop_last() =~= all.take(i as int));
                assert(p.last() == t);
            }
            if t >= now || now - t <= CRASH_WINDOW {
                kept.push(t);
            }
            i = i + 1;
        }
        proof {
            assert(all.take(all.len() as int) =~= all);
        }
        self.crash_times = kept;
        if self.crash_times.len() >= CRASH_LIMIT {
            SupervisorStep::Refuse
        } else {
            SupervisorStep::Restart
        }
    }
}

/// Law: three failures within the window, and only the third, stop the
/// restarts.
pub proof fn law_third_failure_in_the_window_refuses(t1: u64, t2: u64, t3: u64)
    requires
        t1 <= t2 <= t3,
    ensures
        ({
            let one = recent(seq![t1], t1);
            let two = recent(one.push(t2), t2);
            let three = recent(two.push(t3), t3);
            &&& one.len() < CRASH_LIMIT
            &&& two.len() < CRASH_LIMIT
            &&& (three.len() >= CRASH_LIMIT <==> t3 - t1 <= CRASH_WINDOW)
        }),
{
    reveal_with_fuel(recent, 4);
    let one = recent(seq![t1], t1);
    assert(seq![t1].drop_last() =~= Seq::empty());
    assert(one =~= seq![t1]);
    let a = one.push(t2);
    assert(a.drop_last() =~= seq![t1]);
    let two = recent(a, t2);
    if t2 - t1 <= CRASH_WINDOW {
        assert(two =~= seq![t1, t2]);
        let b = two.push(t3);
        assert(b.drop_last() =~= seq![t1, t2]);
        assert(b.drop_last().drop_last() =~= seq![t1]);
        assert(b.drop_last().drop_last().drop_last() =~= Seq::empty());
    } else {
        assert(two =~= seq![t2]);
        let b = two.push(t3);
        assert(b.drop_last() =~= seq![t2]);
        assert(b.drop_last().drop_last() =~= Seq::empty());
    }
}

/// Whether the browser hangs.
pub open spec fn silent_too_long(last_ping: Option<u64>, timeout: u64, now: u64) -> bool {
    last_ping matches Some(t) && now - t >= timeout
}

/// Whether the browser hangs: it has answered once, and then not for as long as
/// it may be silent.
pub fn is_hung(last_ping: Option<u64>, timeout: u64, now: u64) -> (r: bool)
    ensures
        r == silent_too_long(last_ping, timeout, now),
{
    match last_ping {
        Some(t) => now >= t && now - t >= timeout,
        None => false,
    }
}

/// What to do while the browser is asked to end.
#[derive(Debug, Clone, Copy, PartialEq, Eq, Structural)]
pub enum KillStep {
    /// It is gone.
    Gone,
    /// It had its time: kill it.
    Kill,
    /// Look again later.
    Wait,
}

/// What to do with a process that was asked to end before `deadline`.
pub open spec fn kill_verdict(gone: bool, now: u64, deadline: u64) -> KillStep {
    if gone {
        KillStep::Gone
    } else if now >= deadline {
        KillStep::Kill
    } else {
        KillStep::Wait
    }
}

/// Judge a process that was asked to end before `deadline`.
pub fn kill_step(gone: bool, now: u64, deadline: u64) -> (r: KillStep)
    ensures
        r == kill_verdict(gone, now, deadline),
{
    if gone {
        KillStep::Gone
    } else if now >= deadline {
        KillStep::Kill
    } else {
        KillStep::Wait
    }
}

/// Where the browser may be, best first: next to the watchdog, then in each
/// directory of the search path.
pub open spec fn candidates(exe_dir: Option<Seq<char>>, path_dirs: Seq<Seq<char>>) -> Seq<
    Seq<char>,
> {
    (match exe_dir {
        Some(d) => seq![text::joined(d, "buffr"@)],
        None => Seq::empty(),
    }) + path_dirs.map_values(|d: Seq<char>| text::joined(d, "buffr"@))
}

/// Where the browser may be, best first.
pub fn child_candidates(exe_dir: &Option<String>, path_dirs: &Vec<String>) -> (r: Vec<String>)
    ensures
        text::texts(r@) == candidates(
            match exe_dir {
                Some(d) => Some(d@),
                None => None,
            },
            text::texts(path_dirs@),
        ),
{
    let mut out: Vec<String> = Vec::new();
    let ghost first: Seq<Seq<char>> = match exe_dir {
        Some(d) => seq![text::joined(d@, "buffr"@)],
        None => Seq::empty(),
    };
    let ghost rest = text::texts(path_dirs@).map_values(|d: Seq<char>| text::joined(d, "buffr"@));
    if let Some(d) = exe_dir {
        out.push(join(d.as_str(), "buffr"));
    }
    proof {
        assert(text::texts(out@) =~= first);
    }
    let mut i: usize = 0;
    while i < path_dirs.len()
        invariant
            i <= path_dirs@.len(),
            rest == text::texts(path_dirs@).map_values(
                |d: Seq<char>| text::joined(d, "buffr"@),
            ),
            text::texts(out@) =~= first + rest.take(i as int),
        decreases path_dirs.len() - i,
    {
        let c = join(path_dirs[i].as_str(), "buffr");
        let ghost before = out@;
        let ghost shown = c@;
        out.push(c);
        proof {
            assert(text::texts(out@) =~= text::texts(before).push(shown));
            assert(shown == rest[i as int]);
            assert(rest.take(i as int + 1) =~= rest.take(i as int).push(rest[i as int]));
        }
        i = i + 1;
    }
    proof {
        assert(rest.take(path_dirs@.len() as int) =~= rest);
    }
    out
}

/// The candidates, and whether each is a file.
pub open spec fn found_view(v: Seq<(String, bool)>) -> Seq<(Seq<char>, bool)> {
    v.map_values(|c: (String, bool)| (c.0@, c.1))
}

/// The first candidate that is a file.
pub open spec fn first_file(found: Seq<(Seq<char>, bool)>) -> Option<Seq<char>>
    decreases found.len(),
{
    if found.len() == 0 {
        None
    } else if found[0].1 {
        Some(found[0].0)
    } else {
        first_file(found.drop_first())
    }
}

/// The browser to run.
pub open spec fn browser_in(named: Option<Seq<char>>, found: Seq<(Seq<char>, bool)>) -> Option<
    Seq<char>,
> {
    match named {
        Some(n) => Some(n),
        None => first_file(found),
    }
}

/// The browser to run: the one that was named, whether or not it is there, else
/// the first candidate that is a file.
pub fn resolve_child_bin(named: &Option<String>, found: &Vec<(String, bool)>) -> (r: Option<String>)
    ensures
        match named {
            Some(n) => r matches Some(p) && p@ == n@,
            None => match r {
                Some(p) => exists|i: int|
                    0 <= i < found@.len() && (#[trigger] found@[i]).1 && found@[i].0@ == p@
                        && forall|k: int| 0 <= k < i ==> !(#[trigger] found@[k]).1,
                None => forall|i: int| 0 <= i < found@.len() ==> !(#[trigger] found@[i]).1,
            },
        },
        crate::tabs::text_in(r) == browser_in(crate::tabs::text_in(*named), found_view(found@)),
{
    if let Some(n) = named {
        return Some(n.clone());
    }
    let mut i: usize = 0;
    let ghost all = found_view(found@);
    proof {
        assert(all.skip(0) =~= all);
    }
    while i < found.len()
        invariant
            i <= found@.len(),
            named is None,
            forall|k: int| 0 <= k < i ==> !(#[trigger] found@[k]).1,
            all == found_view(found@),
            first_file(all.skip(i as int)) == first_file(all),
        decreases found.len() - i,
    {
        proof {
            assert(all.skip(i as int)[0] == all[i as int]);
            assert(all.skip(i as int).drop_first() =~= all.skip(i + 1));
        }
        if found[i].1 {
            return Some(found[i].0.clone());
        }
        i = i + 1;
    }
    None
}

/// Law: the watchdog ends with the browser exactly where that ended on purpose:
/// with success, by any exit after it said that it is about to, or because the
/// watchdog was asked to end. A browser that hung never ended on purpose by itself,
/// and an end on purpose counts as no failure.
pub proof fn law_watchdog_ends_with_the_browser(
    times: Seq<u64>,
    end: ChildEnd,
    asked: bool,
    said: bool,
    now: u64,
)
    ensures
        ({
            let (left, step) = ended(times, end, asked, said, now);
            &&& step is Done <==> (asked || (end is Exited && (said || end->0 == Some(0i32))))
            &&& step is Done ==> left == times
        }),
{
}

/// Law: a failure counts for thirty seconds and no longer, whatever else failed;
/// the newest always counts, and the order is kept.
pub proof fn law_failures_count_for_half_a_minute(a: Seq<u64>, b: Seq<u64>, t: u64, now: u64)
    ensures
        recent(a + b, now) == recent(a, now) + recent(b, now),
        now - t <= 30_000_000_000 ==> recent(seq![t], now) == seq![t],
        now - t > 30_000_000_000 ==> recent(seq![t], now).len() == 0,
    decreases b.len(),
{
    let one = seq![t];
    assert(one.drop_last() =~= Seq::<u64>::empty());
    assert(recent(one.drop_last(), now) == Seq::<u64>::empty());
    if now - t <= 30_000_000_000 {
        assert(recent(one, now) =~= one);
    }
    if b.len() == 0 {
        assert(a + b =~= a);
        assert(recent(a, now) + Seq::<u64>::empty() =~= recent(a, now));
    } else {
        law_failures_count_for_half_a_minute(a, b.drop_last(), t, now);
        assert((a + b).drop_last() =~= a + b.drop_last());
        assert((a + b).last() == b.last());
        assert(recent(a + b, now) =~= recent(a, now) + recent(b, now));
    }
}

/// Law: after a failure the browser is started again unless three failures count,
/// this one included; it is remembered.
pub proof fn law_failed_browser_is_restarted(
    times: Seq<u64>,
    end: ChildEnd,
    said: bool,
    now: u64,
)
    requires
        !intentional(end, false, said),
    ensures
        ({
            let (left, step) = ended(times, end, false, said, now);
            &&& left == recent(times, now).push(now)
            &&& step is Refuse <==> recent(times, now).len() >= 2
            &&& step is Restart <==> recent(times, now).len() < 2
        }),
{
    law_failures_count_for_half_a_minute(times, seq![now], now, now);
    assert(times + seq![now] =~= times.push(now));
    assert(recent(times, now) + seq![now] =~= recent(times, now).push(now));
}

/// Law: a browser that never answered does not hang; one that did hangs exactly
/// once it has been silent for as long as it may be.
pub proof fn law_silence_means_a_hang(ping: u64, timeout: u64, now: u64)
    ensures
        silent_too_long(Some(ping), timeout, now) <==> now >= ping + timeout,
        !silent_too_long(None, timeout, now),
{
}

/// Law: a process that is asked to end is killed only if it is still there when its
/// time is up, and waited for until then.
pub proof fn law_killed_only_when_its_time_is_up(gone: bool, now: u64, deadline: u64)
    ensures
        kill_verdict(gone, now, deadline) is Gone <==> gone,
        kill_verdict(gone, now, deadline) is Kill <==> !gone && now >= deadline,
        kill_verdict(gone, now, deadline) is Wait <==> !gone && now < deadline,
{
}

/// Law: the browser is looked for next to the watchdog first, then in the
/// directories of the search path in their order, always under its own name.
pub proof fn law_browser_is_looked_for_nearby_first(
    dir: Seq<char>,
    path: Seq<Seq<char>>,
    i: int,
)
    ensures
        candidates(Some(dir), path).len() == path.len() + 1,
        candidates(Some(dir), path)[0] == text::joined(dir, "buffr"@),
        candidates(None, path).len() == path.len(),
        0 <= i < path.len() ==> candidates(Some(dir), path)[i + 1] == text::joined(
            path[i],
            "buffr"@,
        ) && candidates(None, path)[i] == text::joined(path[i], "buffr"@),
{
}

/// Law: a browser that was named is run in any case; otherwise the first candidate
/// that is a file is, and none where none is.
pub proof fn law_named_browser_is_run(named: Seq<char>, found: Seq<(Seq<char>, bool)>, i: int)
    ensures
        browser_in(Some(named), found) == Some(named),
        0 <= i < found.len() && found[i].1 && (forall|k: int|
            0 <= k < i ==> !(#[trigger] found[k]).1) ==> browser_in(None, found) == Some(found[i].0),
        (forall|k: int| 0 <= k < found.len() ==> !(#[trigger] found[k]).1) ==> browser_in(
            None,
            found,
        ) is None,
    decreases found.len(),
{
    if found.len() > 0 && !found[0].1 {
        let t = found.drop_first();
        assert(forall|k: int| 0 <= k < t.len() ==> t[k] == found[k + 1]);
        law_named_browser_is_run(named, t, i - 1);
        if 0 <= i < found.len() && found[i].1 && (forall|k: int|
            0 <= k < i ==> !(#[trigger] found[k]).1) {
            assert forall|k: int| 0 <= k < i - 1 implies !(#[trigger] t[k]).1 by {
                assert(t[k] == found[k + 1]);
            }
            assert(t[i - 1] == found[i]);
        }
        if forall|k: int| 0 <= k < found.len() ==> !(#[trigger] found[k]).1 {
            assert forall|k: int| 0 <= k < t.len() implies !(#[trigger] t[k]).1 by {
                assert(t[k] == found[k + 1]);
            }
        }
    }
}

/// Law: the model of the candidates shows each of them in its place, path and whether it is
/// a file.
pub proof fn law_candidates_are_seen_whole(v: Seq<(String, bool)>)
    ensures
        found_view(v).len() == v.len(),
        forall|i: int| 0 <= i < v.len() ==> (#[trigger] found_view(v)[i]).0 == v[i].0@,
        forall|i: int| 0 <= i < v.len() ==> (#[trigger] found_view(v)[i]).1 == v[i].1,
{
}

} // verus!
