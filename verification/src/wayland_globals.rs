//! Which globals of a Wayland registry are bound, and at which version.
use vstd::prelude::*;
use vstd::string::*;
use crate::paint_policy;
use crate::paint_policy::min_u32;
use crate::text::same_text;

verus! {

/// The newest version of the compositor that is bound.
pub const COMPOSITOR_VERSION: u32 = 4;

/// The newest version of the subcompositor that is bound.
pub const SUBCOMPOSITOR_VERSION: u32 = 1;

/// A global to bind.
#[derive(Debug, Clone, Copy, PartialEq, Eq, Structural)]
pub enum GlobalBind {
    Ignore,
    /// Bind the compositor at this version.
    Compositor(u32),
    /// Bind the subcompositor at this version.
    Subcompositor(u32),
}

/// What has been bound.
#[derive(Debug, Clone, Copy, PartialEq, Eq, Structural)]
pub struct BindState {
    pub compositor: bool,
    pub subcompositor: bool,
}

/// What an advertised global leads to.
pub open spec fn bind_for(s: BindState, interface: Seq<char>, version: u32) -> GlobalBind {
    if interface == "wl_compositor"@ && !s.compositor {
        GlobalBind::Compositor(paint_policy::least(version as int, COMPOSITOR_VERSION as int) as u32)
    } else if interface == "wl_subcompositor"@ && !s.subcompositor {
        GlobalBind::Subcompositor(
            paint_policy::least(version as int, SUBCOMPOSITOR_VERSION as int) as u32,
        )
    } else {
        GlobalBind::Ignore
    }
}

/// What has been bound after a bind, if it succeeded.
pub open spec fn after_bind(s: BindState, bind: GlobalBind, ok: bool) -> BindState {
    BindState {
        compositor: s.compositor || ok && bind is Compositor,
        subcompositor: s.subcompositor || ok && bind is Subcompositor,
    }
}

impl BindState {
    /// Nothing has been bound.
    pub fn new() -> (r: Self)
        ensures
            r == (BindState { compositor: false, subcompositor: false }),
    {
        BindState { compositor: false, subcompositor: false }
    }

    /// A global is advertised: whether to bind it, and at which version.
    pub fn on_global(&self, interface: &str, version: u32) -> (r: GlobalBind)
        ensures
            r == bind_for(*self, interface@, version),
    {
        if same_text(interface, "wl_compositor") && !self.compositor {
            GlobalBind::Compositor(min_u32(version, COMPOSITOR_VERSION))
        } else if same_text(interface, "wl_subcompositor") && !self.subcompositor {
            GlobalBind::Subcompositor(min_u32(version, SUBCOMPOSITOR_VERSION))
        } else {
            GlobalBind::Ignore
        }
    }

    /// A global was bound, or could not be.
    pub fn bound(&mut self, bind: GlobalBind, ok: bool)
        ensures
            *final(self) == after_bind(*old(self), bind, ok),
    {
        if ok {
            match bind {
                GlobalBind::Compositor(_) => {
                    self.compositor = true;
                },
                GlobalBind::Subcompositor(_) => {
                    self.subcompositor = true;
                },
                GlobalBind::Ignore => {},
            }
        }
    }
}

/// Law: a global that has been bound is not bound again, and none is bound at a
/// version that was not advertised.
pub proof fn law_globals_are_bound_once(s: BindState, interface: Seq<char>, version: u32)
    ensures
        match bind_for(s, interface, version) {
            GlobalBind::Compositor(v) => !s.compositor && v <= version && v <= COMPOSITOR_VERSION,
            GlobalBind::Subcompositor(v) => !s.subcompositor && v <= version && v
                <= SUBCOMPOSITOR_VERSION,
            GlobalBind::Ignore => true,
        },
        s.compositor ==> !(bind_for(s, interface, version) is Compositor),
        s.subcompositor ==> !(bind_for(s, interface, version) is Subcompositor),
{
}

/// Law: a compositor or a subcompositor that is advertised and not bound yet is
/// bound, at the advertised version or, where that is newer, at the newest one that
/// is known: four and one. No other global is.
pub proof fn law_both_globals_are_bound(s: BindState, interface: Seq<char>, version: u32)
    ensures
        ({
            let b = bind_for(s, interface, version);
            &&& b is Compositor <==> interface == "wl_compositor"@ && !s.compositor
            &&& b is Subcompositor <==> interface == "wl_subcompositor"@ && !s.subcompositor
            &&& b is Compositor ==> b->Compositor_0 == if version < 4 { version } else { 4 }
            &&& b is Subcompositor ==> b->Subcompositor_0 == if version < 1 { version } else { 1 }
        }),
{
    reveal_strlit("wl_compositor");
    reveal_strlit("wl_subcompositor");
    assert("wl_compositor"@.len() == 13 && "wl_subcompositor"@.len() == 16);
}

/// Law: what was bound stays bound; a bind that fails changes nothing, and one that
/// succeeds marks its own global, which is then not bound again.
pub proof fn law_a_bind_marks_its_global(
    s: BindState,
    interface: Seq<char>,
    version: u32,
    later: u32,
)
    ensures
        ({
            let b = bind_for(s, interface, version);
            let t = after_bind(s, b, true);
            &&& after_bind(s, b, false) == s
            &&& t.compositor <==> (s.compositor || b is Compositor)
            &&& t.subcompositor <==> (s.subcompositor || b is Subcompositor)
            &&& !(b is Ignore) ==> bind_for(t, interface, later) is Ignore
        }),
{
    reveal_strlit("wl_compositor");
    reveal_strlit("wl_subcompositor");
    assert("wl_compositor"@.len() == 13 && "wl_subcompositor"@.len() == 16);
}

} // verus!
