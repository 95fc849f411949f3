//! Building windows.
use vstd::prelude::*;
use vstd::string::*;
use crate::windowing::geometry::Size;
use crate::windowing::surface::SurfaceId;

verus! {

/// What is asked of a window before it is made.
#[derive(Debug)]
pub struct ToplevelBuilder {
    pub title: Option<String>,
    pub app_id: Option<String>,
    pub initial_size: Option<Size>,
    pub min_size: Option<Size>,
    pub max_size: Option<Size>,
}

impl Default for ToplevelBuilder {
    fn default() -> (r: Self)
        ensures
            r == (ToplevelBuilder {
                title: None,
                app_id: None,
                initial_size: None,
                min_size: None,
                max_size: None,
            }),
    {
        ToplevelBuilder {
            title: None,
            app_id: None,
            initial_size: None,
            min_size: None,
            max_size: None,
        }
    }
}

impl ToplevelBuilder {
    /// Ask for this title.
    pub fn with_title(self, title: String) -> (r: Self)
        ensures
            r == (ToplevelBuilder { title: Some(title), ..self }),
    {
        let mut b = self;
        b.title = Some(title);
        b
    }

    /// Ask for this application identifier.
    pub fn with_app_id(self, app_id: String) -> (r: Self)
        ensures
            r == (ToplevelBuilder { app_id: Some(app_id), ..self }),
    {
        let mut b = self;
        b.app_id = Some(app_id);
        b
    }

    /// Ask for this size at first.
    pub fn with_initial_size(self, size: Size) -> (r: Self)
        ensures
            r == (ToplevelBuilder { initial_size: Some(size), ..self }),
    {
        let mut b = self;
        b.initial_size = Some(size);
        b
    }

    /// Ask for at least this size.
    pub fn with_min_size(self, size: Size) -> (r: Self)
        ensures
            r == (ToplevelBuilder { min_size: Some(size), ..self }),
    {
        let mut b = self;
        b.min_size = Some(size);
        b
    }

    /// Ask for at most this size.
    pub fn with_max_size(self, size: Size) -> (r: Self)
        ensures
            r == (ToplevelBuilder { max_size: Some(size), ..self }),
    {
        let mut b = self;
        b.max_size = Some(size);
        b
    }
}

/// Why a window could not be made.
#[derive(Debug)]
pub struct BuildError(pub String);

impl BuildError {
    /// The failure in words.
    pub fn message(&self) -> (r: String)
        ensures
            r@ == self.0@,
    {
        self.0.clone()
    }
}

/// Why a window could not be brought to the front.
#[derive(Debug, Clone, Copy, PartialEq, Eq, Structural)]
pub enum ActivationError {
    Unsupported,
    NoInputSerial,
}

impl ActivationError {
    /// The failure in words.
    pub fn message(&self) -> (r: String)
        ensures
            r@ == match self {
                ActivationError::Unsupported => "activation not supported"@,
                ActivationError::NoInputSerial => "no input serial available"@,
            },
    {
        match self {
            ActivationError::Unsupported => "activation not supported".to_owned(),
            ActivationError::NoInputSerial => "no input serial available".to_owned(),
        }
    }
}

/// A size that is nowhere empty.
pub open spec fn at_least_one(w: u32, h: u32) -> Size {
    Size { width: if w >= 1 { w } else { 1 }, height: if h >= 1 { h } else { 1 } }
}

/// The identifier that a window gets where the next one is `next`, if it gets one,
/// and the next one after that.
pub open spec fn built(next: u64, loop_running: bool) -> (Option<u64>, int) {
    if loop_running {
        (Some(next), next + 1)
    } else {
        (None, next as int)
    }
}

/// The logical size of a window whose physical size, divided by its scale and
/// rounded, is `(w, h)`: at least one pixel each way.
pub fn logical_size(w: u32, h: u32) -> (r: Size)
    ensures
        r == at_least_one(w, h),
{
    Size {
        width: crate::paint_policy::max_u32(w, 1),
        height: crate::paint_policy::max_u32(h, 1),
    }
}

/// Hands out surface identifiers.
#[derive(Debug)]
pub struct SurfaceIds {
    pub next: u64,
}

impl SurfaceIds {
    /// Identifiers start at one.
    pub open spec fn wf(self) -> bool {
        self.next >= 1
    }

    /// No identifier has been handed out.
    pub fn new() -> (r: Self)
        ensures
            r.next == 1,
            r.wf(),
    {
        SurfaceIds { next: 1 }
    }

    /// A window is being made: the identifier it gets. Windows can be made only
    /// while the event loop is running.
    pub fn build_window(&mut self, loop_running: bool) -> (r: Result<SurfaceId, BuildError>)
        requires
            old(self).wf(),
            old(self).next < u64::MAX,
        ensures
            final(self).wf(),
            final(self).next == built(old(self).next, loop_running).1,
            match r {
                Ok(id) => built(old(self).next, loop_running).0 == Some(id.0),
                Err(e) => built(old(self).next, loop_running).0 is None && e.0@
                    == "window creation only valid inside an ApplicationHandler callback"@,
            },
    {
        if !loop_running {
            return Err(
                BuildError(
                    "window creation only valid inside an ApplicationHandler callback".to_owned(),
                ),
            );
        }
        let id = SurfaceId::from_nonzero(self.next);
        self.next = self.next + 1;
        Ok(id)
    }
}

/// Law: a window gets an identifier exactly while the loop runs, and never one that
/// an earlier window got.
pub proof fn law_identifiers_are_handed_out_once(next: u64, running: bool, later: u64, still: bool)
    requires
        later >= built(next, running).1,
    ensures
        built(next, running).0 is Some <==> running,
        built(next, running).0 matches Some(id) ==> id >= next && id < later,
        built(next, running).1 >= next,
        running && still ==> built(later, still).0->0 > built(next, running).0->0,
        !running ==> built(next, running).1 == next,
        running ==> built(next, running) == (Some(next), next + 1),
{
}

/// Law: a window's size is what was measured, and one pixel where that is nothing.
pub proof fn law_no_window_is_empty(w: u32, h: u32)
    ensures
        at_least_one(w, h).width >= 1 && at_least_one(w, h).height >= 1,
        w >= 1 ==> at_least_one(w, h).width == w,
        h >= 1 ==> at_least_one(w, h).height == h,
        w == 0 ==> at_least_one(w, h).width == 1,
        h == 0 ==> at_least_one(w, h).height == 1,
{
}

} // verus!
