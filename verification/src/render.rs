//! The present layer's own rules: what is uploaded, when the surface is
//! reconfigured, and which surface settings are chosen.
use vstd::prelude::*;

verus! {

/// Timing of one frame, in microseconds on the render worker.
#[derive(Debug, Clone, Copy, PartialEq, Eq, Structural)]
pub struct FrameStats {
    /// Spent presenting; of the frame before.
    pub present_us: u64,
    /// From the command's arrival to the end of the submission.
    pub submit_done_us: u64,
}

impl Default for FrameStats {
    fn default() -> (r: Self)
        ensures
            r == (FrameStats { present_us: 0, submit_done_us: 0 }),
    {
        FrameStats { present_us: 0, submit_done_us: 0 }
    }
}

/// Whether a frame was handed to the render worker.
#[derive(Debug, Clone, Copy, PartialEq, Eq, Structural)]
pub enum Submitted {
    Yes,
    No,
}

/// A page frame to composite in the next frame.
pub struct OsrUpload<'a> {
    /// BGRA pixels.
    pub pixels: &'a [u8],
    pub width: u32,
    pub height: u32,
    pub generation: u64,
    /// Destination `(x, y, width, height)` in window pixels.
    pub dst_rect: (u32, u32, u32, u32),
    /// The same pixels were handed over before.
    pub skip_pixels: bool,
}

/// A page frame on its way to the worker. Without pixels where the worker has
/// them.
pub struct OsrUploadOwned {
    pub pixels: Option<Vec<u8>>,
    pub width: u32,
    pub height: u32,
    pub generation: u64,
    pub dst_rect: (u32, u32, u32, u32),
}

/// The contents of an [`OsrUploadOwned`].
pub struct UploadView {
    pub pixels: Option<Seq<u8>>,
    pub width: u32,
    pub height: u32,
    pub generation: u64,
    pub dst_rect: (u32, u32, u32, u32),
}

impl View for OsrUploadOwned {
    type V = UploadView;

    open spec fn view(&self) -> UploadView {
        UploadView {
            pixels: match self.pixels {
                Some(p) => Some(p@),
                None => None,
            },
            width: self.width,
            height: self.height,
            generation: self.generation,
            dst_rect: self.dst_rect,
        }
    }
}

/// How the compositor blends the window with what is below.
#[derive(Debug, Clone, Copy, PartialEq, Eq, Structural)]
pub enum CompositeAlphaMode {
    Auto,
    Opaque,
    PreMultiplied,
    PostMultiplied,
    Inherit,
}

/// When a presented frame replaces the one on screen.
#[derive(Debug, Clone, Copy, PartialEq, Eq, Structural)]
pub enum PresentMode {
    AutoVsync,
    AutoNoVsync,
    Fifo,
    FifoRelaxed,
    Immediate,
    Mailbox,
}

/// A surface format, told apart only as far as the choice needs it.
#[derive(Debug, Clone, Copy, PartialEq, Eq, Structural)]
pub enum SurfaceFormat {
    Bgra8Unorm,
    Other(u32),
}

/// A request for a graphics adapter.
#[derive(Debug, Clone, Copy, PartialEq, Eq, Structural)]
pub struct AdapterRequest {
    /// Prefer the fast adapter over the frugal one.
    pub high_performance: bool,
    /// Accept a software renderer only.
    pub force_fallback_adapter: bool,
}

/// The adapter to ask for after `failed` requests failed.
pub open spec fn adapter_after(failed: u32) -> Option<AdapterRequest> {
    if failed == 0 {
        Some(AdapterRequest { high_performance: true, force_fallback_adapter: false })
    } else if failed == 1 {
        Some(AdapterRequest { high_performance: false, force_fallback_adapter: false })
    } else if failed == 2 {
        Some(AdapterRequest { high_performance: false, force_fallback_adapter: true })
    } else {
        None
    }
}

/// The adapter to ask for after `failed` requests failed: the fast one, the
/// frugal one, the software one, and then none.
pub fn adapter_request(failed: u32) -> (r: Option<AdapterRequest>)
    ensures
        r == adapter_after(failed),
{
    if failed == 0 {
        Some(AdapterRequest { high_performance: true, force_fallback_adapter: false })
    } else if failed == 1 {
        Some(AdapterRequest { high_performance: false, force_fallback_adapter: false })
    } else if failed == 2 {
        Some(AdapterRequest { high_performance: false, force_fallback_adapter: true })
    } else {
        None
    }
}

/// Whether a mode is among those advertised.
fn advertises(advertised: &Vec<CompositeAlphaMode>, mode: CompositeAlphaMode) -> (r: bool)
    ensures
        r == advertised@.contains(mode),
{
    let mut i: usize = 0;
    while i < advertised.len()
        invariant
            i <= advertised@.len(),
            forall|k: int| 0 <= k < i ==> advertised@[k] != mode,
        decreases advertised.len() - i,
    {
        if advertised[i] == mode {
            return true;
        }
        i = i + 1;
    }
    false
}

/// The alpha modes in the order they are preferred: opaque first, unless the
/// page is a surface of its own below the window.
pub open spec fn alpha_preference(want_native: bool) -> Seq<CompositeAlphaMode> {
    if want_native {
        seq![
            CompositeAlphaMode::PreMultiplied,
            CompositeAlphaMode::PostMultiplied,
            CompositeAlphaMode::Auto,
            CompositeAlphaMode::Opaque,
        ]
    } else {
        seq![
            CompositeAlphaMode::Opaque,
            CompositeAlphaMode::Auto,
            CompositeAlphaMode::PreMultiplied,
            CompositeAlphaMode::PostMultiplied,
        ]
    }
}

/// Whether `k` is the first preference that is advertised.
pub open spec fn first_advertised(
    advertised: Seq<CompositeAlphaMode>,
    want_native: bool,
    k: int,
) -> bool {
    let order = alpha_preference(want_native);
    &&& 0 <= k < order.len()
    &&& advertised.contains(order[k])
    &&& forall|j: int| 0 <= j < k ==> !advertised.contains(#[trigger] order[j])
}

/// The first of the modes that is advertised, opaque where none is.
pub open spec fn first_of(
    order: Seq<CompositeAlphaMode>,
    advertised: Seq<CompositeAlphaMode>,
) -> CompositeAlphaMode
    decreases order.len(),
{
    if order.len() == 0 {
        CompositeAlphaMode::Opaque
    } else if advertised.contains(order[0]) {
        order[0]
    } else {
        first_of(order.drop_first(), advertised)
    }
}

/// The alpha mode of the window.
pub open spec fn alpha_mode(advertised: Seq<CompositeAlphaMode>, want_native: bool) -> CompositeAlphaMode {
    first_of(alpha_preference(want_native), advertised)
}

/// The alpha mode of the window: the first preference that the compositor
/// advertises, opaque where it advertises none of them.
pub fn pick_composite_alpha(
    advertised: &Vec<CompositeAlphaMode>,
    want_native: bool,
) -> (r: CompositeAlphaMode)
    ensures
        forall|k: int| #[trigger]
            first_advertised(advertised@, want_native, k) ==> r == alpha_preference(want_native)[k],
        (forall|k: int|
            0 <= k < 4 ==> !advertised@.contains(#[trigger] alpha_preference(want_native)[k]))
            ==> r == CompositeAlphaMode::Opaque,
        r == alpha_mode(advertised@, want_native),
{
    let order: Vec<CompositeAlphaMode> = if want_native {
        vec![
            CompositeAlphaMode::PreMultiplied,
            CompositeAlphaMode::PostMultiplied,
            CompositeAlphaMode::Auto,
            CompositeAlphaMode::Opaque,
        ]
    } else {
        vec![
            CompositeAlphaMode::Opaque,
            CompositeAlphaMode::Auto,
            CompositeAlphaMode::PreMultiplied,
            CompositeAlphaMode::PostMultiplied,
        ]
    };
    assert(order@ =~= alpha_preference(want_native));
    assert(order@.skip(0) =~= order@);
    let mut i: usize = 0;
    while i < order.len()
        invariant
            i <= order@.len(),
            order@.len() == 4,
            order@ == alpha_preference(want_native),
            first_of(order@.skip(i as int), advertised@) == alpha_mode(advertised@, want_native),
            forall|j: int|
                0 <= j < i ==> !advertised@.contains(#[trigger] alpha_preference(want_native)[j]),
        decreases order.len() - i,
    {
        proof {
            assert(order@.skip(i as int)[0] == order@[i as int]);
            assert(order@.skip(i as int).drop_first() =~= order@.skip(i + 1));
        }
        if advertises(advertised, order[i]) {
            proof {
                assert forall|k: int| #[trigger]
                    first_advertised(advertised@, want_native, k) implies alpha_preference(
                    want_native,
                )[k] == order@[i as int] by {
                    if k < i {
                        assert(!advertised@.contains(alpha_preference(want_native)[k]));
                    } else if k > i {
                        assert(advertised@.contains(alpha_preference(want_native)[i as int]));
                    }
                }
                assert(advertised@.contains(alpha_preference(want_native)[i as int]));
            }
            return order[i];
        }
        i = i + 1;
    }
    proof {
        assert forall|k: int| #[trigger] first_advertised(advertised@, want_native, k) implies false by {
            assert(!advertised@.contains(alpha_preference(want_native)[k]));
        }
    }
    CompositeAlphaMode::Opaque
}

/// Whether a present mode is among those offered.
fn offers(modes: &Vec<PresentMode>, mode: PresentMode) -> (r: bool)
    ensures
        r == modes@.contains(mode),
{
    let mut i: usize = 0;
    while i < modes.len()
        invariant
            i <= modes@.len(),
            forall|k: int| 0 <= k < i ==> modes@[k] != mode,
        decreases modes.len() - i,
    {
        if modes[i] == mode {
            return true;
        }
        i = i + 1;
    }
    false
}

/// The present mode.
pub open spec fn present_mode_of(modes: Seq<PresentMode>) -> PresentMode {
    if modes.contains(PresentMode::Mailbox) {
        PresentMode::Mailbox
    } else if modes.contains(PresentMode::Immediate) {
        PresentMode::Immediate
    } else {
        PresentMode::Fifo
    }
}

/// The present mode: mailbox, else immediate, else fifo.
pub fn pick_present_mode(modes: &Vec<PresentMode>) -> (r: PresentMode)
    ensures
        r == present_mode_of(modes@),
{
    if offers(modes, PresentMode::Mailbox) {
        PresentMode::Mailbox
    } else if offers(modes, PresentMode::Immediate) {
        PresentMode::Immediate
    } else {
        PresentMode::Fifo
    }
}

/// Whether `r` is the index of the surface format.
pub open spec fn chosen_format(formats: Seq<SurfaceFormat>, r: int) -> bool {
    &&& 0 <= r < formats.len()
    &&& formats.contains(SurfaceFormat::Bgra8Unorm) ==> formats[r] == SurfaceFormat::Bgra8Unorm
        && forall|k: int| 0 <= k < r ==> formats[k] != SurfaceFormat::Bgra8Unorm
    &&& !formats.contains(SurfaceFormat::Bgra8Unorm) ==> r == 0
}

/// Index of the surface format: the first 8-bit BGRA one, else the first.
pub fn pick_surface_format(formats: &Vec<SurfaceFormat>) -> (r: usize)
    requires
        formats@.len() > 0,
    ensures
        chosen_format(formats@, r as int),
{
    let mut i: usize = 0;
    while i < formats.len()
        invariant
            i <= formats@.len(),
            forall|k: int| 0 <= k < i ==> formats@[k] != SurfaceFormat::Bgra8Unorm,
        decreases formats.len() - i,
    {
        if formats[i] == SurfaceFormat::Bgra8Unorm {
            return i;
        }
        i = i + 1;
    }
    0
}

/// What a resize does to the surface.
#[derive(Debug, Clone, Copy, PartialEq, Eq, Structural)]
pub enum ResizeStep {
    /// The size is the one it has.
    Unchanged,
    /// Configure the surface now.
    Configure,
    /// The worker holds a surface texture: configure before a later frame.
    Deferred,
}

/// Whether a frame goes on to the surface.
#[derive(Debug, Clone, Copy, PartialEq, Eq, Structural)]
pub struct FrameGate {
    /// Configure the surface for a resize that was put off.
    pub configure: bool,
    /// Go on: no frame is in flight.
    pub proceed: bool,
}

/// What the surface answered to a request for a texture.
#[derive(Debug, Clone, Copy, PartialEq, Eq, Structural)]
pub enum Acquired {
    /// A texture of this size.
    Texture { width: u32, height: u32 },
    /// The surface has to be configured again.
    Stale,
    /// No texture, and asking again will not help.
    Unavailable,
}

/// What to do with that answer.
#[derive(Debug, Clone, Copy, PartialEq, Eq, Structural)]
pub enum AcquireStep {
    /// Paint into the texture.
    Use,
    /// Configure the surface and ask again.
    Reconfigure,
    /// Give this frame up.
    Skip,
}

/// How often the surface is configured again within one frame.
pub const MAX_RECONFIGURES: u32 = 2;

/// Judge an acquired texture after `retries` reconfigurations.
pub open spec fn acquire_judgement(
    got: Acquired,
    retries: u32,
    width: u32,
    height: u32,
) -> AcquireStep {
    match got {
        Acquired::Texture { width: w, height: h } => if w == width && h == height {
            AcquireStep::Use
        } else if retries < MAX_RECONFIGURES {
            AcquireStep::Reconfigure
        } else {
            AcquireStep::Skip
        },
        Acquired::Stale => if retries < MAX_RECONFIGURES {
            AcquireStep::Reconfigure
        } else {
            AcquireStep::Skip
        },
        Acquired::Unavailable => AcquireStep::Skip,
    }
}

/// What the worker's mailbox answered to a frame.
#[derive(Debug, Clone, Copy, PartialEq, Eq, Structural)]
pub enum Delivery {
    Accepted,
    Full,
    Disconnected,
}

/// What becomes of the worker when the renderer goes away.
#[derive(Debug, Clone, Copy, PartialEq, Eq, Structural)]
pub enum Teardown {
    /// Wait for it, then release the surface.
    Join,
    /// It is still presenting: let it go and release nothing.
    Detach,
}

/// The user-interface side of the renderer.
#[derive(Debug)]
pub struct Renderer {
    /// Physical size of the surface.
    pub width: u32,
    pub height: u32,
    /// Logical size of the chrome.
    pub chrome_lw: u32,
    pub chrome_lh: u32,
    /// Newest stats from the worker.
    pub last_present_stats: FrameStats,
    /// Surface textures that the worker has not presented yet.
    pub frames_in_flight: u32,
    /// A resize that was put off.
    pub pending_resize: Option<(u32, u32)>,
    /// Size and generation of the page frame the worker was last given pixels
    /// of.
    pub sent: Option<(u32, u32, u64)>,
}

impl Renderer {
    /// The surface never has more than one texture out.
    pub open spec fn wf(self) -> bool {
        self.frames_in_flight <= 1
    }

    /// A resize: the size is taken on at once, the surface is configured at
    /// once only while no texture of it is out.
    pub open spec fn resized(self, w: u32, h: u32) -> (Renderer, ResizeStep) {
        if w == self.width && h == self.height {
            (self, ResizeStep::Unchanged)
        } else {
            let busy = self.frames_in_flight > 0;
            (
                Renderer {
                    width: w,
                    height: h,
                    chrome_lw: w,
                    chrome_lh: h,
                    pending_resize: if busy { Some((w, h)) } else { self.pending_resize },
                    ..self
                },
                if busy { ResizeStep::Deferred } else { ResizeStep::Configure },
            )
        }
    }

    /// The start of a frame: it goes on, and applies a resize that was put off,
    /// exactly while no texture is out.
    pub open spec fn gated(self) -> (Renderer, FrameGate) {
        let idle = self.frames_in_flight == 0;
        let configure = idle && self.pending_resize is Some;
        (
            Renderer { pending_resize: if configure { None } else { self.pending_resize }, ..self },
            FrameGate { configure, proceed: idle },
        )
    }

    /// Another logical size.
    pub open spec fn with_logical(self, lw: u32, lh: u32) -> Renderer {
        Renderer {
            chrome_lw: crate::paint_policy::greatest(lw as int, 1) as u32,
            chrome_lh: crate::paint_policy::greatest(lh as int, 1) as u32,
            ..self
        }
    }

    /// The worker reported these frames; the newest of them.
    pub open spec fn polled(self, arrived: Seq<FrameStats>) -> (Renderer, Option<FrameStats>) {
        let latest = if arrived.len() == 0 { None } else { Some(arrived.last()) };
        (
            Renderer {
                last_present_stats: match latest {
                    Some(s) => s,
                    None => self.last_present_stats,
                },
                ..self.drained(arrived.len() as int)
            },
            latest,
        )
    }

    /// An upload made ready to be handed over.
    pub open spec fn prepared(
        self,
        pixels: Seq<u8>,
        width: u32,
        height: u32,
        generation: u64,
        dst_rect: (u32, u32, u32, u32),
        skip: bool,
    ) -> UploadView {
        UploadView {
            pixels: if self.lacks(width, height, generation, skip) { Some(pixels) } else { None },
            width,
            height,
            generation,
            dst_rect,
        }
    }

    /// The frame was offered to the worker.
    pub open spec fn offered(self, delivery: Delivery, osr: Option<(u32, u32, u64, bool)>) -> (
        Renderer,
        Submitted,
    ) {
        if delivery == Delivery::Accepted {
            (
                Renderer {
                    frames_in_flight: 1,
                    sent: match osr {
                        Some(o) => if o.3 && o.0 > 0 && o.1 > 0 {
                            Some((o.0, o.1, o.2))
                        } else {
                            self.sent
                        },
                        None => self.sent,
                    },
                    ..self
                },
                Submitted::Yes,
            )
        } else {
            (self, Submitted::No)
        }
    }

    /// What becomes of the worker.
    pub open spec fn parting(self, drained: u32) -> Teardown {
        if drained >= self.frames_in_flight { Teardown::Join } else { Teardown::Detach }
    }

    /// The worker has reported `n` more frames.
    pub open spec fn drained(self, n: int) -> Renderer {
        Renderer {
            frames_in_flight: crate::paint_policy::greatest(self.frames_in_flight - n, 0) as u32,
            ..self
        }
    }

    /// A renderer for a window of this size, at least one pixel each way. The
    /// chrome starts at the same size.
    pub fn new(window_w: u32, window_h: u32) -> (r: Self)
        ensures
            r.wf(),
            r.width == crate::paint_policy::greatest(window_w as int, 1),
            r.height == crate::paint_policy::greatest(window_h as int, 1),
            r.chrome_lw == r.width,
            r.chrome_lh == r.height,
            r.last_present_stats == (FrameStats { present_us: 0, submit_done_us: 0 }),
            r.frames_in_flight == 0,
            r.pending_resize is None,
            r.sent is None,
    {
        let width: u32 = crate::paint_policy::max_u32(window_w, 1);
        let height: u32 = crate::paint_policy::max_u32(window_h, 1);
        Renderer {
            width,
            height,
            chrome_lw: width,
            chrome_lh: height,
            last_present_stats: FrameStats::default(),
            frames_in_flight: 0,
            pending_resize: None,
            sent: None,
        }
    }

    /// Take on a new physical size. The chrome takes it too, until it is told
    /// its logical size.
    pub fn resize(&mut self, w: u32, h: u32) -> (step: ResizeStep)
        ensures
            (*final(self), step) == old(self).resized(w, h),
    {
        if w == self.width && h == self.height {
            return ResizeStep::Unchanged;
        }
        self.width = w;
        self.height = h;
        let step = if self.frames_in_flight == 0 {
            ResizeStep::Configure
        } else {
            self.pending_resize = Some((w, h));
            ResizeStep::Deferred
        };
        self.chrome_lw = w;
        self.chrome_lh = h;
        step
    }

    /// Take on a new logical size, at least one pixel each way.
    pub fn set_logical_size(&mut self, lw: u32, lh: u32)
        ensures
            *final(self) == old(self).with_logical(lw, lh),
    {
        self.chrome_lw = crate::paint_policy::max_u32(lw, 1);
        self.chrome_lh = crate::paint_policy::max_u32(lh, 1);
    }

    /// The worker reported these frames, oldest first. Returns the newest.
    pub fn poll_present_stats(&mut self, arrived: &Vec<FrameStats>) -> (latest: Option<FrameStats>)
        ensures
            old(self).wf() ==> final(self).wf(),
            (*final(self), latest) == old(self).polled(arrived@),
    {
        let mut latest: Option<FrameStats> = None;
        let mut i: usize = 0;
        while i < arrived.len()
            invariant
                i <= arrived@.len(),
                latest == if i == 0 {
                    None::<FrameStats>
                } else {
                    Some(arrived@[i - 1])
                },
                *self == (Renderer {
                    last_present_stats: match latest {
                        Some(s) => s,
                        None => old(self).last_present_stats,
                    },
                    ..old(self).drained(i as int)
                }),
            decreases arrived.len() - i,
        {
            self.last_present_stats = arrived[i];
            self.frames_in_flight = self.frames_in_flight.saturating_sub(1);
            latest = Some(arrived[i]);
            i = i + 1;
        }
        latest
    }

    /// Whether a frame may ask for a surface texture, and whether a resize that
    /// was put off can be applied first.
    pub fn begin_frame(&mut self) -> (gate: FrameGate)
        ensures
            (*final(self), gate) == old(self).gated(),
    {
        let idle = self.frames_in_flight == 0;
        let configure = idle && self.pending_resize.is_some();
        if configure {
            self.pending_resize = None;
        }
        FrameGate { configure, proceed: idle }
    }

    /// What to do with what the surface answered after `retries`
    /// reconfigurations.
    pub fn judge_acquired(&self, got: Acquired, retries: u32) -> (step: AcquireStep)
        ensures
            step == acquire_judgement(got, retries, self.width, self.height),
    {
        match got {
            Acquired::Texture { width, height } => {
                if width == self.width && height == self.height {
                    AcquireStep::Use
                } else if retries < MAX_RECONFIGURES {
                    AcquireStep::Reconfigure
                } else {
                    AcquireStep::Skip
                }
            },
            Acquired::Stale => {
                if retries < MAX_RECONFIGURES {
                    AcquireStep::Reconfigure
                } else {
                    AcquireStep::Skip
                }
            },
            Acquired::Unavailable => AcquireStep::Skip,
        }
    }

    /// Whether the worker lacks the pixels of an upload.
    pub open spec fn lacks(self, width: u32, height: u32, generation: u64, skip: bool) -> bool {
        !skip || self.sent != Some((width, height, generation))
    }

    /// Make an upload ready to be handed over: its pixels are copied where the
    /// worker lacks them.
    pub fn own_upload(&self, u: &OsrUpload<'_>) -> (r: OsrUploadOwned)
        ensures
            r@ == self.prepared(
                u.pixels@,
                u.width,
                u.height,
                u.generation,
                u.dst_rect,
                u.skip_pixels,
            ),
    {
        let known = match self.sent {
            Some((w, h, g)) => w == u.width && h == u.height && g == u.generation,
            None => false,
        };
        let pixels = if u.skip_pixels && known {
            None
        } else {
            Some(vstd::slice::slice_to_vec(u.pixels))
        };
        OsrUploadOwned {
            pixels,
            width: u.width,
            height: u.height,
            generation: u.generation,
            dst_rect: u.dst_rect,
        }
    }

    /// The frame was offered to the worker, with a page layer of this size and
    /// generation whose pixels were sent along or not.
    pub fn delivered(
        &mut self,
        delivery: Delivery,
        osr: Option<(u32, u32, u64, bool)>,
    ) -> (submitted: Submitted)
        requires
            old(self).frames_in_flight == 0,
        ensures
            final(self).wf(),
            (*final(self), submitted) == old(self).offered(delivery, osr),
    {
        match delivery {
            Delivery::Accepted => {
                self.frames_in_flight = self.frames_in_flight + 1;
                if let Some((w, h, g, with_pixels)) = osr {
                    if with_pixels && w > 0 && h > 0 {
                        self.sent = Some((w, h, g));
                    }
                }
                Submitted::Yes
            },
            Delivery::Full => Submitted::No,
            Delivery::Disconnected => Submitted::No,
        }
    }

    /// The renderer goes away after the worker reported `drained` more frames.
    pub fn teardown(&self, drained: u32) -> (r: Teardown)
        ensures
            r == self.parting(drained),
    {
        if self.frames_in_flight.saturating_sub(drained) == 0 {
            Teardown::Join
        } else {
            Teardown::Detach
        }
    }
}

/// The page texture on the worker. A fresh one holds no generation.
#[derive(Debug, Clone, Copy, PartialEq, Eq, Structural)]
pub struct OsrTexture {
    pub width: u32,
    pub height: u32,
    pub last_generation: u64,
}

/// The worker's side of the renderer.
#[derive(Debug, Clone, Copy, PartialEq, Eq, Structural)]
pub struct WorkerState {
    pub chrome_lw: u32,
    pub chrome_lh: u32,
    pub width: u32,
    pub height: u32,
    pub osr: Option<OsrTexture>,
}

/// What the worker does with a page layer.
#[derive(Debug, Clone, Copy, PartialEq, Eq, Structural)]
pub struct OsrStep {
    /// Allocate a texture of the layer's size.
    pub allocate: bool,
    /// Copy the layer's pixels into it.
    pub upload: bool,
}

/// What the worker does for one frame.
#[derive(Debug, Clone, Copy, PartialEq, Eq, Structural)]
pub struct WorkerStep {
    /// Allocate a chrome texture of the new logical size.
    pub reallocate_chrome: bool,
    /// The page layer, drawn below the chrome.
    pub osr: Option<OsrStep>,
}

impl WorkerState {
    /// Whether the page texture has to be allocated for a layer of this size.
    pub open spec fn must_allocate(self, width: u32, height: u32) -> bool {
        self.osr matches Some(t) ==> t.width != width || t.height != height
    }

    /// Whether the page texture lacks this generation. A fresh texture holds
    /// the largest generation there is, so that one is never uploaded.
    pub open spec fn must_upload(self, width: u32, height: u32, generation: u64) -> bool {
        if self.must_allocate(width, height) {
            generation != u64::MAX
        } else {
            generation != (self.osr->0).last_generation
        }
    }

    /// The worker after a frame, and what it does for it.
    pub open spec fn received(
        self,
        width: u32,
        height: u32,
        chrome_lw: u32,
        chrome_lh: u32,
        osr: Option<(u32, u32, u64)>,
    ) -> (WorkerState, WorkerStep) {
        let shown = osr is Some && (osr->0).0 > 0 && (osr->0).1 > 0;
        let (w, h, g) = osr->0;
        (
            WorkerState {
                chrome_lw,
                chrome_lh,
                width,
                height,
                osr: if shown {
                    Some(OsrTexture { width: w, height: h, last_generation: g })
                } else {
                    self.osr
                },
            },
            WorkerStep {
                reallocate_chrome: chrome_lw != self.chrome_lw || chrome_lh != self.chrome_lh,
                osr: if shown {
                    Some(
                        OsrStep {
                            allocate: self.must_allocate(w, h),
                            upload: self.must_upload(w, h, g),
                        },
                    )
                } else {
                    None
                },
            },
        )
    }

    /// Take on the sizes of a frame and place its page layer. A layer of no
    /// size is left out.
    pub fn receive(
        &mut self,
        width: u32,
        height: u32,
        chrome_lw: u32,
        chrome_lh: u32,
        osr: Option<(u32, u32, u64)>,
    ) -> (step: WorkerStep)
        ensures
            (*final(self), step) == old(self).received(width, height, chrome_lw, chrome_lh, osr),
    {
        let reallocate_chrome = chrome_lw != self.chrome_lw || chrome_lh != self.chrome_lh;
        self.chrome_lw = chrome_lw;
        self.chrome_lh = chrome_lh;
        self.width = width;
        self.height = height;
        let mut placed: Option<OsrStep> = None;
        if let Some((w, h, generation)) = osr {
            if w != 0 && h != 0 {
                let allocate = match self.osr {
                    Some(t) => t.width != w || t.height != h,
                    None => true,
                };
                let held: u64 = match self.osr {
                    Some(t) => if allocate { u64::MAX } else { t.last_generation },
                    None => u64::MAX,
                };
                let upload = generation != held;
                self.osr = Some(OsrTexture { width: w, height: h, last_generation: generation });
                placed = Some(OsrStep { allocate, upload });
            }
        }
        WorkerStep { reallocate_chrome, osr: placed }
    }
}

/// Law: the surface is configured only while no texture of it is out, and a
/// resize that was put off is applied by the first frame after the worker has
/// reported every texture back.
pub proof fn law_configure_only_when_idle(r: Renderer, w: u32, h: u32)
    ensures
        r.resized(w, h).1 == ResizeStep::Configure ==> r.frames_in_flight == 0,
        r.gated().1.configure ==> r.frames_in_flight == 0,
        r.resized(w, h).1 == ResizeStep::Deferred ==> ({
            let busy = r.resized(w, h).0;
            let idle = busy.drained(busy.frames_in_flight as int);
            &&& !busy.gated().1.proceed
            &&& idle.gated().1 == (FrameGate { configure: true, proceed: true })
            &&& idle.gated().0.width == w
            &&& idle.gated().0.height == h
            &&& idle.gated().0.pending_resize is None
        }),
{
}

/// Law: within one frame the surface is configured again at most
/// [`MAX_RECONFIGURES`] times, and only a texture of the right size is used.
pub proof fn law_acquire_is_bounded(got: Acquired, retries: u32, width: u32, height: u32)
    ensures
        retries >= MAX_RECONFIGURES ==> acquire_judgement(got, retries, width, height)
            != AcquireStep::Reconfigure,
        acquire_judgement(got, retries, width, height) == AcquireStep::Use <==> got == (
        Acquired::Texture { width, height }),
{
}

/// Law: a worker that holds what it was last given pixels of never has to
/// upload a layer that came without them.
pub proof fn law_no_upload_without_pixels(
    r: Renderer,
    worker: WorkerState,
    width: u32,
    height: u32,
    generation: u64,
    skip: bool,
)
    requires
        r.sent matches Some(s) ==> worker.osr == Some(
            OsrTexture { width: s.0, height: s.1, last_generation: s.2 },
        ),
        !r.lacks(width, height, generation, skip),
    ensures
        !worker.must_allocate(width, height),
        !worker.must_upload(width, height, generation),
{
}

/// Law: adapters are asked for from the best down: the fast one, then the frugal
/// one, then a software one, which is forced only at the last, and then no more.
pub proof fn law_adapters_are_asked_for_from_the_best_down(failed: u32)
    ensures
        adapter_after(failed) is Some <==> failed < 3,
        adapter_after(failed) matches Some(a) ==> (a.high_performance <==> failed == 0) && (
        a.force_fallback_adapter <==> failed == 2),
{
}

/// Law: an opaque window is preferred, and a window over a page with a surface of
/// its own lets that show through where it can: the best mode that is advertised is
/// chosen, and it is always one that is advertised, or opaque.
pub proof fn law_window_is_opaque_unless_the_page_is_below(advertised: Seq<CompositeAlphaMode>)
    ensures
        advertised.contains(CompositeAlphaMode::Opaque) ==> alpha_mode(advertised, false) is Opaque,
        advertised.contains(CompositeAlphaMode::PreMultiplied) ==> alpha_mode(advertised, true)
            is PreMultiplied,
        !advertised.contains(CompositeAlphaMode::PreMultiplied) && advertised.contains(
            CompositeAlphaMode::PostMultiplied,
        ) ==> alpha_mode(advertised, true) is PostMultiplied,
        !advertised.contains(CompositeAlphaMode::Opaque) && advertised.contains(
            CompositeAlphaMode::Auto,
        ) ==> alpha_mode(advertised, false) is Auto,
        advertised.contains(alpha_mode(advertised, true)) || alpha_mode(advertised, true) is Opaque,
        advertised.contains(alpha_mode(advertised, false)) || alpha_mode(advertised, false)
            is Opaque,
        advertised.len() == 1 && !(advertised[0] is Inherit) ==> alpha_mode(advertised, true)
            == advertised[0] && alpha_mode(advertised, false) == advertised[0],
{
    reveal_with_fuel(first_of, 5);
    let a = alpha_preference(true);
    let b = alpha_preference(false);
    assert(a.drop_first()[0] == a[1] && a.drop_first().drop_first()[0] == a[2]
        && a.drop_first().drop_first().drop_first()[0] == a[3]);
    assert(b.drop_first()[0] == b[1] && b.drop_first().drop_first()[0] == b[2]
        && b.drop_first().drop_first().drop_first()[0] == b[3]);
    if advertised.len() == 1 {
        assert(advertised.contains(advertised[0]));
        assert forall|m: CompositeAlphaMode| #[trigger] advertised.contains(m) implies m
            == advertised[0] by {}
    }
}

/// Law: frames are presented without waiting where the surface can, the newest one
/// first; otherwise they wait their turn.
pub proof fn law_newest_frame_is_presented(modes: Seq<PresentMode>)
    ensures
        modes.contains(PresentMode::Mailbox) ==> present_mode_of(modes) is Mailbox,
        present_mode_of(modes) is Immediate <==> (modes.contains(PresentMode::Immediate)
            && !modes.contains(PresentMode::Mailbox)),
        !modes.contains(PresentMode::Mailbox) && !modes.contains(PresentMode::Immediate)
            ==> present_mode_of(modes) is Fifo,
{
}

/// Law: the surface has 8-bit BGRA pixels, as the engine's, wherever it can, and
/// its own first format where it cannot; there is one choice.
pub proof fn law_format_is_the_engines(formats: Seq<SurfaceFormat>, r: int, k: int)
    requires
        chosen_format(formats, r),
    ensures
        0 <= k < formats.len() && formats[k] is Bgra8Unorm ==> formats[r] is Bgra8Unorm && r <= k,
        !(formats[r] is Bgra8Unorm) ==> r == 0,
        chosen_format(formats, k) ==> k == r,
{
    if 0 <= k < formats.len() && formats[k] is Bgra8Unorm {
        assert(formats.contains(SurfaceFormat::Bgra8Unorm));
    }
}

/// Law: a renderer takes on every size at once, the chrome with it, and keeps the
/// rest. A size it has already changes nothing; a resize while a texture is out is
/// remembered until it can be applied.
pub proof fn law_resize_takes_effect(r: Renderer, w: u32, h: u32)
    ensures
        ({
            let (q, step) = r.resized(w, h);
            let same = w == r.width && h == r.height;
            &&& q.width == w && q.height == h
            &&& step is Unchanged <==> same
            &&& same ==> q == r
            &&& !same ==> q.chrome_lw == w && q.chrome_lh == h
            &&& step is Deferred <==> !same && r.frames_in_flight > 0
            &&& step is Deferred ==> q.pending_resize == Some((w, h))
            &&& step is Configure ==> q.pending_resize == r.pending_resize
            &&& q.frames_in_flight == r.frames_in_flight && q.sent == r.sent
                && q.last_present_stats == r.last_present_stats
        }),
{
}

/// Law: a frame asks for a texture exactly while none is out, and a resize that was
/// put off is applied, once, before the first that does.
pub proof fn law_one_texture_at_a_time(r: Renderer)
    ensures
        ({
            let (q, go) = r.gated();
            &&& go.proceed <==> r.frames_in_flight == 0
            &&& go.configure <==> (r.frames_in_flight == 0 && r.pending_resize is Some)
            &&& go.configure ==> q.pending_resize is None && !q.gated().1.configure
            &&& !go.configure ==> q == r
            &&& q.width == r.width && q.height == r.height
        }),
{
}

/// Law: the logical size is taken on as it is, but never empty, and nothing else
/// changes.
pub proof fn law_logical_size_is_taken_on(r: Renderer, lw: u32, lh: u32)
    ensures
        ({
            let q = r.with_logical(lw, lh);
            &&& lw >= 1 ==> q.chrome_lw == lw
            &&& lh >= 1 ==> q.chrome_lh == lh
            &&& q.chrome_lw >= 1 && q.chrome_lh >= 1
            &&& q == (Renderer { chrome_lw: q.chrome_lw, chrome_lh: q.chrome_lh, ..r })
        }),
{
}

/// Law: each report of the worker gives one texture back, none where none is out,
/// and the newest report is the one that counts.
pub proof fn law_reports_give_textures_back(r: Renderer, arrived: Seq<FrameStats>)
    ensures
        ({
            let (q, latest) = r.polled(arrived);
            &&& arrived.len() <= r.frames_in_flight ==> q.frames_in_flight + arrived.len()
                == r.frames_in_flight
            &&& arrived.len() > r.frames_in_flight ==> q.frames_in_flight == 0
            &&& arrived.len() == 0 ==> latest is None && q == r
            &&& arrived.len() > 0 ==> latest == Some(arrived.last()) && q.last_present_stats
                == arrived.last()
            &&& q.width == r.width && q.height == r.height && q.sent == r.sent && q.pending_resize
                == r.pending_resize
        }),
{
}

/// Law: a texture is asked for again only after the surface was configured, at most
/// twice in a frame; one that cannot be had is given up at once.
pub proof fn law_stale_surface_is_configured_again(
    got: Acquired,
    retries: u32,
    width: u32,
    height: u32,
)
    ensures
        ({
            let step = acquire_judgement(got, retries, width, height);
            let fits = got == (Acquired::Texture { width, height });
            &&& got is Unavailable ==> step is Skip
            &&& !(got is Unavailable) && !fits ==> (step is Reconfigure <==> retries < 2)
            &&& step is Skip <==> got is Unavailable || (!fits && retries >= 2)
        }),
{
}

/// Law: a page layer reaches the worker with its own size, its own generation and
/// its own place. Its pixels go along, all of them, unless they need not and the
/// worker was last given exactly those.
pub proof fn law_upload_is_handed_over_as_it_is(
    r: Renderer,
    pixels: Seq<u8>,
    width: u32,
    height: u32,
    generation: u64,
    dst: (u32, u32, u32, u32),
    skip: bool,
)
    ensures
        ({
            let u = r.prepared(pixels, width, height, generation, dst, skip);
            let has = r.sent is Some && r.sent->0 == (width, height, generation);
            &&& u.width == width && u.height == height
            &&& u.generation == generation
            &&& u.dst_rect == dst
            &&& u.pixels is None <==> skip && has
            &&& u.pixels is Some ==> u.pixels->0 == pixels
        }),
{
}

/// Law: a frame counts as submitted, and its texture as out, exactly where the
/// worker took it; what it was given pixels of is remembered. A frame that was not
/// taken changes nothing.
pub proof fn law_only_an_accepted_frame_is_submitted(
    r: Renderer,
    d: Delivery,
    osr: Option<(u32, u32, u64, bool)>,
)
    ensures
        ({
            let (q, submitted) = r.offered(d, osr);
            &&& submitted is Yes <==> d is Accepted
            &&& !(d is Accepted) ==> q == r
            &&& d is Accepted ==> q.frames_in_flight == 1
            &&& d is Accepted && osr is Some && (osr->0).3 && (osr->0).0 > 0 && (osr->0).1 > 0
                ==> q.sent == Some(((osr->0).0, (osr->0).1, (osr->0).2))
            &&& osr is None || !(osr->0).3 || (osr->0).0 == 0 || (osr->0).1 == 0 ==> q.sent == r.sent
            &&& q == (Renderer { frames_in_flight: q.frames_in_flight, sent: q.sent, ..r })
        }),
{
}

/// Law: the worker is waited for exactly where it has given every texture back.
pub proof fn law_busy_worker_is_let_go(r: Renderer, drained: u32)
    ensures
        r.parting(drained) is Join <==> r.frames_in_flight <= drained,
{
}

/// Law: the worker draws a page layer at the layer's own size, in a texture that is
/// allocated anew exactly where there is none of that size, and takes its pixels
/// over exactly where it does not hold that generation. A layer of no size is left
/// out; the chrome's texture is allocated anew exactly where its size changed.
pub proof fn law_worker_holds_what_it_draws(
    s: WorkerState,
    width: u32,
    height: u32,
    lw: u32,
    lh: u32,
    w: u32,
    h: u32,
    g: u64,
)
    requires
        w > 0,
        h > 0,
        g != u64::MAX,
    ensures
        ({
            let (t, step) = s.received(width, height, lw, lh, Some((w, h, g)));
            let (none, left_out) = s.received(width, height, lw, lh, None);
            let fits = s.osr is Some && s.osr->0.width == w && s.osr->0.height == h;
            &&& t.width == width && t.height == height && t.chrome_lw == lw && t.chrome_lh == lh
            &&& t.osr == Some(OsrTexture { width: w, height: h, last_generation: g })
            &&& step.osr is Some
            &&& step.osr->0.allocate <==> !fits
            &&& step.osr->0.upload <==> !(fits && s.osr->0.last_generation == g)
            &&& step.reallocate_chrome <==> (lw != s.chrome_lw || lh != s.chrome_lh)
            &&& left_out.osr is None && none.osr == s.osr
            &&& s.received(width, height, lw, lh, Some((0, h, g))).1.osr is None
            &&& s.received(width, height, lw, lh, Some((w, 0, g))).1.osr is None
        }),
{
}

/// Law: the model of an upload shows each part of it.
pub proof fn law_uploads_are_seen_whole(x: OsrUploadOwned)
    ensures
        x@.width == x.width,
        x@.height == x.height,
        x@.generation == x.generation,
        x@.dst_rect == x.dst_rect,
        x@.pixels is Some <==> x.pixels is Some,
        x.pixels is Some ==> x@.pixels->0 == x.pixels->0@,
{
}

} // verus!
