//! The swapchain manager's decision logic as an explicit state machine.
//!
//! The presentable-image chain is rebuilt ("recreated") after a resize or a
//! stale-image condition. A resize or an out-of-date presentation result only
//! flags recreation; the next frame-begin attempt performs it, unless the
//! surface has a degenerate (zero) pixel extent, in which case recreation is
//! skipped and no frame is produced until the surface is valid again.
//! "Out of date" is never an error: the frame is silently dropped and the
//! next one proceeds normally.

use vstd::prelude::*;

verus! {

/// What the surface reported when the next image was requested. A fatal
/// acquisition error never reaches this machine: the surrounding program
/// treats it as a panic of the whole call.
#[derive(Clone, Copy, PartialEq, Eq, Debug)]
pub enum AcquireOutcome {
    /// An image was acquired.
    Acquired { image_index: u32 },
    /// The swapchain no longer matches the surface; no image this frame.
    OutOfDate,
}

/// What presenting a submitted frame reported. A failure other than
/// out-of-date drops the frame but not the session.
#[derive(Clone, Copy, PartialEq, Eq, Structural, Debug)]
pub enum PresentOutcome {
    /// The frame was presented.
    Presented,
    /// The swapchain no longer matches the surface.
    OutOfDate,
    /// Submission or presentation failed; the frame is dropped and logged.
    Failed,
}

/// The state of the previous frame's completion future.
#[derive(Clone, Copy, PartialEq, Eq, Structural, Debug)]
pub enum FrameFuture {
    /// A trivial, already completed future.
    Completed,
    /// The previous frame's submission, still owed a signal.
    Submitted,
}

/// One acquired swapchain image: ephemeral, single-use state for exactly one
/// render call.
#[derive(Clone, Copy, PartialEq, Eq, Structural, Debug)]
pub struct Frame {
    /// Whether the swapchain was recreated at the start of this frame, so
    /// dependent state must be treated as fresh.
    pub re_init: bool,
    /// Index of the acquired image, naming its framebuffer set.
    pub image_index: u32,
}

/// The mutable state of the swapchain manager.
#[derive(Clone, Copy, PartialEq, Eq, Debug)]
pub struct VulkanState {
    /// The surface's current pixel extent, as the windowing system reports
    /// it.
    pub surface_extent: (u32, u32),
    /// The extent the current swapchain and every object whose dimensions
    /// derive from it were built for.
    pub extent: (u32, u32),
    /// Number of images in the chain; fixed between recreation events.
    pub image_count: u32,
    /// Whether the next frame-begin attempt must recreate the swapchain.
    pub should_recreate: bool,
    /// The previous frame's completion future.
    pub frame_future: FrameFuture,
}

/// Whether an extent cannot back a swapchain (a minimized window).
pub open spec fn degenerate(extent: (u32, u32)) -> bool {
    extent.0 == 0 || extent.1 == 0
}

impl VulkanState {
    /// The state after recreation: every extent-dependent object is rebuilt
    /// for the surface's extent in one step, the image count is kept, and
    /// the recreation request is consumed.
    pub open spec fn recreated_spec(self) -> VulkanState {
        VulkanState {
            extent: self.surface_extent,
            should_recreate: false,
            ..self
        }
    }

    /// Whether a frame-begin attempt on this state produces a frame, given
    /// what acquisition reported.
    pub open spec fn begins_frame(self, acquire: AcquireOutcome) -> bool {
        &&& !(self.should_recreate && degenerate(self.surface_extent))
        &&& acquire is Acquired
    }

    /// The complete frame-begin transition: the state afterwards and the
    /// frame produced, if any.
    pub open spec fn begin_frame_spec(self, acquire: AcquireOutcome) -> (VulkanState, Option<
        Frame,
    >) {
        if self.should_recreate && degenerate(self.surface_extent) {
            // Recreation is pending but the surface cannot back a
            // swapchain: skip recreation, produce no frame, try again next
            // time.
            (self, None)
        } else {
            let mid = if self.should_recreate {
                self.recreated_spec()
            } else {
                self
            };
            match acquire {
                AcquireOutcome::OutOfDate => (
                    VulkanState { should_recreate: true, ..mid },
                    None,
                ),
                AcquireOutcome::Acquired { image_index } => (
                    mid,
                    Some(Frame { re_init: self.should_recreate, image_index }),
                ),
            }
        }
    }

    /// The complete frame-submit transition.
    pub open spec fn submit_frame_spec(self, present: PresentOutcome) -> VulkanState {
        match present {
            PresentOutcome::Presented => VulkanState {
                frame_future: FrameFuture::Submitted,
                ..self
            },
            PresentOutcome::OutOfDate => VulkanState {
                should_recreate: true,
                frame_future: FrameFuture::Completed,
                ..self
            },
            PresentOutcome::Failed => VulkanState {
                frame_future: FrameFuture::Completed,
                ..self
            },
        }
    }

    /// A fresh manager over a just-built swapchain.
    pub fn new(extent: (u32, u32), image_count: u32) -> (r: VulkanState)
        ensures
            r == (VulkanState {
                surface_extent: extent,
                extent,
                image_count,
                should_recreate: false,
                frame_future: FrameFuture::Completed,
            }),
    {
        VulkanState {
            surface_extent: extent,
            extent,
            image_count,
            should_recreate: false,
            frame_future: FrameFuture::Completed,
        }
    }

    /// Asks for the swapchain to be recreated at the next frame begin.
    pub fn request_recreate_swapchain(&mut self)
        ensures
            *final(self) == (VulkanState { should_recreate: true, ..*old(self) }),
    {
        self.should_recreate = true;
    }

    /// Records the surface's new pixel extent.
    pub fn set_surface_extent(&mut self, width: u32, height: u32)
        ensures
            *final(self) == (VulkanState { surface_extent: (width, height), ..*old(self) }),
    {
        self.surface_extent = (width, height);
    }

    /// Begins a frame: performs a pending recreation (unless the surface is
    /// degenerate, in which case the attempt is skipped wholesale) and turns
    /// the acquisition outcome into at most one frame. An out-of-date
    /// acquisition is not an error: it re-flags recreation and drops the
    /// frame.
    pub fn begin_frame(&mut self, acquire: AcquireOutcome) -> (r: Option<Frame>)
        ensures
            (*final(self), r) == old(self).begin_frame_spec(acquire),
            final(self).image_count == old(self).image_count,
    {
        let re_init = self.should_recreate;
        if self.should_recreate {
            if self.surface_extent.0 == 0 || self.surface_extent.1 == 0 {
                return None;
            }
            self.extent = self.surface_extent;
            self.should_recreate = false;
        }
        match acquire {
            AcquireOutcome::OutOfDate => {
                self.should_recreate = true;
                None
            },
            AcquireOutcome::Acquired { image_index } => Some(Frame { re_init, image_index }),
        }
    }

    /// Submits a frame: chains it after the previous frame's future, and
    /// absorbs an out-of-date or failed presentation by resetting the future
    /// and (for out-of-date) flagging recreation, dropping just this frame.
    pub fn submit_frame(&mut self, frame: Frame, present: PresentOutcome)
        ensures
            *final(self) == old(self).submit_frame_spec(present),
    {
        match present {
            PresentOutcome::Presented => {
                self.frame_future = FrameFuture::Submitted;
            },
            PresentOutcome::OutOfDate => {
                self.should_recreate = true;
                self.frame_future = FrameFuture::Completed;
            },
            PresentOutcome::Failed => {
                self.frame_future = FrameFuture::Completed;
            },
        }
    }
}

/// Present modes the chain may be built with, in preference order.
#[derive(Clone, Copy, PartialEq, Eq, Structural, Debug)]
pub enum PresentMode {
    Mailbox,
    Immediate,
    Fifo,
}

/// The surface formats the planner distinguishes.
#[derive(Clone, Copy, PartialEq, Eq, Structural, Debug)]
pub enum FormatTag {
    B8g8r8a8Unorm,
    Other,
}

/// The color spaces the planner distinguishes.
#[derive(Clone, Copy, PartialEq, Eq, Structural, Debug)]
pub enum ColorSpaceTag {
    ExtendedSrgbLinear,
    SrgbNonLinear,
    Other,
}

/// One supported surface format: a pixel format with a color space.
#[derive(Clone, Copy, PartialEq, Eq, Structural, Debug)]
pub struct SurfaceFormat {
    pub format: FormatTag,
    pub color_space: ColorSpaceTag,
}

/// What the surface reports about itself, as plain values.
#[derive(Clone, Copy, PartialEq, Eq, Debug)]
pub struct SurfaceCaps {
    /// The extent the surface dictates, when it dictates one.
    pub current_extent: Option<(u32, u32)>,
    /// Smallest extent the surface supports.
    pub min_image_extent: (u32, u32),
    /// Largest extent the surface supports.
    pub max_image_extent: (u32, u32),
    /// Fewest images a chain over this surface may have.
    pub min_image_count: u32,
    /// Most images a chain over this surface may have, if bounded.
    pub max_image_count: Option<u32>,
    /// Whether mailbox presentation is supported.
    pub supports_mailbox: bool,
    /// Whether immediate presentation is supported.
    pub supports_immediate: bool,
}

/// One axis of the window extent clamped into the surface's supported
/// range.
pub open spec fn clamp_axis(min: u32, max: u32, actual: u32) -> u32 {
    let capped = if max < actual {
        max
    } else {
        actual
    };
    if min > capped {
        min
    } else {
        capped
    }
}

/// The extent a new chain is built for: what the surface dictates, or else
/// the window's size clamped into the supported range.
pub open spec fn chosen_extent(caps: SurfaceCaps, window: (u32, u32)) -> (u32, u32) {
    match caps.current_extent {
        Some(extent) => extent,
        None => (
            clamp_axis(caps.min_image_extent.0, caps.max_image_extent.0, window.0),
            clamp_axis(caps.min_image_extent.1, caps.max_image_extent.1, window.1),
        ),
    }
}

/// The preferred surface format.
pub open spec fn preferred_format(f: SurfaceFormat) -> bool {
    f.format is B8g8r8a8Unorm && f.color_space is ExtendedSrgbLinear
}

/// Whether `idx` is the index format selection must return for this list:
/// the first preferred entry, or the first entry when none is preferred.
pub open spec fn is_chosen_format_index(formats: Seq<SurfaceFormat>, idx: int) -> bool {
    if exists|i: int| 0 <= i < formats.len() && preferred_format(#[trigger] formats[i]) {
        &&& 0 <= idx < formats.len()
        &&& preferred_format(formats[idx])
        &&& forall|j: int| 0 <= j < idx ==> !preferred_format(#[trigger] formats[j])
    } else {
        idx == 0
    }
}

/// The present mode a new chain prefers: mailbox, then immediate, then the
/// always-available fifo.
pub open spec fn chosen_present_mode(caps: SurfaceCaps) -> PresentMode {
    if caps.supports_mailbox {
        PresentMode::Mailbox
    } else if caps.supports_immediate {
        PresentMode::Immediate
    } else {
        PresentMode::Fifo
    }
}

/// The image count a new chain asks for: one more than the minimum, capped
/// by the maximum where the surface has one.
pub open spec fn chosen_image_count(caps: SurfaceCaps) -> u32
    recommends
        caps.min_image_count < u32::MAX,
{
    let wanted = (caps.min_image_count + 1) as u32;
    match caps.max_image_count {
        Some(max) => if wanted > max {
            max
        } else {
            wanted
        },
        None => wanted,
    }
}

/// Everything a swapchain build needs to know. On recreation the extent is
/// computed afresh while format, present mode and image count are carried
/// over from the existing chain, preserving its preferences.
#[derive(Clone, Copy, PartialEq, Eq, Debug)]
pub struct SwapChainPlan {
    /// Extent of the images.
    pub extent: (u32, u32),
    /// Index into the supported-format list.
    pub format_index: usize,
    /// Present mode.
    pub present_mode: PresentMode,
    /// Number of images.
    pub image_count: u32,
}

/// Picks the surface format for a new chain: the first preferred entry, or
/// the first entry when none is preferred.
pub fn choose_surface_format(formats: &Vec<SurfaceFormat>) -> (r: usize)
    requires
        formats@.len() > 0,
    ensures
        is_chosen_format_index(formats@, r as int),
{
    let mut i: usize = 0;
    while i < formats.len()
        invariant
            i <= formats@.len(),
            forall|j: int| 0 <= j < i ==> !preferred_format(#[trigger] formats@[j]),
        decreases formats@.len() - i,
    {
        let f = formats[i];
        if matches!(f.format, FormatTag::B8g8r8a8Unorm)
            && matches!(f.color_space, ColorSpaceTag::ExtendedSrgbLinear) {
            return i;
        }
        i = i + 1;
    }
    0
}

/// Plans a swapchain build. For a first build every choice is computed from
/// the surface's capabilities; for a recreation the existing chain's
/// format, present mode and image count are kept and only the extent is
/// computed afresh.
pub fn plan_swap_chain(
    caps: &SurfaceCaps,
    formats: &Vec<SurfaceFormat>,
    window: (u32, u32),
    previous: Option<&SwapChainPlan>,
) -> (r: SwapChainPlan)
    requires
        formats@.len() > 0,
        caps.min_image_count < u32::MAX,
    ensures
        r.extent == chosen_extent(*caps, window),
        match previous {
            Some(p) => r.format_index == p.format_index && r.present_mode == p.present_mode
                && r.image_count == p.image_count,
            None => is_chosen_format_index(formats@, r.format_index as int)
                && r.present_mode == chosen_present_mode(*caps)
                && r.image_count == chosen_image_count(*caps),
        },
{
    let extent = match caps.current_extent {
        Some(extent) => extent,
        None => {
            let capped_w = if caps.max_image_extent.0 < window.0 {
                caps.max_image_extent.0
            } else {
                window.0
            };
            let w = if caps.min_image_extent.0 > capped_w {
                caps.min_image_extent.0
            } else {
                capped_w
            };
            let capped_h = if caps.max_image_extent.1 < window.1 {
                caps.max_image_extent.1
            } else {
                window.1
            };
            let h = if caps.min_image_extent.1 > capped_h {
                caps.min_image_extent.1
            } else {
                capped_h
            };
            (w, h)
        },
    };
    match previous {
        Some(p) => SwapChainPlan {
            extent,
            format_index: p.format_index,
            present_mode: p.present_mode,
            image_count: p.image_count,
        },
        None => {
            let format_index = choose_surface_format(formats);
            let present_mode = if caps.supports_mailbox {
                PresentMode::Mailbox
            } else if caps.supports_immediate {
                PresentMode::Immediate
            } else {
                PresentMode::Fifo
            };
            let wanted = caps.min_image_count + 1;
            let image_count = match caps.max_image_count {
                Some(max) => if wanted > max {
                    max
                } else {
                    wanted
                },
                None => wanted,
            };
            SwapChainPlan { extent, format_index, present_mode, image_count }
        },
    }
}

/// Recreation safety: while a recreation is pending and the surface extent
/// is degenerate, frame-begin produces no frame and leaves the pending
/// request in place; once the surface reports a valid extent again, the very
/// next frame-begin with a successful acquisition recreates the chain for
/// that extent and produces a frame.
pub proof fn lemma_recreation_safety(
    st: VulkanState,
    zero_extent: (u32, u32),
    valid_extent: (u32, u32),
    acquire: AcquireOutcome,
)
    requires
        st.should_recreate,
        degenerate(zero_extent),
        !degenerate(valid_extent),
        acquire is Acquired,
    ensures
        ({
            let shrunk = VulkanState { surface_extent: zero_extent, ..st };
            let (after_zero, frame_zero) = shrunk.begin_frame_spec(acquire);
            let grown = VulkanState { surface_extent: valid_extent, ..after_zero };
            let (after_valid, frame_valid) = grown.begin_frame_spec(acquire);
            &&& frame_zero is None
            &&& after_zero == shrunk
            &&& frame_valid is Some
            &&& after_valid.extent == valid_extent
            &&& !after_valid.should_recreate
        }),
{
}

} // verus!
