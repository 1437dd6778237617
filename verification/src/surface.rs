//! Swapchain negotiation: the policy that turns what a presentation surface
//! reports (formats, present modes, capability bounds) into the fixed
//! configuration of a render target set.

use vstd::prelude::*;

verus! {

/// A pixel format as reported by the presentation surface.
#[derive(Clone, Copy, PartialEq, Eq, Structural, Debug)]
pub enum PixelFormat {
    /// 8 bits per channel, red first, sRGB transfer.
    R8G8B8A8Srgb,
    /// 8 bits per channel, blue first, sRGB transfer.
    B8G8R8A8Srgb,
    /// 8 bits per channel, red first, linear transfer.
    R8G8B8A8Unorm,
    /// 8 bits per channel, blue first, linear transfer.
    B8G8R8A8Unorm,
    /// 10-bit color channels, linear transfer.
    A2B10G10R10Unorm,
    /// Any format the policy does not distinguish.
    Other,
}

/// A color space as reported by the presentation surface.
#[derive(Clone, Copy, PartialEq, Eq, Structural, Debug)]
pub enum ColorSpace {
    SrgbNonlinear,
    ExtendedSrgbLinear,
    Other,
}

/// One (format, color space) pair offered by the surface.
#[derive(Clone, Copy, PartialEq, Eq, Structural, Debug)]
pub struct SurfaceFormat {
    pub format: PixelFormat,
    pub color_space: ColorSpace,
}

/// A presentation mode offered by the surface.
#[derive(Clone, Copy, PartialEq, Eq, Structural, Debug)]
pub enum PresentMode {
    Immediate,
    Mailbox,
    Fifo,
    FifoRelaxed,
}

/// A width and height in pixels.
#[derive(Clone, Copy, PartialEq, Eq, Structural, Debug)]
pub struct Extent2D {
    pub width: u32,
    pub height: u32,
}

/// The capability bounds a surface reports: image-count bounds, the current
/// extent (`width == u32::MAX` is the sentinel for "client decides"), and
/// the extent bounds that apply when the client decides.
#[derive(Clone, Copy, PartialEq, Eq, Structural, Debug)]
pub struct SurfaceCaps {
    pub min_image_count: u32,
    /// Zero means unbounded.
    pub max_image_count: u32,
    pub current_extent: Extent2D,
    pub min_image_extent: Extent2D,
    pub max_image_extent: Extent2D,
}

/// Whether a surface format is an 8-bit-per-channel, sRGB-encoded format:
/// the format the selection policy prefers.
pub open spec fn is_preferred_format(f: SurfaceFormat) -> bool {
    &&& (f.format == PixelFormat::R8G8B8A8Srgb || f.format == PixelFormat::B8G8R8A8Srgb)
    &&& f.color_space == ColorSpace::SrgbNonlinear
}

/// Whether some offered format is preferred.
pub open spec fn has_preferred_format(s: Seq<SurfaceFormat>) -> bool {
    exists|i: int| 0 <= i < s.len() && is_preferred_format(s[i])
}

/// What the format policy owes: the first preferred (8-bit sRGB) format in
/// the offered order, or the first offered format if none is preferred.
pub open spec fn format_choice_ok(s: Seq<SurfaceFormat>, r: SurfaceFormat) -> bool {
    if has_preferred_format(s) {
        exists|i: int|
            0 <= i < s.len() && #[trigger] is_preferred_format(s[i]) && (forall|j: int|
                0 <= j < i ==> !is_preferred_format(s[j])) && r == s[i]
    } else {
        s.len() > 0 && r == s[0]
    }
}

/// Pick the target format: the first preferred (8-bit sRGB) format in the
/// offered order, or the first offered format if none is preferred.
pub fn choose_surface_format(formats: &Vec<SurfaceFormat>) -> (r: SurfaceFormat)
    requires
        formats@.len() > 0,
    ensures
        format_choice_ok(formats@, r),
{
    let n: usize = formats.len();
    let mut i: usize = 0;
    while i < n
        invariant
            n == formats@.len(),
            0 <= i <= n,
            forall|j: int| 0 <= j < i ==> !is_preferred_format(formats@[j]),
        decreases n - i,
    {
        let f = formats[i];
        if (f.format == PixelFormat::R8G8B8A8Srgb || f.format == PixelFormat::B8G8R8A8Srgb)
            && f.color_space == ColorSpace::SrgbNonlinear
        {
            assert(is_preferred_format(formats@[i as int]));
            return f;
        }
        i = i + 1;
    }
    formats[0]
}

/// Whether some offered mode equals the low-latency, non-tearing mode.
pub open spec fn has_mailbox(s: Seq<PresentMode>) -> bool {
    exists|i: int| 0 <= i < s.len() && s[i] == PresentMode::Mailbox
}

/// The present mode the policy picks from an offered list.
pub open spec fn spec_chosen_present_mode(s: Seq<PresentMode>) -> PresentMode {
    if has_mailbox(s) {
        PresentMode::Mailbox
    } else {
        PresentMode::Fifo
    }
}

/// Pick the present mode: the low-latency, non-tearing mode if offered,
/// else the mode every surface is guaranteed to support.
pub fn choose_present_mode(modes: &Vec<PresentMode>) -> (r: PresentMode)
    ensures
        r == spec_chosen_present_mode(modes@),
{
    let n: usize = modes.len();
    let mut i: usize = 0;
    while i < n
        invariant
            n == modes@.len(),
            0 <= i <= n,
            forall|j: int| 0 <= j < i ==> modes@[j] != PresentMode::Mailbox,
        decreases n - i,
    {
        if modes[i] == PresentMode::Mailbox {
            assert(has_mailbox(modes@));
            return PresentMode::Mailbox;
        }
        i = i + 1;
    }
    assert(!has_mailbox(modes@));
    PresentMode::Fifo
}

/// A value clamped into `[lo, hi]` (for `lo <= hi`).
pub open spec fn spec_clamp(x: int, lo: int, hi: int) -> int {
    if x < lo {
        lo
    } else if x > hi {
        hi
    } else {
        x
    }
}

/// Whether the surface reports the "client decides" sentinel in place of a
/// fixed current extent.
pub open spec fn extent_is_undefined(caps: SurfaceCaps) -> bool {
    caps.current_extent.width == u32::MAX
}

/// The extent the policy picks: the surface's current extent verbatim, or
/// the requested logical size clamped into the surface's bounds when the
/// surface leaves the choice to the client.
pub open spec fn spec_chosen_extent(caps: SurfaceCaps, window_width: u32, window_height: u32) -> Extent2D {
    if !extent_is_undefined(caps) {
        caps.current_extent
    } else {
        Extent2D {
            width: spec_clamp(
                window_width as int,
                caps.min_image_extent.width as int,
                caps.max_image_extent.width as int,
            ) as u32,
            height: spec_clamp(
                window_height as int,
                caps.min_image_extent.height as int,
                caps.max_image_extent.height as int,
            ) as u32,
        }
    }
}

/// Whether the extent bounds are ordered; clamping is meaningful only then.
pub open spec fn extent_bounds_wf(caps: SurfaceCaps) -> bool {
    &&& caps.min_image_extent.width <= caps.max_image_extent.width
    &&& caps.min_image_extent.height <= caps.max_image_extent.height
}

/// Pick the target extent per the stated policy.
pub fn choose_extent(caps: &SurfaceCaps, window_width: u32, window_height: u32) -> (r: Extent2D)
    requires
        extent_is_undefined(*caps) ==> extent_bounds_wf(*caps),
    ensures
        r == spec_chosen_extent(*caps, window_width, window_height),
{
    if caps.current_extent.width != u32::MAX {
        caps.current_extent
    } else {
        let width: u32 = if window_width < caps.min_image_extent.width {
            caps.min_image_extent.width
        } else if window_width > caps.max_image_extent.width {
            caps.max_image_extent.width
        } else {
            window_width
        };
        let height: u32 = if window_height < caps.min_image_extent.height {
            caps.min_image_extent.height
        } else if window_height > caps.max_image_extent.height {
            caps.max_image_extent.height
        } else {
            window_height
        };
        Extent2D { width, height }
    }
}

/// The image count the policy requests: one above the driver minimum,
/// capped at the driver maximum when that maximum is bounded.
pub open spec fn spec_chosen_image_count(caps: SurfaceCaps) -> int {
    if caps.max_image_count > 0 && caps.min_image_count + 1 > caps.max_image_count {
        caps.max_image_count as int
    } else {
        caps.min_image_count as int + 1
    }
}

/// Pick the image count per the stated policy.
pub fn choose_image_count(caps: &SurfaceCaps) -> (r: u32)
    requires
        caps.min_image_count < u32::MAX,
    ensures
        r as int == spec_chosen_image_count(*caps),
{
    let mut count: u32 = caps.min_image_count + 1;
    if caps.max_image_count > 0 && count > caps.max_image_count {
        count = caps.max_image_count;
    }
    count
}

/// Why a render target set could not be negotiated.
#[derive(Clone, Copy, PartialEq, Eq, Structural, Debug)]
pub enum NegotiateError {
    /// The surface reported no capable formats.
    NoFormats,
    /// The surface reported no present modes.
    NoPresentModes,
    /// The chosen image count cannot satisfy the driver's reported bounds.
    ImageCountUnsatisfiable,
}

/// The fixed configuration of one generation of presentable images: all
/// images share the negotiated format and extent. A format or extent change
/// replaces the whole set; there is no in-place resize.
#[derive(Clone, Copy, PartialEq, Eq, Structural, Debug)]
pub struct RenderTargetSet {
    pub format: SurfaceFormat,
    pub present_mode: PresentMode,
    pub extent: Extent2D,
    pub image_count: u32,
}

/// Whether the image-count bounds are impossible to satisfy: a bounded
/// maximum below the minimum.
pub open spec fn image_count_unsatisfiable(caps: SurfaceCaps) -> bool {
    caps.max_image_count > 0 && caps.max_image_count < caps.min_image_count
}

impl RenderTargetSet {
    /// Negotiate a render target set from what the surface reports and the
    /// requested logical window size. Fails, in this order of checks, when
    /// the surface reports zero formats, zero present modes, or image-count
    /// bounds no count can satisfy.
    pub fn negotiate(
        formats: &Vec<SurfaceFormat>,
        present_modes: &Vec<PresentMode>,
        caps: &SurfaceCaps,
        window_width: u32,
        window_height: u32,
    ) -> (r: Result<RenderTargetSet, NegotiateError>)
        requires
            extent_is_undefined(*caps) ==> extent_bounds_wf(*caps),
            caps.min_image_count < u32::MAX,
        ensures
            (formats@.len() == 0) <==> (r == Err::<RenderTargetSet, NegotiateError>(
                NegotiateError::NoFormats,
            )),
            (formats@.len() > 0 && present_modes@.len() == 0) <==> (r == Err::<
                RenderTargetSet,
                NegotiateError,
            >(NegotiateError::NoPresentModes)),
            (formats@.len() > 0 && present_modes@.len() > 0 && image_count_unsatisfiable(*caps))
                <==> (r == Err::<RenderTargetSet, NegotiateError>(
                NegotiateError::ImageCountUnsatisfiable,
            )),
            r matches Ok(t) ==> {
                &&& format_choice_ok(formats@, t.format)
                &&& t.present_mode == spec_chosen_present_mode(present_modes@)
                &&& t.extent == spec_chosen_extent(*caps, window_width, window_height)
                &&& t.image_count as int == spec_chosen_image_count(*caps)
                &&& t.image_count >= 1
            },
{
        if formats.len() == 0 {
            return Err(NegotiateError::NoFormats);
        }
        if present_modes.len() == 0 {
            return Err(NegotiateError::NoPresentModes);
        }
        if caps.max_image_count > 0 && caps.max_image_count < caps.min_image_count {
            return Err(NegotiateError::ImageCountUnsatisfiable);
        }
        let format = choose_surface_format(formats);
        let present_mode = choose_present_mode(present_modes);
        let extent = choose_extent(caps, window_width, window_height);
        let image_count = choose_image_count(caps);
        Ok(RenderTargetSet { format, present_mode, extent, image_count })
    }
}

} // verus!
