use vulkan_frames::surface::ColorSpace;
use vulkan_frames::surface::Extent2D;
use vulkan_frames::surface::NegotiateError;
use vulkan_frames::surface::PixelFormat;
use vulkan_frames::surface::PresentMode;
use vulkan_frames::surface::RenderTargetSet;
use vulkan_frames::surface::SurfaceCaps;
use vulkan_frames::surface::SurfaceFormat;
use vulkan_frames::surface::choose_extent;
use vulkan_frames::surface::choose_image_count;
use vulkan_frames::surface::choose_present_mode;
use vulkan_frames::surface::choose_surface_format;

fn caps_with(
    min_count: u32,
    max_count: u32,
    current: Extent2D,
    min_extent: Extent2D,
    max_extent: Extent2D,
) -> SurfaceCaps {
    SurfaceCaps {
        min_image_count: min_count,
        max_image_count: max_count,
        current_extent: current,
        min_image_extent: min_extent,
        max_image_extent: max_extent,
    }
}

fn plain_caps() -> SurfaceCaps {
    caps_with(
        2,
        0,
        Extent2D { width: 1280, height: 720 },
        Extent2D { width: 1, height: 1 },
        Extent2D { width: 4096, height: 4096 },
    )
}

#[test]
fn first_eight_bit_srgb_format_wins_in_listed_order() {
    // Two 8-bit sRGB candidates: the first listed must win, so the
    // second is *not* chosen even though it matches the preference too.
    let formats = vec![
        SurfaceFormat { format: PixelFormat::R8G8B8A8Srgb, color_space: ColorSpace::SrgbNonlinear },
        SurfaceFormat { format: PixelFormat::B8G8R8A8Srgb, color_space: ColorSpace::SrgbNonlinear },
    ];
    let chosen = choose_surface_format(&formats);
    assert_eq!(chosen.format, PixelFormat::R8G8B8A8Srgb);
    assert_eq!(chosen.color_space, ColorSpace::SrgbNonlinear);
    assert_ne!(chosen.format, PixelFormat::B8G8R8A8Srgb);
}

#[test]
fn format_falls_back_to_first_reported() {
    // No 8-bit sRGB pair offered: the deterministic fallback is the
    // first reported format, not any "best" guess.
    let formats = vec![
        SurfaceFormat {
            format: PixelFormat::A2B10G10R10Unorm,
            color_space: ColorSpace::SrgbNonlinear,
        },
        SurfaceFormat { format: PixelFormat::R8G8B8A8Unorm, color_space: ColorSpace::SrgbNonlinear },
    ];
    let chosen = choose_surface_format(&formats);
    assert_eq!(chosen.format, PixelFormat::A2B10G10R10Unorm);
}

#[test]
fn srgb_format_outside_srgb_color_space_is_not_preferred() {
    let formats = vec![
        SurfaceFormat {
            format: PixelFormat::B8G8R8A8Srgb,
            color_space: ColorSpace::ExtendedSrgbLinear,
        },
        SurfaceFormat { format: PixelFormat::B8G8R8A8Srgb, color_space: ColorSpace::SrgbNonlinear },
    ];
    let chosen = choose_surface_format(&formats);
    assert_eq!(chosen.color_space, ColorSpace::SrgbNonlinear);
}

#[test]
fn mailbox_wins_when_offered() {
    let modes = vec![PresentMode::Fifo, PresentMode::Mailbox, PresentMode::Immediate];
    assert_eq!(choose_present_mode(&modes), PresentMode::Mailbox);
}

#[test]
fn fifo_is_the_fallback_mode() {
    let modes = vec![PresentMode::Immediate, PresentMode::FifoRelaxed];
    assert_eq!(choose_present_mode(&modes), PresentMode::Fifo);
}

#[test]
fn oversized_window_clamps_to_surface_maximum() {
    // Surface bounds min {1,1}, max {4096,4096}, current extent left to
    // the client: a requested 10000 x 10000 clamps to 4096 x 4096.
    let caps = caps_with(
        2,
        0,
        Extent2D { width: u32::MAX, height: u32::MAX },
        Extent2D { width: 1, height: 1 },
        Extent2D { width: 4096, height: 4096 },
    );
    let extent = choose_extent(&caps, 10000, 10000);
    assert_eq!(extent, Extent2D { width: 4096, height: 4096 });
}

#[test]
fn undersized_window_clamps_to_surface_minimum() {
    let caps = caps_with(
        2,
        0,
        Extent2D { width: u32::MAX, height: u32::MAX },
        Extent2D { width: 32, height: 32 },
        Extent2D { width: 4096, height: 4096 },
    );
    let extent = choose_extent(&caps, 0, 10);
    assert_eq!(extent, Extent2D { width: 32, height: 32 });
}

#[test]
fn defined_surface_extent_is_used_verbatim() {
    let caps = plain_caps();
    let extent = choose_extent(&caps, 10000, 10000);
    assert_eq!(extent, Extent2D { width: 1280, height: 720 });
}

#[test]
fn image_count_is_one_above_minimum_when_unbounded() {
    let caps = caps_with(
        2,
        0,
        Extent2D { width: 640, height: 480 },
        Extent2D { width: 1, height: 1 },
        Extent2D { width: 4096, height: 4096 },
    );
    assert_eq!(choose_image_count(&caps), 3);
}

#[test]
fn image_count_is_capped_at_bounded_maximum() {
    let caps = caps_with(
        2,
        2,
        Extent2D { width: 640, height: 480 },
        Extent2D { width: 1, height: 1 },
        Extent2D { width: 4096, height: 4096 },
    );
    assert_eq!(choose_image_count(&caps), 2);
}

#[test]
fn negotiate_rejects_zero_formats() {
    let formats: Vec<SurfaceFormat> = vec![];
    let modes = vec![PresentMode::Fifo];
    let r = RenderTargetSet::negotiate(&formats, &modes, &plain_caps(), 1280, 720);
    assert_eq!(r, Err(NegotiateError::NoFormats));
}

#[test]
fn negotiate_rejects_zero_present_modes() {
    let formats = vec![
        SurfaceFormat { format: PixelFormat::B8G8R8A8Srgb, color_space: ColorSpace::SrgbNonlinear },
    ];
    let modes: Vec<PresentMode> = vec![];
    let r = RenderTargetSet::negotiate(&formats, &modes, &plain_caps(), 1280, 720);
    assert_eq!(r, Err(NegotiateError::NoPresentModes));
}

#[test]
fn negotiate_rejects_impossible_image_count_bounds() {
    let formats = vec![
        SurfaceFormat { format: PixelFormat::B8G8R8A8Srgb, color_space: ColorSpace::SrgbNonlinear },
    ];
    let modes = vec![PresentMode::Fifo];
    let caps = caps_with(
        4,
        2,
        Extent2D { width: 640, height: 480 },
        Extent2D { width: 1, height: 1 },
        Extent2D { width: 4096, height: 4096 },
    );
    let r = RenderTargetSet::negotiate(&formats, &modes, &caps, 640, 480);
    assert_eq!(r, Err(NegotiateError::ImageCountUnsatisfiable));
}

#[test]
fn negotiate_assembles_the_full_configuration() {
    let formats = vec![
        SurfaceFormat {
            format: PixelFormat::A2B10G10R10Unorm,
            color_space: ColorSpace::SrgbNonlinear,
        },
        SurfaceFormat { format: PixelFormat::B8G8R8A8Srgb, color_space: ColorSpace::SrgbNonlinear },
    ];
    let modes = vec![PresentMode::Fifo, PresentMode::Mailbox];
    let caps = plain_caps();
    let t = RenderTargetSet::negotiate(&formats, &modes, &caps, 1280, 720).unwrap();
    assert_eq!(t.format.format, PixelFormat::B8G8R8A8Srgb);
    assert_eq!(t.present_mode, PresentMode::Mailbox);
    assert_eq!(t.extent, Extent2D { width: 1280, height: 720 });
    assert_eq!(t.image_count, 3);
}
