use vulkan_frames::mock::MockDevice;
use vulkan_frames::mock::ScriptedFailure;
use vulkan_frames::pass::ImageLayout;
use vulkan_frames::pass::PassDescriptor;
use vulkan_frames::recorder::BufferState;
use vulkan_frames::recorder::DrawIntent;
use vulkan_frames::recorder::PipelineId;
use vulkan_frames::recorder::fixed_clear_color;
use vulkan_frames::renderer::FrameError;
use vulkan_frames::renderer::Renderer;
use vulkan_frames::slots::FrameSlotPool;
use vulkan_frames::surface::ColorSpace;
use vulkan_frames::surface::Extent2D;
use vulkan_frames::surface::PixelFormat;
use vulkan_frames::surface::PresentMode;
use vulkan_frames::surface::RenderTargetSet;
use vulkan_frames::surface::SurfaceCaps;
use vulkan_frames::surface::SurfaceFormat;
use vulkan_frames::teardown::ResourceKind;
use vulkan_frames::teardown::TeardownError;
use vulkan_frames::teardown::destroy_pool;
use vulkan_frames::teardown::teardown_order;

fn targets(image_count: u32) -> RenderTargetSet {
    RenderTargetSet {
        format: SurfaceFormat {
            format: PixelFormat::B8G8R8A8Srgb,
            color_space: ColorSpace::SrgbNonlinear,
        },
        present_mode: PresentMode::Fifo,
        extent: Extent2D { width: 1280, height: 720 },
        image_count,
    }
}

fn renderer_with(slots: usize, image_count: u32) -> (Renderer, MockDevice) {
    let pool = FrameSlotPool::new(slots).unwrap();
    let renderer = Renderer::new(
        pool,
        targets(image_count),
        PipelineId { raw: 1 },
        DrawIntent { vertex_count: 3, instance_count: 1 },
        fixed_clear_color(),
    );
    let dev = MockDevice::new(slots, image_count);
    (renderer, dev)
}

#[test]
fn a_slow_device_blocks_the_fourth_frame_until_the_first_completes() {
    // Three slots, a device that never signals on its own: three frames
    // submit, the fourth blocks on slot 0's fence, and completes only
    // after the first frame's fence is signaled.
    let (mut r, mut dev) = renderer_with(3, 3);
    dev.auto_complete = false;

    for _ in 0..3 {
        r.on_redraw(&mut dev).unwrap();
    }
    assert_eq!(r.counter, 3);

    let blocked = r.on_redraw(&mut dev);
    assert_eq!(blocked, Err(FrameError::WouldBlock));
    assert_eq!(r.counter, 3, "a blocked call must not advance the counter");

    let still_blocked = r.on_redraw(&mut dev);
    assert_eq!(still_blocked, Err(FrameError::WouldBlock));

    dev.signal_fence(0);
    let report = r.on_redraw(&mut dev).unwrap();
    assert_eq!(report.slot, 0);
    assert_eq!(r.counter, 4);
}

#[test]
fn at_most_one_submission_per_slot_is_outstanding() {
    let (mut r, mut dev) = renderer_with(3, 3);
    dev.auto_complete = false;
    for _ in 0..3 {
        r.on_redraw(&mut dev).unwrap();
    }
    // Every slot now holds exactly one outstanding submission.
    let outstanding = dev.fences.iter().filter(|signaled| !**signaled).count();
    assert_eq!(outstanding, 3);
    for i in 0..3 {
        assert_eq!(r.pool.command_buffer(i).state, BufferState::Pending);
    }
    // Nothing further can raise it above the slot count.
    assert_eq!(r.on_redraw(&mut dev), Err(FrameError::WouldBlock));
    let outstanding = dev.fences.iter().filter(|signaled| !**signaled).count();
    assert_eq!(outstanding, 3);
}

#[test]
fn counter_advances_by_one_per_redraw_despite_suboptimal_reports() {
    let (mut r, mut dev) = renderer_with(3, 3);
    dev.auto_complete = true;
    dev.suboptimal_acquire = true;
    dev.suboptimal_present = true;

    for expected in 1..=5u64 {
        let report = r.on_redraw(&mut dev).unwrap();
        assert!(report.suboptimal_acquire);
        assert!(report.suboptimal_present);
        assert_eq!(r.counter, expected, "exactly one advance per call");
    }
}

#[test]
fn slot_visitation_follows_counter_modulo_slot_count() {
    // Three slots, seven completed redraws: slots 0,1,2,0,1,2,0.
    let (mut r, mut dev) = renderer_with(3, 3);
    dev.auto_complete = true;

    let mut visited = Vec::new();
    for _ in 0..7 {
        visited.push(r.on_redraw(&mut dev).unwrap().slot);
    }
    assert_eq!(visited, vec![0, 1, 2, 0, 1, 2, 0]);
}

#[test]
fn images_are_acquired_round_robin() {
    let (mut r, mut dev) = renderer_with(2, 3);
    dev.auto_complete = true;
    let mut images = Vec::new();
    for _ in 0..4 {
        images.push(r.on_redraw(&mut dev).unwrap().image_index);
    }
    assert_eq!(images, vec![0, 1, 2, 0]);
}

#[test]
fn out_of_date_acquire_is_fatal_and_abandons_the_frame() {
    let (mut r, mut dev) = renderer_with(3, 3);
    dev.auto_complete = true;
    dev.fail_acquire = Some(ScriptedFailure::OutOfDate);
    assert_eq!(r.on_redraw(&mut dev), Err(FrameError::OutOfDate));
    assert_eq!(r.counter, 0);
}

#[test]
fn device_error_on_acquire_is_device_loss() {
    let (mut r, mut dev) = renderer_with(3, 3);
    dev.fail_acquire = Some(ScriptedFailure::DeviceError);
    assert_eq!(r.on_redraw(&mut dev), Err(FrameError::DeviceLost));
    assert_eq!(r.counter, 0);
}

#[test]
fn present_failure_is_fatal_and_does_not_advance_the_counter() {
    let (mut r, mut dev) = renderer_with(3, 3);
    dev.auto_complete = true;
    r.on_redraw(&mut dev).unwrap();
    dev.fail_present = Some(ScriptedFailure::OutOfDate);
    assert_eq!(r.on_redraw(&mut dev), Err(FrameError::OutOfDate));
    assert_eq!(r.counter, 1);
    dev.fail_present = Some(ScriptedFailure::DeviceError);
    assert_eq!(r.on_redraw(&mut dev), Err(FrameError::DeviceLost));
    assert_eq!(r.counter, 1);
}

#[test]
fn destroying_the_pool_before_the_idle_barrier_is_flagged() {
    let (mut r, mut dev) = renderer_with(3, 3);
    dev.auto_complete = true;
    r.on_redraw(&mut dev).unwrap();

    // Work has been submitted and no idle barrier has run since.
    assert!(!dev.idle_done);
    let pool = r.pool.clone();
    assert_eq!(destroy_pool(pool, &dev), Err(TeardownError::IdleBarrierMissing));

    // The shutdown path runs the barrier; teardown is then permitted.
    r.on_shutdown(&mut dev);
    assert!(dev.idle_done);
    for i in 0..3 {
        assert_ne!(r.pool.command_buffer(i).state, BufferState::Pending);
    }
    assert_eq!(destroy_pool(r.pool, &dev), Ok(()));
}

#[test]
fn teardown_order_reverses_construction() {
    assert_eq!(
        teardown_order(),
        vec![
            ResourceKind::CommandBuffers,
            ResourceKind::SyncPrimitives,
            ResourceKind::TargetViews,
            ResourceKind::TargetImages,
            ResourceKind::PassDescriptor,
        ]
    );
}

#[test]
fn end_to_end_negotiation_and_first_frames_with_a_mock_device() {
    // The surface reports two 8-bit sRGB pairs and only the guaranteed
    // present mode. The policy must take the first listed pair — the
    // blue-first pair is offered and must NOT be chosen — then the loop
    // runs frames against the negotiated configuration.
    let formats = vec![
        SurfaceFormat { format: PixelFormat::R8G8B8A8Srgb, color_space: ColorSpace::SrgbNonlinear },
        SurfaceFormat { format: PixelFormat::B8G8R8A8Srgb, color_space: ColorSpace::SrgbNonlinear },
    ];
    let modes = vec![PresentMode::Fifo];
    let caps = SurfaceCaps {
        min_image_count: 2,
        max_image_count: 0,
        current_extent: Extent2D { width: 1280, height: 720 },
        min_image_extent: Extent2D { width: 1, height: 1 },
        max_image_extent: Extent2D { width: 4096, height: 4096 },
    };
    let t = RenderTargetSet::negotiate(&formats, &modes, &caps, 1280, 720).unwrap();
    assert_eq!(t.format.format, PixelFormat::R8G8B8A8Srgb);
    assert_ne!(t.format.format, PixelFormat::B8G8R8A8Srgb);
    assert_eq!(t.present_mode, PresentMode::Fifo);
    assert_eq!(t.image_count, 3);

    let pass = PassDescriptor::for_format(t.format);
    assert_eq!(pass.attachment.final_layout, ImageLayout::Presentable);

    let pool = FrameSlotPool::new(t.image_count as usize).unwrap();
    let mut r = Renderer::new(
        pool,
        t,
        PipelineId { raw: 1 },
        DrawIntent { vertex_count: 3, instance_count: 1 },
        fixed_clear_color(),
    );
    let mut dev = MockDevice::new(3, t.image_count);
    dev.auto_complete = true;
    for expected in 1..=3u64 {
        let report = r.on_redraw(&mut dev).unwrap();
        assert!(!report.suboptimal_acquire);
        assert_eq!(r.counter, expected);
    }
    r.on_shutdown(&mut dev);
    assert_eq!(destroy_pool(r.pool, &dev), Ok(()));
}
