use roast::swapchain::{
    plan_swap_chain, AcquireOutcome, ColorSpaceTag, FormatTag, FrameFuture, PresentMode,
    PresentOutcome, SurfaceCaps, SurfaceFormat, SwapChainPlan, VulkanState,
};

fn caps() -> SurfaceCaps {
    SurfaceCaps {
        current_extent: None,
        min_image_extent: (1, 1),
        max_image_extent: (4096, 4096),
        min_image_count: 2,
        max_image_count: Some(3),
        supports_mailbox: false,
        supports_immediate: false,
    }
}

#[test]
fn resize_to_zero_then_valid_recovers() {
    // Resize to zero: recreation is requested but skipped, no frame comes
    // out, and the request stays pending. Resize to a valid extent: the
    // next frame-begin recreates for it and produces a frame.
    let mut state = VulkanState::new((800, 600), 3);

    state.set_surface_extent(0, 0);
    state.request_recreate_swapchain();
    let acquire = AcquireOutcome::Acquired { image_index: 0 };

    let frame = state.begin_frame(acquire);
    assert!(frame.is_none());
    assert!(state.should_recreate);
    assert_eq!(state.extent, (800, 600));

    // Still degenerate: still no frames.
    let frame = state.begin_frame(acquire);
    assert!(frame.is_none());

    state.set_surface_extent(1024, 768);
    state.request_recreate_swapchain();
    let frame = state.begin_frame(acquire).expect("a frame once the surface is valid");
    assert!(frame.re_init);
    assert_eq!(state.extent, (1024, 768));
    assert!(!state.should_recreate);
    assert_eq!(state.image_count, 3);
}

#[test]
fn out_of_date_acquire_is_not_an_error() {
    let mut state = VulkanState::new((800, 600), 2);
    let frame = state.begin_frame(AcquireOutcome::OutOfDate);
    assert!(frame.is_none());
    assert!(state.should_recreate);

    // The next attempt recreates and succeeds.
    let frame = state.begin_frame(AcquireOutcome::Acquired { image_index: 1 });
    let frame = frame.expect("a frame after recreation");
    assert!(frame.re_init);
    assert_eq!(frame.image_index, 1);
}

#[test]
fn out_of_date_present_flags_recreation_and_resets_future() {
    let mut state = VulkanState::new((800, 600), 2);
    let frame = state.begin_frame(AcquireOutcome::Acquired { image_index: 0 }).unwrap();
    state.submit_frame(frame, PresentOutcome::Presented);
    assert_eq!(state.frame_future, FrameFuture::Submitted);
    assert!(!state.should_recreate);

    let frame = state.begin_frame(AcquireOutcome::Acquired { image_index: 1 }).unwrap();
    state.submit_frame(frame, PresentOutcome::OutOfDate);
    assert!(state.should_recreate);
    assert_eq!(state.frame_future, FrameFuture::Completed);
}

#[test]
fn failed_present_drops_frame_but_not_session() {
    let mut state = VulkanState::new((640, 480), 2);
    let frame = state.begin_frame(AcquireOutcome::Acquired { image_index: 0 }).unwrap();
    state.submit_frame(frame, PresentOutcome::Failed);
    assert_eq!(state.frame_future, FrameFuture::Completed);
    assert!(!state.should_recreate);
}

#[test]
fn plan_uses_dictated_extent_or_clamps_window() {
    let formats = vec![SurfaceFormat {
        format: FormatTag::Other,
        color_space: ColorSpaceTag::SrgbNonLinear,
    }];

    let mut dictated = caps();
    dictated.current_extent = Some((1920, 1080));
    let plan = plan_swap_chain(&dictated, &formats, (555, 555), None);
    assert_eq!(plan.extent, (1920, 1080));

    let free = caps();
    let plan = plan_swap_chain(&free, &formats, (8000, 0), None);
    assert_eq!(plan.extent, (4096, 1));
}

#[test]
fn plan_prefers_mailbox_then_immediate_then_fifo() {
    let formats = vec![SurfaceFormat {
        format: FormatTag::B8g8r8a8Unorm,
        color_space: ColorSpaceTag::ExtendedSrgbLinear,
    }];

    let mut c = caps();
    c.supports_mailbox = true;
    c.supports_immediate = true;
    assert_eq!(plan_swap_chain(&c, &formats, (1, 1), None).present_mode, PresentMode::Mailbox);
    c.supports_mailbox = false;
    assert_eq!(plan_swap_chain(&c, &formats, (1, 1), None).present_mode, PresentMode::Immediate);
    c.supports_immediate = false;
    assert_eq!(plan_swap_chain(&c, &formats, (1, 1), None).present_mode, PresentMode::Fifo);
}

#[test]
fn plan_clamps_image_count() {
    let formats = vec![SurfaceFormat {
        format: FormatTag::Other,
        color_space: ColorSpaceTag::Other,
    }];

    // min 2, max 3: wants 3, allowed.
    assert_eq!(plan_swap_chain(&caps(), &formats, (1, 1), None).image_count, 3);

    // min 3, max 3: wants 4, capped at 3.
    let mut c = caps();
    c.min_image_count = 3;
    assert_eq!(plan_swap_chain(&c, &formats, (1, 1), None).image_count, 3);

    // Unbounded: wants min + 1.
    let mut c = caps();
    c.max_image_count = None;
    c.min_image_count = 5;
    assert_eq!(plan_swap_chain(&c, &formats, (1, 1), None).image_count, 6);
}

#[test]
fn plan_picks_first_preferred_format_or_first() {
    let preferred = SurfaceFormat {
        format: FormatTag::B8g8r8a8Unorm,
        color_space: ColorSpaceTag::ExtendedSrgbLinear,
    };
    let other = SurfaceFormat { format: FormatTag::Other, color_space: ColorSpaceTag::SrgbNonLinear };

    let formats = vec![other, preferred, preferred];
    assert_eq!(plan_swap_chain(&caps(), &formats, (1, 1), None).format_index, 1);

    let formats = vec![other, other];
    assert_eq!(plan_swap_chain(&caps(), &formats, (1, 1), None).format_index, 0);
}

#[test]
fn recreation_keeps_chain_preferences() {
    let formats = vec![SurfaceFormat {
        format: FormatTag::Other,
        color_space: ColorSpaceTag::Other,
    }];
    let existing = SwapChainPlan {
        extent: (100, 100),
        format_index: 7,
        present_mode: PresentMode::Mailbox,
        image_count: 4,
    };
    let mut c = caps();
    c.current_extent = Some((250, 250));
    let plan = plan_swap_chain(&c, &formats, (1, 1), Some(&existing));
    assert_eq!(plan.extent, (250, 250));
    assert_eq!(plan.format_index, 7);
    assert_eq!(plan.present_mode, PresentMode::Mailbox);
    assert_eq!(plan.image_count, 4);
}
