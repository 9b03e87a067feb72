use sandcastle::device::{PhysicalDeviceInfo, Priority, QueueFamilyInfo, Selection};
use sandcastle::lifecycle::{
    release_order, Action, DeviceRequest, Event, Phase, Renderer, RendererConfig, Resource,
};
use sandcastle::swapchain::{
    plan_swapchain, Extent, PresentMode, SurfaceCapabilities, SwapchainPlan,
};
use sandcastle::RenderError;
use vulkano::device::physical::PhysicalDeviceType;
use vulkano::format::Format;
use vulkano::image::ImageUsage;
use vulkano::swapchain::{ColorSpace, CompositeAlpha};

fn devices() -> Vec<PhysicalDeviceInfo> {
    vec![
        PhysicalDeviceInfo {
            name: "llvmpipe".to_string(),
            ty: PhysicalDeviceType::Cpu,
            queue_families: vec![QueueFamilyInfo { supports_graphics: true, supports_present: false }],
        },
        PhysicalDeviceInfo {
            name: "Radiant 9000".to_string(),
            ty: PhysicalDeviceType::DiscreteGpu,
            queue_families: vec![
                QueueFamilyInfo { supports_graphics: false, supports_present: true },
                QueueFamilyInfo { supports_graphics: true, supports_present: true },
            ],
        },
    ]
}

fn surface(width: u32, height: u32) -> SurfaceCapabilities {
    let mut caps = unsized_surface();
    caps.current_extent = Some(Extent { width, height });
    caps
}

fn unsized_surface() -> SurfaceCapabilities {
    SurfaceCapabilities {
        min_image_count: 2,
        current_extent: None,
        supported_formats: vec![(Format::B8G8R8A8_SRGB, ColorSpace::SrgbNonLinear)],
        supported_composite_alpha: vec![CompositeAlpha::Opaque],
        supported_usage_flags: ImageUsage::COLOR_ATTACHMENT,
    }
}

fn with_device() -> Renderer {
    let mut renderer = Renderer::new();
    assert!(matches!(renderer.step(Event::DevicesEnumerated(devices())), Action::CreateDevice(_)));
    assert_eq!(renderer.step(Event::DeviceCreated(1)), Action::QuerySurface);
    renderer
}

fn ready(caps: SurfaceCapabilities) -> Renderer {
    let mut renderer = with_device();
    assert!(matches!(renderer.step(Event::SurfaceQueried(caps)), Action::CreateSwapchain(_)));
    assert_eq!(renderer.step(Event::SwapchainCreated), Action::Done);
    renderer
}

fn same_state(a: &Renderer, b: &Renderer) -> bool {
    a.phase() == b.phase()
        && a.dimensions() == b.dimensions()
        && a.selection() == b.selection()
        && a.swapchain() == b.swapchain()
        && a.device_name() == b.device_name()
        && a.device_type() == b.device_type()
}

#[test]
fn new_renderer_has_chosen_nothing() {
    let renderer = Renderer::new();
    assert_eq!(renderer.phase(), Phase::Uninitialized);
    assert_eq!(renderer.selection(), None);
    assert_eq!(renderer.swapchain(), None);
    assert_eq!(renderer.device_name(), None);
    assert_eq!(renderer.device_type(), None);
}

#[test]
fn construction_goes_through_the_states_in_order() {
    let mut renderer = Renderer::new();
    let action = renderer.step(Event::DevicesEnumerated(devices()));
    assert_eq!(
        action,
        Action::CreateDevice(DeviceRequest {
            device: 1,
            queue_family: 1,
            priority: Priority::half(),
            swapchain_extension: true,
        })
    );
    assert_eq!(renderer.phase(), Phase::DeviceSelected);
    assert_eq!(renderer.selection(), Some(Selection { device: 1, queue_family: 1 }));
    assert_eq!(renderer.device_name().map(|name| name.as_str()), Some("Radiant 9000"));
    assert_eq!(renderer.device_type(), Some(PhysicalDeviceType::DiscreteGpu));

    assert_eq!(renderer.step(Event::DeviceCreated(1)), Action::QuerySurface);
    assert_eq!(renderer.phase(), Phase::DeviceReady);

    let action = renderer.step(Event::SurfaceQueried(surface(800, 600)));
    match action {
        Action::CreateSwapchain(plan) => {
            assert_eq!(plan.extent, Extent { width: 800, height: 600 });
            assert_eq!(plan.present_mode, PresentMode::Fifo);
            assert_eq!(plan.image_count, 2);
        }
        other => panic!("expected a swapchain to be asked for, got {:?}", other),
    }
    assert_eq!(renderer.phase(), Phase::DeviceReady);
    assert_eq!(renderer.swapchain(), None);

    assert_eq!(renderer.step(Event::SwapchainCreated), Action::Done);
    assert_eq!(renderer.phase(), Phase::SwapchainReady);
    assert_eq!(renderer.dimensions(), Extent { width: 800, height: 600 });
    assert_eq!(renderer.swapchain().map(|plan| plan.extent), Some(Extent { width: 800, height: 600 }));
}

#[test]
fn default_configuration_leaves_everything_open() {
    let config = RendererConfig::new();
    assert_eq!(config.physical, None);
    assert_eq!(config.swapchain, None);
    assert_eq!(f32::from_bits(config.priority.bits()), 0.5);
    assert_eq!(Renderer::new().config(), config);
    assert_eq!(config.build().phase(), Phase::Uninitialized);
}

#[test]
fn caller_chosen_priority_is_requested() {
    let mut config = RendererConfig::new();
    config.priority = Priority::from_bits(0.75f32.to_bits()).unwrap();
    let mut renderer = config.build();
    match renderer.step(Event::DevicesEnumerated(devices())) {
        Action::CreateDevice(request) => {
            assert_eq!(f32::from_bits(request.priority.bits()), 0.75);
            assert!(request.swapchain_extension);
        }
        other => panic!("expected a device to be asked for, got {:?}", other),
    }
}

#[test]
fn caller_chosen_device_overrides_the_selection() {
    let mut listed = devices();
    listed.push(PhysicalDeviceInfo {
        name: "Second".to_string(),
        ty: PhysicalDeviceType::IntegratedGpu,
        queue_families: vec![QueueFamilyInfo { supports_graphics: true, supports_present: true }],
    });
    let mut config = RendererConfig::new();
    config.physical = Some(Selection { device: 2, queue_family: 0 });
    let mut renderer = config.build();
    match renderer.step(Event::DevicesEnumerated(listed)) {
        Action::CreateDevice(request) => {
            assert_eq!((request.device, request.queue_family), (2, 0));
        }
        other => panic!("expected a device to be asked for, got {:?}", other),
    }
    assert_eq!(renderer.selection(), Some(Selection { device: 2, queue_family: 0 }));
    assert_eq!(renderer.device_name().map(|name| name.as_str()), Some("Second"));
    assert_eq!(renderer.device_type(), Some(PhysicalDeviceType::IntegratedGpu));
}

#[test]
fn caller_chosen_device_must_be_usable() {
    let outcomes = [
        (Selection { device: 5, queue_family: 0 }, RenderError::NoPhysicalDevice),
        (Selection { device: 2, queue_family: 0 }, RenderError::NoPhysicalDevice),
        (Selection { device: 1, queue_family: 0 }, RenderError::NoQueueFamily),
        (Selection { device: 1, queue_family: 2 }, RenderError::NoQueueFamily),
        (Selection { device: 0, queue_family: 0 }, RenderError::NoQueueFamily),
    ];
    for (selection, error) in outcomes {
        let mut config = RendererConfig::new();
        config.physical = Some(selection);
        let mut renderer = config.build();
        assert_eq!(renderer.step(Event::DevicesEnumerated(devices())), Action::Fail(error));
        assert_eq!(renderer.phase(), Phase::Destroyed);
    }
}

fn mailbox_plan() -> SwapchainPlan {
    let mut plan = plan_swapchain(&surface(333, 444)).unwrap();
    plan.present_mode = PresentMode::Mailbox;
    plan.image_count = 3;
    plan.format = Format::R8G8B8A8_UNORM;
    plan
}

#[test]
fn caller_chosen_swapchain_overrides_the_plan() {
    let mut config = RendererConfig::new();
    config.swapchain = Some(mailbox_plan());
    let mut renderer = config.build();
    renderer.step(Event::DevicesEnumerated(devices()));
    renderer.step(Event::DeviceCreated(1));
    let mut expected = mailbox_plan();
    expected.extent = Extent { width: 800, height: 600 };
    assert_eq!(
        renderer.step(Event::SurfaceQueried(surface(800, 600))),
        Action::CreateSwapchain(expected)
    );
    assert_eq!(renderer.step(Event::SwapchainCreated), Action::Done);
    assert_eq!(renderer.dimensions(), Extent { width: 800, height: 600 });
    assert_eq!(renderer.swapchain(), Some(expected));
    // a surface without formats does not matter to a preset plan
    renderer.step(Event::SurfaceResized);
    let mut bare = surface(640, 480);
    bare.supported_formats.clear();
    expected.extent = Extent { width: 640, height: 480 };
    assert_eq!(renderer.step(Event::SurfaceQueried(bare)), Action::CreateSwapchain(expected));
}

#[test]
fn preset_extent_counts_on_a_surface_without_one() {
    let mut config = RendererConfig::new();
    config.swapchain = Some(mailbox_plan());
    let mut renderer = config.build();
    renderer.step(Event::DevicesEnumerated(devices()));
    renderer.step(Event::DeviceCreated(1));
    assert_eq!(
        renderer.step(Event::SurfaceQueried(unsized_surface())),
        Action::CreateSwapchain(mailbox_plan())
    );
    renderer.step(Event::SwapchainCreated);
    assert_eq!(renderer.dimensions(), Extent { width: 333, height: 444 });
}

#[test]
fn renderer_on_unsized_surface_selects_fallback_extent() {
    let renderer = ready(unsized_surface());
    assert_eq!(renderer.phase(), Phase::SwapchainReady);
    assert_eq!(renderer.dimensions(), Extent { width: 1024, height: 768 });
}

#[test]
fn renderer_uses_reported_extent() {
    let renderer = ready(surface(800, 600));
    assert_eq!(renderer.dimensions(), Extent { width: 800, height: 600 });
}

#[test]
fn resize_mid_loop_goes_stale_then_ready_at_new_extent() {
    let mut renderer = ready(surface(800, 600));
    let resized = Extent { width: 1280, height: 720 };

    assert_eq!(renderer.step(Event::FrameRequested(Some(resized))), Action::QuerySurface);
    assert_eq!(renderer.phase(), Phase::Stale);
    assert_eq!(renderer.dimensions(), Extent { width: 800, height: 600 });

    match renderer.step(Event::SurfaceQueried(surface(1280, 720))) {
        Action::CreateSwapchain(plan) => assert_eq!(plan.extent, resized),
        other => panic!("expected a swapchain to be asked for, got {:?}", other),
    }
    assert_eq!(renderer.step(Event::SwapchainCreated), Action::Done);
    assert_eq!(renderer.phase(), Phase::SwapchainReady);
    assert_eq!(renderer.dimensions(), resized);

    assert_eq!(renderer.step(Event::FrameRequested(Some(resized))), Action::Draw);
    assert_eq!(renderer.phase(), Phase::Rendering);
    assert_eq!(renderer.step(Event::FramePresented), Action::Done);
    assert_eq!(renderer.phase(), Phase::SwapchainReady);
}

#[test]
fn zero_devices_fail_construction_for_good() {
    let mut renderer = Renderer::new();
    let action = renderer.step(Event::DevicesEnumerated(Vec::new()));
    assert_eq!(action, Action::Fail(RenderError::NoPhysicalDevice));
    assert!(RenderError::NoPhysicalDevice.is_fatal());
    assert!(!RenderError::NoPhysicalDevice.is_retryable());
    assert_eq!(renderer.phase(), Phase::Destroyed);
    assert_eq!(
        renderer.step(Event::DevicesEnumerated(devices())),
        Action::Fail(RenderError::UnexpectedEvent)
    );
    assert_eq!(renderer.phase(), Phase::Destroyed);
}

#[test]
fn devices_without_queue_family_fail_construction() {
    let mut renderer = Renderer::new();
    let mut listed = devices();
    listed.truncate(1);
    assert_eq!(
        renderer.step(Event::DevicesEnumerated(listed)),
        Action::Fail(RenderError::NoQueueFamily)
    );
    assert_eq!(renderer.phase(), Phase::Destroyed);
}

#[test]
fn rejected_device_fails_construction() {
    let mut renderer = Renderer::new();
    renderer.step(Event::DevicesEnumerated(devices()));
    assert_eq!(renderer.step(Event::DeviceRejected), Action::Fail(RenderError::DeviceCreationFailed));
    assert_eq!(renderer.phase(), Phase::Destroyed);
    assert!(RenderError::DeviceCreationFailed.is_fatal());
}

#[test]
fn device_without_queue_fails_construction() {
    let mut renderer = Renderer::new();
    renderer.step(Event::DevicesEnumerated(devices()));
    assert_eq!(renderer.step(Event::DeviceCreated(0)), Action::Fail(RenderError::DeviceCreationFailed));
    assert_eq!(renderer.phase(), Phase::Destroyed);
}

#[test]
fn failed_surface_query_can_be_retried() {
    let mut renderer = with_device();
    assert_eq!(
        renderer.step(Event::SurfaceQueryFailed),
        Action::Fail(RenderError::SurfaceCapabilitiesUnavailable)
    );
    assert!(RenderError::SurfaceCapabilitiesUnavailable.is_retryable());
    assert_eq!(renderer.phase(), Phase::DeviceReady);
    assert_eq!(renderer.step(Event::FrameRequested(None)), Action::QuerySurface);
    assert!(matches!(renderer.step(Event::SurfaceQueried(surface(320, 200))), Action::CreateSwapchain(_)));
    assert_eq!(renderer.step(Event::SwapchainCreated), Action::Done);
    assert_eq!(renderer.phase(), Phase::SwapchainReady);
    assert_eq!(renderer.dimensions(), Extent { width: 320, height: 200 });
}

#[test]
fn rejected_swapchain_can_be_retried() {
    let mut renderer = with_device();
    renderer.step(Event::SurfaceQueried(surface(640, 480)));
    assert_eq!(
        renderer.step(Event::SwapchainRejected),
        Action::Fail(RenderError::SwapchainCreationFailed)
    );
    assert!(RenderError::SwapchainCreationFailed.is_retryable());
    assert_eq!(renderer.phase(), Phase::DeviceReady);
    assert_eq!(renderer.swapchain(), None);
    // Nothing is pending any more: a creation out of the blue is refused.
    assert_eq!(renderer.step(Event::SwapchainCreated), Action::Fail(RenderError::UnexpectedEvent));
    renderer.step(Event::SurfaceQueried(surface(640, 480)));
    assert_eq!(renderer.step(Event::SwapchainCreated), Action::Done);
    assert_eq!(renderer.phase(), Phase::SwapchainReady);
}

#[test]
fn surface_without_formats_is_reported_and_recoverable() {
    let mut renderer = with_device();
    let mut caps = surface(640, 480);
    caps.supported_formats.clear();
    assert_eq!(renderer.step(Event::SurfaceQueried(caps)), Action::Fail(RenderError::NoSurfaceFormat));
    assert_eq!(renderer.phase(), Phase::DeviceReady);
    let mut caps = surface(640, 480);
    caps.supported_composite_alpha.clear();
    assert_eq!(renderer.step(Event::SurfaceQueried(caps)), Action::Fail(RenderError::NoCompositeAlpha));
    assert_eq!(renderer.phase(), Phase::DeviceReady);
}

#[test]
fn ready_render_succeeds_and_stays_ready() {
    let mut renderer = ready(surface(800, 600));
    let before = ready(surface(800, 600));
    for current in [None, Some(Extent { width: 800, height: 600 })] {
        assert_eq!(renderer.step(Event::FrameRequested(current)), Action::Draw);
        assert_eq!(renderer.phase(), Phase::Rendering);
        assert_eq!(renderer.step(Event::FramePresented), Action::Done);
        assert!(same_state(&renderer, &before));
    }
}

#[test]
fn out_of_date_frame_turns_the_renderer_stale() {
    let mut renderer = ready(surface(800, 600));
    assert_eq!(renderer.step(Event::FrameRequested(None)), Action::Draw);
    assert_eq!(renderer.step(Event::FrameOutOfDate), Action::Fail(RenderError::SwapchainOutOfDate));
    assert!(RenderError::SwapchainOutOfDate.is_retryable());
    assert_eq!(renderer.phase(), Phase::Stale);
    assert_eq!(renderer.step(Event::FrameRequested(None)), Action::QuerySurface);
    renderer.step(Event::SurfaceQueried(surface(800, 600)));
    assert_eq!(renderer.step(Event::SwapchainCreated), Action::Done);
    assert_eq!(renderer.step(Event::FrameRequested(None)), Action::Draw);
    assert_eq!(renderer.step(Event::FramePresented), Action::Done);
    assert_eq!(renderer.phase(), Phase::SwapchainReady);
}

#[test]
fn failed_frame_leaves_the_renderer_ready() {
    let mut renderer = ready(surface(800, 600));
    let before = ready(surface(800, 600));
    assert_eq!(renderer.step(Event::FrameRequested(None)), Action::Draw);
    assert_eq!(renderer.step(Event::FrameFailed), Action::Fail(RenderError::FrameFailed));
    assert!(RenderError::FrameFailed.is_retryable());
    assert!(same_state(&renderer, &before));
}

#[test]
fn repeated_resizes_end_like_a_single_creation() {
    let mut renderer = ready(surface(800, 600));
    for (width, height) in [(640, 480), (1920, 1080), (10, 10), (1280, 720)] {
        assert_eq!(renderer.step(Event::SurfaceResized), Action::QuerySurface);
        assert_eq!(renderer.phase(), Phase::Stale);
        renderer.step(Event::SurfaceQueried(surface(width, height)));
        renderer.step(Event::SwapchainCreated);
    }
    // the same extent once more
    renderer.step(Event::SurfaceResized);
    renderer.step(Event::SurfaceQueried(surface(1280, 720)));
    renderer.step(Event::SwapchainCreated);
    let single = ready(surface(1280, 720));
    assert!(same_state(&renderer, &single));
    assert_eq!(renderer.dimensions(), Extent { width: 1280, height: 720 });
}

#[test]
fn resizes_that_fail_on_the_way_do_not_show_in_the_end() {
    let mut renderer = ready(surface(800, 600));
    renderer.step(Event::SurfaceResized);
    assert_eq!(renderer.step(Event::SurfaceQueryFailed), Action::Fail(RenderError::SurfaceCapabilitiesUnavailable));
    renderer.step(Event::SurfaceResized);
    renderer.step(Event::SurfaceQueried(surface(300, 300)));
    assert_eq!(renderer.step(Event::SwapchainRejected), Action::Fail(RenderError::SwapchainCreationFailed));
    assert_eq!(renderer.phase(), Phase::Stale);
    renderer.step(Event::SurfaceResized);
    renderer.step(Event::SurfaceQueried(surface(1280, 720)));
    assert_eq!(renderer.step(Event::SwapchainCreated), Action::Done);
    assert!(same_state(&renderer, &ready(surface(1280, 720))));
}

#[test]
fn events_out_of_place_are_refused_and_change_nothing() {
    let mut renderer = Renderer::new();
    for event in [
        Event::DeviceCreated(1),
        Event::DeviceRejected,
        Event::SurfaceQueried(surface(1, 1)),
        Event::SurfaceQueryFailed,
        Event::SwapchainCreated,
        Event::SwapchainRejected,
        Event::SurfaceResized,
        Event::FrameRequested(None),
        Event::FramePresented,
        Event::FrameOutOfDate,
        Event::FrameFailed,
    ] {
        assert_eq!(renderer.step(event), Action::Fail(RenderError::UnexpectedEvent));
        assert_eq!(renderer.phase(), Phase::Uninitialized);
    }
    let mut renderer = ready(surface(800, 600));
    for event in [
        Event::DevicesEnumerated(devices()),
        Event::DeviceCreated(1),
        Event::SurfaceQueried(surface(1, 1)),
        Event::SwapchainCreated,
        Event::FramePresented,
    ] {
        assert_eq!(renderer.step(event), Action::Fail(RenderError::UnexpectedEvent));
        assert!(same_state(&renderer, &ready(surface(800, 600))));
    }
    assert!(!RenderError::UnexpectedEvent.is_retryable());
    assert!(!RenderError::UnexpectedEvent.is_fatal());
}

#[test]
fn dropping_releases_what_exists() {
    let mut renderer = Renderer::new();
    assert_eq!(renderer.step(Event::Dropped), Action::Release { swapchain: false, device: false });
    assert_eq!(renderer.phase(), Phase::Destroyed);
    assert_eq!(renderer.step(Event::Dropped), Action::Done);

    let mut renderer = with_device();
    assert_eq!(renderer.step(Event::Dropped), Action::Release { swapchain: false, device: true });

    let mut renderer = ready(surface(800, 600));
    assert_eq!(renderer.step(Event::Dropped), Action::Release { swapchain: true, device: true });
    assert_eq!(renderer.phase(), Phase::Destroyed);
    assert_eq!(renderer.swapchain(), None);
    assert_eq!(renderer.step(Event::FrameRequested(None)), Action::Fail(RenderError::UnexpectedEvent));
}

#[test]
fn teardown_runs_against_construction() {
    assert_eq!(
        release_order(true, true),
        vec![
            Resource::SwapchainImages,
            Resource::Swapchain,
            Resource::Queue,
            Resource::Device,
            Resource::Surface,
            Resource::Instance,
        ]
    );
    assert_eq!(
        release_order(false, true),
        vec![Resource::Queue, Resource::Device, Resource::Surface, Resource::Instance]
    );
    assert_eq!(release_order(false, false), vec![Resource::Surface, Resource::Instance]);
    assert_eq!(
        release_order(true, false),
        vec![Resource::SwapchainImages, Resource::Swapchain, Resource::Surface, Resource::Instance]
    );
}
