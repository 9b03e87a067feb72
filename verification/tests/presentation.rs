use sandcastle::lifecycle::Event;
use sandcastle::presentation::{
    continue_after, poll_flags, resize_event, LoopFlags, Turn, WindowEvent,
};
use sandcastle::RenderError;

#[test]
fn quiet_turn_renders_without_resize() {
    let flags = poll_flags(&vec![WindowEvent::Other, WindowEvent::Other]);
    assert_eq!(flags, LoopFlags { recreate_swapchain: false, done: false });
    assert_eq!(flags.turn(), Turn::Render { resized: false });
    assert_eq!(poll_flags(&Vec::new()), LoopFlags::new());
}

#[test]
fn resize_asks_for_a_new_swapchain() {
    let flags = poll_flags(&vec![WindowEvent::Other, WindowEvent::Resized(1280, 720)]);
    assert_eq!(flags, LoopFlags { recreate_swapchain: true, done: false });
    assert_eq!(flags.turn(), Turn::Render { resized: true });
    assert!(matches!(resize_event(flags.turn()), Some(Event::SurfaceResized)));
    assert!(resize_event(Turn::Render { resized: false }).is_none());
    assert!(resize_event(Turn::Exit).is_none());
}

#[test]
fn close_ends_the_loop_whatever_else_happened() {
    let flags = poll_flags(&vec![
        WindowEvent::Resized(10, 10),
        WindowEvent::Closed,
        WindowEvent::Other,
    ]);
    assert_eq!(flags, LoopFlags { recreate_swapchain: true, done: true });
    assert_eq!(flags.turn(), Turn::Exit);
    assert_eq!(poll_flags(&vec![WindowEvent::Closed]).turn(), Turn::Exit);
}

#[test]
fn flags_are_gathered_event_by_event() {
    let mut flags = LoopFlags::new();
    flags.observe(WindowEvent::Other);
    assert_eq!(flags, LoopFlags { recreate_swapchain: false, done: false });
    flags.observe(WindowEvent::Resized(1, 2));
    assert_eq!(flags, LoopFlags { recreate_swapchain: true, done: false });
    flags.observe(WindowEvent::Other);
    assert_eq!(flags, LoopFlags { recreate_swapchain: true, done: false });
    flags.observe(WindowEvent::Closed);
    assert_eq!(flags, LoopFlags { recreate_swapchain: true, done: true });
}

#[test]
fn loop_goes_on_after_recoverable_errors_only() {
    assert!(continue_after(Ok(())));
    for error in [
        RenderError::SurfaceCapabilitiesUnavailable,
        RenderError::NoSurfaceFormat,
        RenderError::NoCompositeAlpha,
        RenderError::SwapchainCreationFailed,
        RenderError::SwapchainOutOfDate,
        RenderError::FrameFailed,
    ] {
        assert!(continue_after(Err(error)));
    }
    for error in [
        RenderError::NoPhysicalDevice,
        RenderError::NoQueueFamily,
        RenderError::DeviceCreationFailed,
        RenderError::UnexpectedEvent,
    ] {
        assert!(!continue_after(Err(error)));
    }
}
