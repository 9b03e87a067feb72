use sandcastle::lifecycle::{Action, Event, Phase};
use sandcastle::materials::Color;
use sandcastle::nodes::{Image, PixelBuffer};
use sandcastle::scene::SceneGraph;
use sandcastle::swapchain::{Extent, SurfaceCapabilities};
use sandcastle::{RenderError, RenderNode, RenderResult, Renderer};
use vulkano::format::Format;
use vulkano::image::ImageUsage;
use vulkano::swapchain::{ColorSpace, CompositeAlpha};

/// A renderer without a graphics driver: the surface is a value that the
/// test changes, and every swapchain and every frame succeeds.
struct Headless {
    core: sandcastle::lifecycle::Renderer,
    surface: Option<Extent>,
    frames: usize,
}

fn capabilities(current_extent: Option<Extent>) -> SurfaceCapabilities {
    SurfaceCapabilities {
        min_image_count: 2,
        current_extent,
        supported_formats: vec![(Format::B8G8R8A8_SRGB, ColorSpace::SrgbNonLinear)],
        supported_composite_alpha: vec![CompositeAlpha::Opaque],
        supported_usage_flags: ImageUsage::COLOR_ATTACHMENT,
    }
}

impl Headless {
    fn new(surface: Option<Extent>) -> Headless {
        let mut core = sandcastle::lifecycle::Renderer::new();
        let devices = vec![sandcastle::device::PhysicalDeviceInfo {
            name: "headless".to_string(),
            ty: vulkano::device::physical::PhysicalDeviceType::Cpu,
            queue_families: vec![sandcastle::device::QueueFamilyInfo {
                supports_graphics: true,
                supports_present: true,
            }],
        }];
        assert!(matches!(core.step(Event::DevicesEnumerated(devices)), Action::CreateDevice(_)));
        assert_eq!(core.step(Event::DeviceCreated(1)), Action::QuerySurface);
        assert!(matches!(
            core.step(Event::SurfaceQueried(capabilities(surface))),
            Action::CreateSwapchain(_)
        ));
        assert_eq!(core.step(Event::SwapchainCreated), Action::Done);
        Headless { core, surface, frames: 0 }
    }
}

impl Renderer for Headless {
    fn render<N: RenderNode>(&mut self, _node: &N) -> RenderResult<()> {
        let mut action = self.core.step(Event::FrameRequested(self.surface));
        loop {
            action = match action {
                Action::QuerySurface => self.core.step(Event::SurfaceQueried(capabilities(self.surface))),
                Action::CreateSwapchain(_) => match self.core.step(Event::SwapchainCreated) {
                    Action::Done => self.core.step(Event::FrameRequested(self.surface)),
                    other => other,
                },
                Action::Draw => {
                    self.frames += 1;
                    self.core.step(Event::FramePresented)
                }
                Action::Done => return Ok(()),
                Action::Fail(error) => return Err(error),
                Action::CreateDevice(_) | Action::Release { .. } => {
                    return Err(RenderError::UnexpectedEvent)
                }
            };
        }
    }
}

#[test]
fn renderer_trait_renders_a_tree_and_follows_resizes() {
    let mut graph: SceneGraph<[i32; 2], Color> = SceneGraph::new();
    let picture = graph.add_image(Image::new(PixelBuffer::from_raw(1, 1, vec![0; 4]).unwrap()));
    let root = graph.node_ref(picture).unwrap();

    let mut renderer = Headless::new(Some(Extent { width: 800, height: 600 }));
    assert_eq!(renderer.render(&root), Ok(()));
    assert_eq!(renderer.frames, 1);
    assert_eq!(renderer.core.phase(), Phase::SwapchainReady);
    assert_eq!(renderer.core.dimensions(), Extent { width: 800, height: 600 });

    renderer.surface = Some(Extent { width: 1280, height: 720 });
    assert_eq!(renderer.render(&root), Ok(()));
    assert_eq!(renderer.frames, 2);
    assert_eq!(renderer.core.phase(), Phase::SwapchainReady);
    assert_eq!(renderer.core.dimensions(), Extent { width: 1280, height: 720 });

    assert_eq!(renderer.render(&root), Ok(()));
    assert_eq!(renderer.frames, 3);
    assert_eq!(renderer.core.dimensions(), Extent { width: 1280, height: 720 });
}
