//! Choosing the parameters of a swapchain from what a surface can do.

use vstd::prelude::*;
use vulkano::format::Format;
use vulkano::image::ImageUsage;
use vulkano::swapchain::{ColorSpace, CompositeAlpha};
use crate::error::RenderError;

verus! {

/// The size of an image, in pixels.
#[derive(Clone, Copy, Debug, PartialEq, Eq, Structural)]
pub struct Extent {
    pub width: u32,
    pub height: u32,
}

/// Width of the swapchain images of a surface that has no size of its own.
pub const FALLBACK_WIDTH: u32 = 1024;

/// Height of the swapchain images of a surface that has no size of its own.
pub const FALLBACK_HEIGHT: u32 = 768;

/// How the images of a swapchain are handed to the display.
#[derive(Clone, Copy, Debug, PartialEq, Eq, Structural)]
pub enum PresentMode {
    /// At once, with tearing.
    Immediate,
    /// At the next vertical blank; a waiting image is replaced.
    Mailbox,
    /// At vertical blanks, first in, first out: no tearing.
    Fifo,
    /// As `Fifo`, but at once when a vertical blank was missed.
    FifoRelaxed,
}

/// How an image is turned before it is presented.
#[derive(Clone, Copy, Debug, PartialEq, Eq, Structural)]
pub enum SurfaceTransform {
    Identity,
    Rotate90,
    Rotate180,
    Rotate270,
    HorizontalMirror,
    HorizontalMirrorRotate90,
    HorizontalMirrorRotate180,
    HorizontalMirrorRotate270,
    Inherit,
}

/// What the choice of swapchain parameters reads of a surface's capabilities.
/// Formats and compositing modes stand in the order the surface reports them.
#[derive(Debug)]
pub struct SurfaceCapabilities {
    /// The least number of images a swapchain for the surface must have.
    pub min_image_count: u32,
    /// The size of the surface, unless the swapchain decides it.
    pub current_extent: Option<Extent>,
    pub supported_formats: Vec<(Format, ColorSpace)>,
    pub supported_composite_alpha: Vec<CompositeAlpha>,
    pub supported_usage_flags: ImageUsage,
}

/// The parameters a swapchain is to be created with.
#[derive(Clone, Copy, Debug, PartialEq, Eq)]
pub struct SwapchainPlan {
    pub image_count: u32,
    pub format: Format,
    pub color_space: ColorSpace,
    pub extent: Extent,
    pub layers: u32,
    pub usage: ImageUsage,
    pub transform: SurfaceTransform,
    pub composite_alpha: CompositeAlpha,
    pub present_mode: PresentMode,
    pub clipped: bool,
}

/// The extent of the images: that of the surface where it has one, else the
/// fallback.
pub open spec fn extent_for(current: Option<Extent>) -> Extent {
    match current {
        Some(extent) => extent,
        None => Extent { width: FALLBACK_WIDTH, height: FALLBACK_HEIGHT },
    }
}

/// The plan for a surface: its extent or the fallback, its first format, its
/// first compositing mode, its least image count and all its usages, one
/// layer, presented unturned and clipped, first in, first out. A surface
/// without a compositing mode or without a format has no plan.
pub open spec fn plan_for(caps: SurfaceCapabilities) -> Result<SwapchainPlan, RenderError> {
    if caps.supported_composite_alpha@.len() == 0 {
        Err(RenderError::NoCompositeAlpha)
    } else if caps.supported_formats@.len() == 0 {
        Err(RenderError::NoSurfaceFormat)
    } else {
        Ok(
            SwapchainPlan {
                image_count: caps.min_image_count,
                format: caps.supported_formats@[0].0,
                color_space: caps.supported_formats@[0].1,
                extent: extent_for(caps.current_extent),
                layers: 1,
                usage: caps.supported_usage_flags,
                transform: SurfaceTransform::Identity,
                composite_alpha: caps.supported_composite_alpha@[0],
                present_mode: PresentMode::Fifo,
                clipped: true,
            },
        )
    }
}

pub fn choose_extent(current: Option<Extent>) -> (extent: Extent)
    ensures
        extent == extent_for(current),
{
    match current {
        Some(extent) => extent,
        None => Extent { width: FALLBACK_WIDTH, height: FALLBACK_HEIGHT },
    }
}

pub fn plan_swapchain(caps: &SurfaceCapabilities) -> (plan: Result<SwapchainPlan, RenderError>)
    ensures
        plan == plan_for(*caps),
{
    if caps.supported_composite_alpha.len() == 0 {
        return Err(RenderError::NoCompositeAlpha);
    }
    if caps.supported_formats.len() == 0 {
        return Err(RenderError::NoSurfaceFormat);
    }
    let extent = choose_extent(caps.current_extent);
    Ok(
        SwapchainPlan {
            image_count: caps.min_image_count,
            format: caps.supported_formats[0].0,
            color_space: caps.supported_formats[0].1,
            extent,
            layers: 1,
            usage: caps.supported_usage_flags,
            transform: SurfaceTransform::Identity,
            composite_alpha: caps.supported_composite_alpha[0],
            present_mode: PresentMode::Fifo,
            clipped: true,
        },
    )
}

/// The plan a renderer goes by: where the caller has preset the parameters,
/// those, at the extent of the surface if it has one; else the plan for the
/// surface.
pub open spec fn resolve_plan(preset: Option<SwapchainPlan>, caps: SurfaceCapabilities) -> Result<
    SwapchainPlan,
    RenderError,
> {
    match preset {
        Some(plan) => Ok(
            SwapchainPlan {
                extent: match caps.current_extent {
                    Some(extent) => extent,
                    None => plan.extent,
                },
                ..plan
            },
        ),
        None => plan_for(caps),
    }
}

pub fn choose_plan(preset: Option<SwapchainPlan>, caps: &SurfaceCapabilities) -> (plan: Result<
    SwapchainPlan,
    RenderError,
>)
    ensures
        plan == resolve_plan(preset, *caps),
{
    match preset {
        Some(plan) => {
            let extent = match caps.current_extent {
                Some(extent) => extent,
                None => plan.extent,
            };
            Ok(
                SwapchainPlan {
                    image_count: plan.image_count,
                    format: plan.format,
                    color_space: plan.color_space,
                    extent,
                    layers: plan.layers,
                    usage: plan.usage,
                    transform: plan.transform,
                    composite_alpha: plan.composite_alpha,
                    present_mode: plan.present_mode,
                    clipped: plan.clipped,
                },
            )
        },
        None => plan_swapchain(caps),
    }
}

/// Whether a swapchain of the cached extent has gone stale for a surface that
/// now reports `current`: it has if the surface has a size and that size is
/// another one. A surface without a size of its own fits every swapchain.
pub open spec fn is_stale_for(cached: Extent, current: Option<Extent>) -> bool {
    match current {
        Some(extent) => extent != cached,
        None => false,
    }
}

pub fn extent_changed(cached: Extent, current: Option<Extent>) -> (changed: bool)
    ensures
        changed == is_stale_for(cached, current),
{
    match current {
        Some(extent) => extent.width != cached.width || extent.height != cached.height,
        None => false,
    }
}

} // verus!
