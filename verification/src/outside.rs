//! Types of other crates that values of this library carry with them.
//!
//! Nothing is known of what is inside a value of one of these types: the
//! library stores such values and hands them back unchanged.

use vstd::prelude::*;

verus! {

/// `vulkano::device::physical::PhysicalDeviceType`, the kind of a physical device.
#[verifier::external_type_specification]
#[verifier::external_body]
pub struct ExPhysicalDeviceType(vulkano::device::physical::PhysicalDeviceType);

/// `vulkano::format::Format`, the layout of the texels of an image.
#[verifier::external_type_specification]
#[verifier::external_body]
pub struct ExFormat(vulkano::format::Format);

/// `vulkano::swapchain::ColorSpace`, how the texels of a presented image are read.
#[verifier::external_type_specification]
#[verifier::external_body]
pub struct ExColorSpace(vulkano::swapchain::ColorSpace);

/// `vulkano::swapchain::CompositeAlpha`, how a presented image is blended with
/// what lies behind the window.
#[verifier::external_type_specification]
#[verifier::external_body]
pub struct ExCompositeAlpha(vulkano::swapchain::CompositeAlpha);

/// `vulkano::image::ImageUsage`, the set of uses an image is allowed for.
#[verifier::external_type_specification]
#[verifier::external_body]
pub struct ExImageUsage(vulkano::image::ImageUsage);

/// `image::Rgba`, a colour with an alpha channel.
#[verifier::external_type_specification]
#[verifier::external_body]
#[verifier::reject_recursive_types(T)]
pub struct ExRgba<T>(image::Rgba<T>);

} // verus!
