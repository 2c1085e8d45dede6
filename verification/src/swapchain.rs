//! Swapchain creation parameters derived from what a surface reports.
//!
//! The surface's capabilities are held as plain values. The parameters take
//! the first supported format and composite alpha mode, the reported extent
//! (1280x1024 where the surface leaves it open), the minimum image count and
//! FIFO presentation.

use crate::error::SetupError;
use vstd::prelude::*;

verus! {

/// Swapchain width used when the surface reports no extent.
pub const FALLBACK_SWAPCHAIN_WIDTH: u32 = 1280;

/// Swapchain height used when the surface reports no extent.
pub const FALLBACK_SWAPCHAIN_HEIGHT: u32 = 1024;

/// Number of array layers of each swapchain image.
pub const SWAPCHAIN_LAYERS: u32 = 1;

/// Width and height of a surface or image, in pixels.
#[derive(Clone, Copy, Debug, PartialEq, Eq, Structural)]
pub struct Extent {
    pub width: u32,
    pub height: u32,
}

/// A pixel format, by its Vulkan format code.
#[derive(Clone, Copy, Debug, PartialEq, Eq, Structural)]
pub struct Format {
    pub code: u32,
}

/// How the alpha channel of the presented image is treated.
#[derive(Clone, Copy, Debug, PartialEq, Eq, Structural)]
pub enum CompositeAlpha {
    Opaque,
    PreMultiplied,
    PostMultiplied,
    Inherit,
}

/// Which composite alpha modes a surface supports.
#[derive(Clone, Copy, Debug, PartialEq, Eq, Structural)]
pub struct SupportedCompositeAlpha {
    pub opaque: bool,
    pub pre_multiplied: bool,
    pub post_multiplied: bool,
    pub inherit: bool,
}

/// A transformation applied to the image before it is shown.
#[derive(Clone, Copy, Debug, PartialEq, Eq, Structural)]
pub enum SurfaceTransform {
    Identity,
    Rotate90,
    Rotate180,
    Rotate270,
    HorizontalMirror,
    HorizontalMirrorRotate90,
    HorizontalMirrorRotate180,
    HorizontalMirrorRotate270,
    Inherit,
}

/// What an image may be used for.
#[derive(Clone, Copy, Debug, PartialEq, Eq, Structural)]
pub struct ImageUsage {
    pub transfer_source: bool,
    pub transfer_destination: bool,
    pub sampled: bool,
    pub storage: bool,
    pub color_attachment: bool,
    pub depth_stencil_attachment: bool,
    pub transient_attachment: bool,
    pub input_attachment: bool,
}

/// How presented images reach the screen.
#[derive(Clone, Copy, Debug, PartialEq, Eq, Structural)]
pub enum PresentMode {
    Immediate,
    Mailbox,
    Fifo,
    Relaxed,
}

/// What a surface reports about the swapchains it can be given.
#[derive(Clone, Debug, PartialEq, Eq)]
pub struct SurfaceCapabilities {
    /// Minimum number of images a swapchain must have.
    pub min_image_count: u32,
    /// Current extent of the surface; `None` where the swapchain decides it.
    pub current_extent: Option<Extent>,
    /// Transform the surface currently uses.
    pub current_transform: SurfaceTransform,
    /// Composite alpha modes the surface supports.
    pub supported_composite_alpha: SupportedCompositeAlpha,
    /// Usages the surface supports for swapchain images.
    pub supported_usage_flags: ImageUsage,
    /// Formats the surface supports, in the order it lists them.
    pub supported_formats: Vec<Format>,
}

/// The parameters a swapchain is created with.
#[derive(Clone, Copy, Debug, PartialEq, Eq, Structural)]
pub struct SwapchainParams {
    pub image_count: u32,
    pub format: Format,
    pub dimensions: Extent,
    pub layers: u32,
    pub usage: ImageUsage,
    pub transform: SurfaceTransform,
    pub alpha: CompositeAlpha,
    pub present_mode: PresentMode,
    pub clipped: bool,
}

/// The swapchain extent for a surface whose reported extent is `current`.
pub open spec fn swapchain_extent_of(current: Option<Extent>) -> Extent {
    match current {
        Some(extent) => extent,
        None => Extent { width: FALLBACK_SWAPCHAIN_WIDTH, height: FALLBACK_SWAPCHAIN_HEIGHT },
    }
}

/// The first supported mode in the order opaque, pre-multiplied,
/// post-multiplied, inherit; `None` where none is supported.
pub open spec fn first_listed_alpha(supported: SupportedCompositeAlpha) -> Option<CompositeAlpha> {
    if supported.opaque {
        Some(CompositeAlpha::Opaque)
    } else if supported.pre_multiplied {
        Some(CompositeAlpha::PreMultiplied)
    } else if supported.post_multiplied {
        Some(CompositeAlpha::PostMultiplied)
    } else if supported.inherit {
        Some(CompositeAlpha::Inherit)
    } else {
        None
    }
}

/// The parameters derived from `capabilities`, or the reason none can be.
pub open spec fn swapchain_params_of(capabilities: SurfaceCapabilities) -> Result<
    SwapchainParams,
    SetupError,
> {
    match first_listed_alpha(capabilities.supported_composite_alpha) {
        None => Err(SetupError::NoCompositeAlpha),
        Some(alpha) => if capabilities.supported_formats@.len() == 0 {
            Err(SetupError::NoSurfaceFormat)
        } else {
            Ok(
                SwapchainParams {
                    image_count: capabilities.min_image_count,
                    format: capabilities.supported_formats@[0],
                    dimensions: swapchain_extent_of(capabilities.current_extent),
                    layers: SWAPCHAIN_LAYERS,
                    usage: capabilities.supported_usage_flags,
                    transform: capabilities.current_transform,
                    alpha,
                    present_mode: PresentMode::Fifo,
                    clipped: true,
                },
            )
        },
    }
}

/// Picks the reported extent, or 1280x1024 when the surface leaves it open.
pub fn swapchain_extent(current: Option<Extent>) -> (extent: Extent)
    ensures
        extent == swapchain_extent_of(current),
{
    match current {
        Some(extent) => extent,
        None => Extent { width: FALLBACK_SWAPCHAIN_WIDTH, height: FALLBACK_SWAPCHAIN_HEIGHT },
    }
}

/// The first item of `vulkano::swapchain::SupportedCompositeAlpha::iter`.
///
/// Trusted, not proved: the iterator yields the supported modes in the
/// order opaque, pre-multiplied, post-multiplied, inherit, so its first item
/// is the first of these whose flag is set, and there is none when no flag
/// is set.
#[verifier::external_body]
fn first_supported_alpha(supported: SupportedCompositeAlpha) -> (first: Option<CompositeAlpha>)
    ensures
        first == first_listed_alpha(supported),
{
    let SupportedCompositeAlpha { opaque, pre_multiplied, post_multiplied, inherit } = supported;
    let listed =
        vulkano::swapchain::SupportedCompositeAlpha { opaque, pre_multiplied, post_multiplied, inherit };
    match listed.iter().next() {
        Some(vulkano::swapchain::CompositeAlpha::Opaque) => Some(CompositeAlpha::Opaque),
        Some(vulkano::swapchain::CompositeAlpha::PreMultiplied) => Some(CompositeAlpha::PreMultiplied),
        Some(vulkano::swapchain::CompositeAlpha::PostMultiplied) => Some(CompositeAlpha::PostMultiplied),
        Some(vulkano::swapchain::CompositeAlpha::Inherit) => Some(CompositeAlpha::Inherit),
        None => None,
    }
}

/// Derives the swapchain creation parameters from the surface's
/// capabilities: minimum image count, first supported format, reported
/// extent or 1280x1024, one layer, the supported usages, the current
/// transform, the first supported composite alpha mode, FIFO presentation,
/// clipped.
///
/// Fails with `NoCompositeAlpha` where the surface supports no composite
/// alpha mode, otherwise with `NoSurfaceFormat` where it lists no format.
pub fn create_swap_chain(capabilities: &SurfaceCapabilities) -> (params: Result<
    SwapchainParams,
    SetupError,
>)
    ensures
        params == swapchain_params_of(*capabilities),
{
    let dimensions = swapchain_extent(capabilities.current_extent);
    let alpha = match first_supported_alpha(capabilities.supported_composite_alpha) {
        Some(alpha) => alpha,
        None => {
            return Err(SetupError::NoCompositeAlpha);
        },
    };
    if capabilities.supported_formats.len() == 0 {
        return Err(SetupError::NoSurfaceFormat);
    }
    let format = capabilities.supported_formats[0];
    Ok(
        SwapchainParams {
            image_count: capabilities.min_image_count,
            format,
            dimensions,
            layers: SWAPCHAIN_LAYERS,
            usage: capabilities.supported_usage_flags,
            transform: capabilities.current_transform,
            alpha,
            present_mode: PresentMode::Fifo,
            clipped: true,
        },
    )
}

} // verus!
