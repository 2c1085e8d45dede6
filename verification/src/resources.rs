//! Per-image render targets and their pre-recorded command buffers.
//!
//! Framebuffers and command buffers are index-parallel to the swapchain
//! images: entry `i` of each table belongs to image `i`.

use crate::swapchain::Extent;
use vstd::prelude::*;

verus! {

/// Viewport width used when the surface reports no extent.
pub const FALLBACK_VIEWPORT_WIDTH: u32 = 1024;

/// Viewport height used when the surface reports no extent.
pub const FALLBACK_VIEWPORT_HEIGHT: u32 = 768;

/// Render target wrapping one swapchain image.
#[derive(Clone, Copy, Debug, PartialEq, Eq, Structural)]
pub struct Framebuffer {
    /// Index of the swapchain image this framebuffer renders into.
    pub image: usize,
}

/// Clear-and-draw commands recorded once against one framebuffer.
#[derive(Clone, Copy, Debug, PartialEq, Eq, Structural)]
pub struct CommandBuffer {
    /// Index of the framebuffer the commands were recorded against.
    pub framebuffer: usize,
    /// Viewport the draw was recorded with.
    pub viewport: Extent,
}

/// The viewport for a surface whose reported extent is `current`.
pub open spec fn viewport_extent_of(current: Option<Extent>) -> Extent {
    match current {
        Some(extent) => extent,
        None => Extent { width: FALLBACK_VIEWPORT_WIDTH, height: FALLBACK_VIEWPORT_HEIGHT },
    }
}

/// One framebuffer per image, entry `i` wrapping image `i`.
pub open spec fn framebuffers_of(image_count: nat) -> Seq<Framebuffer> {
    Seq::new(image_count, |i: int| Framebuffer { image: i as usize })
}

/// One command buffer per framebuffer, entry `i` recorded against framebuffer `i`.
pub open spec fn command_buffers_of(framebuffer_count: nat, viewport: Extent) -> Seq<
    CommandBuffer,
> {
    Seq::new(framebuffer_count, |i: int| CommandBuffer { framebuffer: i as usize, viewport })
}

/// The two tables line up with the swapchain images: framebuffer `i` wraps
/// image `i` and command buffer `i` was recorded against framebuffer `i`.
pub open spec fn index_parallel(
    framebuffers: Seq<Framebuffer>,
    command_buffers: Seq<CommandBuffer>,
) -> bool {
    &&& framebuffers.len() == command_buffers.len()
    &&& forall|i: int| 0 <= i < framebuffers.len() ==> (#[trigger] framebuffers[i]).image == i
    &&& forall|i: int|
        0 <= i < command_buffers.len() ==> (#[trigger] command_buffers[i]).framebuffer == i
}

/// The swapchain image that command buffer `i` of `command_buffers` draws into.
pub open spec fn target_image(
    framebuffers: Seq<Framebuffer>,
    command_buffers: Seq<CommandBuffer>,
    i: int,
) -> int {
    framebuffers[command_buffers[i].framebuffer as int].image as int
}

/// The reported extent, or 1024x768 when the surface leaves it open.
pub fn viewport_extent(current: Option<Extent>) -> (extent: Extent)
    ensures
        extent == viewport_extent_of(current),
{
    match current {
        Some(extent) => extent,
        None => Extent { width: FALLBACK_VIEWPORT_WIDTH, height: FALLBACK_VIEWPORT_HEIGHT },
    }
}

/// Builds one framebuffer for each of `image_count` swapchain images, in image order.
pub fn create_framebuffers(image_count: usize) -> (framebuffers: Vec<Framebuffer>)
    ensures
        framebuffers@ == framebuffers_of(image_count as nat),
{
    let mut framebuffers: Vec<Framebuffer> = Vec::new();
    let mut image: usize = 0;
    while image < image_count
        invariant
            image <= image_count,
            framebuffers@ == framebuffers_of(image as nat),
        decreases image_count - image,
    {
        framebuffers.push(Framebuffer { image });
        image = image + 1;
    }
    framebuffers
}

/// Records one command buffer for each framebuffer, in framebuffer order, all
/// drawing into the viewport derived from the surface's reported extent.
pub fn create_command_buffers(framebuffers: &Vec<Framebuffer>, current_extent: Option<Extent>) -> (command_buffers:
    Vec<CommandBuffer>)
    ensures
        command_buffers@ == command_buffers_of(
            framebuffers@.len(),
            viewport_extent_of(current_extent),
        ),
{
    let viewport = viewport_extent(current_extent);
    let mut command_buffers: Vec<CommandBuffer> = Vec::new();
    let mut framebuffer: usize = 0;
    while framebuffer < framebuffers.len()
        invariant
            framebuffer <= framebuffers.len(),
            command_buffers@ == command_buffers_of(framebuffer as nat, viewport),
        decreases framebuffers.len() - framebuffer,
    {
        command_buffers.push(CommandBuffer { framebuffer, viewport });
        framebuffer = framebuffer + 1;
    }
    command_buffers
}

/// Tables built for the same swapchain are index-parallel, and every command
/// buffer draws into the image whose index it has.
pub proof fn lemma_tables_index_parallel(image_count: nat, viewport: Extent)
    requires
        image_count <= usize::MAX,
    ensures
        index_parallel(framebuffers_of(image_count), command_buffers_of(image_count, viewport)),
        forall|i: int|
            0 <= i < image_count ==> #[trigger] target_image(
                framebuffers_of(image_count),
                command_buffers_of(image_count, viewport),
                i,
            ) == i,
{
}

} // verus!
