use vstd::prelude::*;
use crate::error::AppError;

verus! {

/// `VK_FORMAT_B8G8R8A8_SRGB`: 8-bit BGRA with sRGB encoding.
pub const FORMAT_B8G8R8A8_SRGB: i32 = 50;

/// `VK_COLOR_SPACE_SRGB_NONLINEAR_KHR`.
pub const COLOR_SPACE_SRGB_NONLINEAR: i32 = 0;

/// `VK_PRESENT_MODE_MAILBOX_KHR`: low-latency triple buffering.
pub const PRESENT_MODE_MAILBOX: i32 = 1;

/// `VK_PRESENT_MODE_FIFO_KHR`: vsync'd presentation, which every driver offers.
pub const PRESENT_MODE_FIFO: i32 = 2;

/// The width a surface reports when the swapchain may pick any extent.
pub const ANY_EXTENT_WIDTH: u32 = 0xFFFF_FFFF;

/// The presentation size used when the surface leaves the extent open.
pub const DEFAULT_WIDTH: u32 = 800;

pub const DEFAULT_HEIGHT: u32 = 600;

/// A pixel format together with its color space, as raw driver codes.
#[derive(Clone, Copy, Debug, PartialEq, Eq, Structural)]
pub struct SurfaceFormat {
    pub format: i32,
    pub color_space: i32,
}

/// A two-dimensional size in pixels.
#[derive(Clone, Copy, Debug, PartialEq, Eq, Structural)]
pub struct Extent2D {
    pub width: u32,
    pub height: u32,
}

/// What the surface reports about the swapchains it accepts.
#[derive(Clone, Copy, Debug, PartialEq, Eq, Structural)]
pub struct SurfaceCapabilities {
    pub min_image_count: u32,
    /// Zero when the driver sets no upper bound.
    pub max_image_count: u32,
    pub current_extent: Extent2D,
    /// The surface's current transform, as raw flag bits.
    pub current_transform: u32,
}

/// `VK_SHARING_MODE_EXCLUSIVE`: images owned by one queue family at a time.
pub const SHARING_MODE_EXCLUSIVE: i32 = 0;

/// `VK_IMAGE_USAGE_COLOR_ATTACHMENT_BIT`.
pub const IMAGE_USAGE_COLOR_ATTACHMENT: u32 = 0x10;

/// `VK_COMPOSITE_ALPHA_OPAQUE_BIT_KHR`.
pub const COMPOSITE_ALPHA_OPAQUE: u32 = 0x1;

/// `VK_IMAGE_VIEW_TYPE_2D`.
pub const IMAGE_VIEW_TYPE_2D: i32 = 1;

/// `VK_COMPONENT_SWIZZLE_IDENTITY`.
pub const SWIZZLE_IDENTITY: i32 = 0;

/// `VK_IMAGE_ASPECT_COLOR_BIT`.
pub const ASPECT_COLOR: u32 = 0x1;

/// The parameters chosen for a new swapchain.
#[derive(Clone, Copy, Debug, PartialEq, Eq, Structural)]
pub struct SwapchainPlan {
    pub format: SurfaceFormat,
    pub extent: Extent2D,
    pub present_mode: i32,
    pub image_count: u32,
    pub pre_transform: u32,
    pub image_array_layers: u32,
    pub image_usage: u32,
    /// Exclusive: one queue family owns the images, as submission is not yet
    /// spread over several queues.
    pub sharing_mode: i32,
    pub composite_alpha: u32,
    pub clipped: bool,
}

/// How each swapchain image is viewed: a 2-D color view in the swapchain's
/// format, identity component mapping, one mip level and one array layer.
#[derive(Clone, Copy, Debug, PartialEq, Eq, Structural)]
pub struct ImageViewLayout {
    pub view_type: i32,
    pub format: i32,
    /// The swizzle of the r, g, b and a components.
    pub swizzle: i32,
    pub aspect_mask: u32,
    pub base_mip_level: u32,
    pub level_count: u32,
    pub base_array_layer: u32,
    pub layer_count: u32,
}

pub open spec fn preferred_format() -> SurfaceFormat {
    SurfaceFormat { format: FORMAT_B8G8R8A8_SRGB, color_space: COLOR_SPACE_SRGB_NONLINEAR }
}

/// The format policy: the preferred BGRA8/sRGB pair wherever it stands in the
/// list, else the first format reported. This is a preference, not a
/// guarantee that the result suits every driver.
pub open spec fn format_choice(formats: Seq<SurfaceFormat>) -> Option<SurfaceFormat> {
    if formats.contains(preferred_format()) {
        Some(preferred_format())
    } else if formats.len() > 0 {
        Some(formats[0])
    } else {
        None
    }
}

pub open spec fn present_mode_choice(modes: Seq<i32>) -> i32 {
    if modes.contains(PRESENT_MODE_MAILBOX) {
        PRESENT_MODE_MAILBOX
    } else {
        PRESENT_MODE_FIFO
    }
}

/// The reported extent verbatim, unless it is the "any extent" sentinel.
/// No clamping to the surface's minimum and maximum extent is done.
pub open spec fn extent_choice(current: Extent2D) -> Extent2D {
    if current.width == ANY_EXTENT_WIDTH {
        Extent2D { width: DEFAULT_WIDTH, height: DEFAULT_HEIGHT }
    } else {
        current
    }
}

/// One image more than the minimum, lowered to the maximum when the driver
/// sets one.
pub open spec fn image_count_choice(min_count: u32, max_count: u32) -> int {
    if max_count > 0 && min_count + 1 > max_count {
        max_count as int
    } else {
        min_count + 1
    }
}

/// Whether a swapchain can be planned for the surface at all.
pub open spec fn surface_usable(caps: SurfaceCapabilities, formats: Seq<SurfaceFormat>) -> bool {
    &&& formats.len() > 0
    &&& image_count_choice(caps.min_image_count, caps.max_image_count) <= u32::MAX
}

pub open spec fn swapchain_plan(
    caps: SurfaceCapabilities,
    formats: Seq<SurfaceFormat>,
    modes: Seq<i32>,
) -> SwapchainPlan {
    SwapchainPlan {
        format: format_choice(formats).unwrap(),
        extent: extent_choice(caps.current_extent),
        present_mode: present_mode_choice(modes),
        image_count: image_count_choice(caps.min_image_count, caps.max_image_count) as u32,
        pre_transform: caps.current_transform,
        image_array_layers: 1,
        image_usage: IMAGE_USAGE_COLOR_ATTACHMENT,
        sharing_mode: SHARING_MODE_EXCLUSIVE,
        composite_alpha: COMPOSITE_ALPHA_OPAQUE,
        clipped: true,
    }
}

/// Picks the surface format: the preferred BGRA8/sRGB pair if the driver
/// offers it anywhere in the list, else the first entry; `None` only for an
/// empty list.
pub fn choose_surface_format(formats: &Vec<SurfaceFormat>) -> (r: Option<SurfaceFormat>)
    ensures
        r == format_choice(formats@),
        formats@.contains(preferred_format()) ==> r == Some(preferred_format()),
        !formats@.contains(preferred_format()) && formats@.len() > 0 ==> r == Some(formats@[0]),
        r is None <==> formats@.len() == 0,
{
    let mut i: usize = 0;
    while i < formats.len()
        invariant
            i <= formats@.len(),
            forall|j: int| 0 <= j < i ==> formats@[j] != preferred_format(),
        decreases formats@.len() - i,
    {
        let f = formats[i];
        if f.format == FORMAT_B8G8R8A8_SRGB && f.color_space == COLOR_SPACE_SRGB_NONLINEAR {
            assert(formats@[i as int] == preferred_format());
            return Some(f);
        }
        i = i + 1;
    }
    if formats.len() > 0 {
        Some(formats[0])
    } else {
        None
    }
}

/// Picks the present mode: mailbox when advertised, else FIFO, which every
/// driver must support.
pub fn choose_present_mode(modes: &Vec<i32>) -> (r: i32)
    ensures
        r == present_mode_choice(modes@),
        modes@.contains(PRESENT_MODE_MAILBOX) ==> r == PRESENT_MODE_MAILBOX,
        !modes@.contains(PRESENT_MODE_MAILBOX) ==> r == PRESENT_MODE_FIFO,
{
    let mut i: usize = 0;
    while i < modes.len()
        invariant
            i <= modes@.len(),
            forall|j: int| 0 <= j < i ==> modes@[j] != PRESENT_MODE_MAILBOX,
        decreases modes@.len() - i,
    {
        if modes[i] == PRESENT_MODE_MAILBOX {
            assert(modes@[i as int] == PRESENT_MODE_MAILBOX);
            return PRESENT_MODE_MAILBOX;
        }
        i = i + 1;
    }
    PRESENT_MODE_FIFO
}

/// Picks the swapchain extent: 800x600 when the surface reports the "any
/// extent" sentinel width, else the reported extent unmodified.
pub fn choose_extent(current: Extent2D) -> (r: Extent2D)
    ensures
        r == extent_choice(current),
        current.width == ANY_EXTENT_WIDTH ==> r.width == 800 && r.height == 600,
        current.width != ANY_EXTENT_WIDTH ==> r == current,
{
    if current.width == ANY_EXTENT_WIDTH {
        Extent2D { width: DEFAULT_WIDTH, height: DEFAULT_HEIGHT }
    } else {
        current
    }
}

/// Picks the number of swapchain images: `min_count + 1`, lowered to
/// `max_count` when the driver reports a nonzero maximum below it.
pub fn choose_image_count(min_count: u32, max_count: u32) -> (r: u32)
    requires
        min_count < u32::MAX || max_count > 0,
    ensures
        r == image_count_choice(min_count, max_count),
        max_count == 0 ==> r == min_count + 1,
        max_count > 0 ==> r <= max_count,
        max_count > min_count ==> min_count < r <= max_count,
{
    if max_count > 0 && min_count >= max_count {
        max_count
    } else {
        min_count + 1
    }
}

/// Plans the swapchain for a surface from what it reports: the chosen format,
/// extent, present mode and image count, the surface's current transform,
/// and fixed settings (one array layer, color-attachment usage, exclusive
/// sharing, opaque composite alpha, clipping).
/// Fails with
/// `UnusableSurface` exactly when no format is reported or the image count
/// cannot be represented.
pub fn plan_swapchain(caps: SurfaceCapabilities, formats: &Vec<SurfaceFormat>, modes: &Vec<i32>) -> (r: Result<SwapchainPlan, AppError>)
    ensures
        surface_usable(caps, formats@) ==> r == Ok::<SwapchainPlan, AppError>(swapchain_plan(caps, formats@, modes@)),
        !surface_usable(caps, formats@) ==> r == Err::<SwapchainPlan, AppError>(AppError::UnusableSurface),
{
    let format = match choose_surface_format(formats) {
        Some(f) => f,
        None => return Err(AppError::UnusableSurface),
    };
    if caps.min_image_count == u32::MAX && caps.max_image_count == 0 {
        return Err(AppError::UnusableSurface);
    }
    let image_count = choose_image_count(caps.min_image_count, caps.max_image_count);
    Ok(SwapchainPlan {
        format,
        extent: choose_extent(caps.current_extent),
        present_mode: choose_present_mode(modes),
        image_count,
        pre_transform: caps.current_transform,
        image_array_layers: 1,
        image_usage: IMAGE_USAGE_COLOR_ATTACHMENT,
        sharing_mode: SHARING_MODE_EXCLUSIVE,
        composite_alpha: COMPOSITE_ALPHA_OPAQUE,
        clipped: true,
    })
}

/// `VK_ATTACHMENT_LOAD_OP_CLEAR` and `VK_ATTACHMENT_LOAD_OP_DONT_CARE`.
pub const LOAD_OP_CLEAR: i32 = 1;

pub const LOAD_OP_DONT_CARE: i32 = 2;

/// `VK_ATTACHMENT_STORE_OP_STORE` and `VK_ATTACHMENT_STORE_OP_DONT_CARE`.
pub const STORE_OP_STORE: i32 = 0;

pub const STORE_OP_DONT_CARE: i32 = 1;

/// `VK_IMAGE_LAYOUT_UNDEFINED`, `VK_IMAGE_LAYOUT_COLOR_ATTACHMENT_OPTIMAL` and
/// `VK_IMAGE_LAYOUT_PRESENT_SRC_KHR`.
pub const LAYOUT_UNDEFINED: i32 = 0;

pub const LAYOUT_COLOR_ATTACHMENT_OPTIMAL: i32 = 2;

pub const LAYOUT_PRESENT_SRC: i32 = 1000001002;

/// `VK_SAMPLE_COUNT_1_BIT`.
pub const SAMPLE_COUNT_1: u32 = 1;

/// The single color attachment of the render pass, and how its one subpass
/// uses it. There is no depth or stencil attachment and no subpass
/// dependency.
#[derive(Clone, Copy, Debug, PartialEq, Eq, Structural)]
pub struct RenderPassLayout {
    pub format: i32,
    pub samples: u32,
    pub load_op: i32,
    pub store_op: i32,
    pub stencil_load_op: i32,
    pub stencil_store_op: i32,
    pub initial_layout: i32,
    pub final_layout: i32,
    /// The attachment the graphics subpass writes as its only color
    /// attachment.
    pub subpass_color_attachment: u32,
    pub subpass_color_layout: i32,
}

/// The render pass for swapchain images of the given format: one color
/// attachment of that format, cleared on load and stored, stencil ignored,
/// from an undefined layout to the layout ready for presentation; one
/// graphics subpass that writes attachment 0.
pub fn render_pass_layout(format: SurfaceFormat) -> (r: RenderPassLayout)
    ensures
        r == (RenderPassLayout {
            format: format.format,
            samples: SAMPLE_COUNT_1,
            load_op: LOAD_OP_CLEAR,
            store_op: STORE_OP_STORE,
            stencil_load_op: LOAD_OP_DONT_CARE,
            stencil_store_op: STORE_OP_DONT_CARE,
            initial_layout: LAYOUT_UNDEFINED,
            final_layout: LAYOUT_PRESENT_SRC,
            subpass_color_attachment: 0,
            subpass_color_layout: LAYOUT_COLOR_ATTACHMENT_OPTIMAL,
        }),
{
    RenderPassLayout {
        format: format.format,
        samples: SAMPLE_COUNT_1,
        load_op: LOAD_OP_CLEAR,
        store_op: STORE_OP_STORE,
        stencil_load_op: LOAD_OP_DONT_CARE,
        stencil_store_op: STORE_OP_DONT_CARE,
        initial_layout: LAYOUT_UNDEFINED,
        final_layout: LAYOUT_PRESENT_SRC,
        subpass_color_attachment: 0,
        subpass_color_layout: LAYOUT_COLOR_ATTACHMENT_OPTIMAL,
    }
}

/// The view of each swapchain image: 2-D, in the swapchain's format, identity
/// component mapping, the color aspect, one mip level and one array layer.
pub fn image_view_layout(format: SurfaceFormat) -> (r: ImageViewLayout)
    ensures
        r == (ImageViewLayout {
            view_type: IMAGE_VIEW_TYPE_2D,
            format: format.format,
            swizzle: SWIZZLE_IDENTITY,
            aspect_mask: ASPECT_COLOR,
            base_mip_level: 0,
            level_count: 1,
            base_array_layer: 0,
            layer_count: 1,
        }),
{
    ImageViewLayout {
        view_type: IMAGE_VIEW_TYPE_2D,
        format: format.format,
        swizzle: SWIZZLE_IDENTITY,
        aspect_mask: ASPECT_COLOR,
        base_mip_level: 0,
        level_count: 1,
        base_array_layer: 0,
        layer_count: 1,
    }
}

} // verus!
