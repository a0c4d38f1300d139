//! Swapchain configuration: surface format, present mode, extent, image
//! count and image sharing, chosen from what the surface supports.
use vstd::prelude::*;
use crate::queue_family::{QueueFamilyIndices, indices_complete};

verus! {

pub const FORMAT_B8G8R8A8_SRGB: i32 = 50;

pub const COLOR_SPACE_SRGB_NONLINEAR: i32 = 0;

pub const PRESENT_MODE_MAILBOX: i32 = 1;

pub const PRESENT_MODE_FIFO: i32 = 2;

pub const SHARING_MODE_EXCLUSIVE: i32 = 0;

pub const SHARING_MODE_CONCURRENT: i32 = 1;

/// Width reported by a surface whose extent adapts to the swapchain.
pub const ADAPTIVE_EXTENT: u32 = 0xffff_ffff;

#[derive(Clone, Copy, Debug, PartialEq, Eq, Structural)]
pub struct Extent2D {
    pub width: u32,
    pub height: u32,
}

#[derive(Clone, Copy, Debug, PartialEq, Eq, Structural)]
pub struct SurfaceFormat {
    pub format: i32,
    pub color_space: i32,
}

#[derive(Clone, Copy, Debug, PartialEq, Eq, Structural)]
pub struct SurfaceCapabilities {
    pub min_image_count: u32,
    /// Zero when the surface sets no upper bound.
    pub max_image_count: u32,
    pub current_extent: Extent2D,
    pub min_image_extent: Extent2D,
    pub max_image_extent: Extent2D,
    pub current_transform: u32,
}

/// What a surface supports on a given device.
#[derive(Clone, Debug)]
pub struct SwapChainSupportDetails {
    pub capabilities: SurfaceCapabilities,
    pub formats: Vec<SurfaceFormat>,
    pub present_modes: Vec<i32>,
}

/// Everything needed to create a swapchain.
#[derive(Clone, Debug)]
pub struct SwapchainConfig {
    pub format: SurfaceFormat,
    pub present_mode: i32,
    pub extent: Extent2D,
    pub image_count: u32,
    pub sharing_mode: i32,
    /// The families that share the images; empty for exclusive use.
    pub queue_family_indices: Vec<u32>,
    pub pre_transform: u32,
}

pub open spec fn preferred_format() -> SurfaceFormat {
    SurfaceFormat { format: FORMAT_B8G8R8A8_SRGB, color_space: COLOR_SPACE_SRGB_NONLINEAR }
}

pub open spec fn chosen_format(formats: Seq<SurfaceFormat>) -> SurfaceFormat {
    if formats.contains(preferred_format()) {
        preferred_format()
    } else {
        formats[0]
    }
}

pub open spec fn chosen_present_mode(modes: Seq<i32>) -> i32 {
    if modes.contains(PRESENT_MODE_MAILBOX) {
        PRESENT_MODE_MAILBOX
    } else {
        PRESENT_MODE_FIFO
    }
}

pub open spec fn clamped(v: u32, lo: u32, hi: u32) -> u32 {
    if v < lo {
        lo
    } else if v > hi {
        hi
    } else {
        v
    }
}

/// The bounds of an adaptive surface are ordered.
pub open spec fn extent_bounds_ordered(caps: SurfaceCapabilities) -> bool {
    caps.current_extent.width == ADAPTIVE_EXTENT ==> {
        &&& caps.min_image_extent.width <= caps.max_image_extent.width
        &&& caps.min_image_extent.height <= caps.max_image_extent.height
    }
}

pub open spec fn chosen_extent(caps: SurfaceCapabilities, window: Extent2D) -> Extent2D {
    if caps.current_extent.width != ADAPTIVE_EXTENT {
        caps.current_extent
    } else {
        Extent2D {
            width: clamped(
                window.width,
                caps.min_image_extent.width,
                caps.max_image_extent.width,
            ),
            height: clamped(
                window.height,
                caps.min_image_extent.height,
                caps.max_image_extent.height,
            ),
        }
    }
}

pub open spec fn chosen_image_count(caps: SurfaceCapabilities) -> u32 {
    if caps.max_image_count > 0 && caps.max_image_count < caps.min_image_count + 1 {
        caps.max_image_count
    } else {
        (caps.min_image_count + 1) as u32
    }
}

pub open spec fn chosen_sharing_mode(q: QueueFamilyIndices) -> i32 {
    if q.graphics_family != q.present_family {
        SHARING_MODE_CONCURRENT
    } else {
        SHARING_MODE_EXCLUSIVE
    }
}

pub open spec fn chosen_sharing_families(q: QueueFamilyIndices) -> Seq<u32> {
    if q.graphics_family != q.present_family {
        seq![q.graphics_family.unwrap(), q.present_family.unwrap()]
    } else {
        Seq::empty()
    }
}

/// A surface that can host a swapchain: it offers a format, and its counts and
/// bounds are in range.
pub open spec fn support_well_formed(support: SwapChainSupportDetails) -> bool {
    &&& support.formats@.len() > 0
    &&& support.capabilities.min_image_count < u32::MAX
    &&& extent_bounds_ordered(support.capabilities)
}

/// Relies on num::clamp: `input` bounded below by `min` and above by `max`.
/// num::clamp asserts that `min <= max`.
#[verifier::external_body]
fn clamp_u32(input: u32, min: u32, max: u32) -> (r: u32)
    requires
        min <= max,
    ensures
        r == clamped(input, min, max),
{
    num::clamp(input, min, max)
}

/// The sRGB four-channel format if the surface offers it, else the first one offered.
pub fn choose_swap_surface_format(available_formats: &Vec<SurfaceFormat>) -> (r: SurfaceFormat)
    requires
        available_formats@.len() > 0,
    ensures
        r == chosen_format(available_formats@),
{
    let mut i: usize = 0;
    while i < available_formats.len()
        invariant
            i <= available_formats@.len(),
            forall|j: int| 0 <= j < i ==> available_formats@[j] != preferred_format(),
        decreases available_formats@.len() - i,
    {
        let f = available_formats[i];
        if f.format == FORMAT_B8G8R8A8_SRGB && f.color_space == COLOR_SPACE_SRGB_NONLINEAR {
            proof {
                assert(available_formats@[i as int] == preferred_format());
                assert(available_formats@.contains(preferred_format()));
            }
            return f;
        }
        i = i + 1;
    }
    available_formats[0]
}

/// Mailbox if the surface offers it; otherwise FIFO, which every presenting
/// device supports.
pub fn choose_swap_present_mode(available_modes: &Vec<i32>) -> (r: i32)
    ensures
        r == chosen_present_mode(available_modes@),
{
    let mut i: usize = 0;
    while i < available_modes.len()
        invariant
            i <= available_modes@.len(),
            forall|j: int| 0 <= j < i ==> available_modes@[j] != PRESENT_MODE_MAILBOX,
        decreases available_modes@.len() - i,
    {
        if available_modes[i] == PRESENT_MODE_MAILBOX {
            proof {
                assert(available_modes@.contains(PRESENT_MODE_MAILBOX));
            }
            return PRESENT_MODE_MAILBOX;
        }
        i = i + 1;
    }
    PRESENT_MODE_FIFO
}

/// The surface's own extent, or, for an adaptive surface, the window's size
/// clamped into the surface's bounds.
pub fn choose_swap_extent(capabilities: &SurfaceCapabilities, window: Extent2D) -> (r: Extent2D)
    requires
        extent_bounds_ordered(*capabilities),
    ensures
        r == chosen_extent(*capabilities, window),
{
    if capabilities.current_extent.width != ADAPTIVE_EXTENT {
        capabilities.current_extent
    } else {
        let min = capabilities.min_image_extent;
        let max = capabilities.max_image_extent;
        Extent2D {
            width: clamp_u32(window.width, min.width, max.width),
            height: clamp_u32(window.height, min.height, max.height),
        }
    }
}

/// One image more than the surface's minimum, so that one is always free to
/// draw into, but no more than its maximum when it has one.
pub fn choose_image_count(capabilities: &SurfaceCapabilities) -> (r: u32)
    requires
        capabilities.min_image_count < u32::MAX,
    ensures
        r == chosen_image_count(*capabilities),
{
    let preferred = capabilities.min_image_count + 1;
    if capabilities.max_image_count > 0 && capabilities.max_image_count < preferred {
        capabilities.max_image_count
    } else {
        preferred
    }
}

/// Concurrent sharing between two distinct families, else exclusive use.
pub fn choose_sharing(indices: &QueueFamilyIndices) -> (r: (i32, Vec<u32>))
    requires
        indices_complete(*indices),
    ensures
        r.0 == chosen_sharing_mode(*indices),
        r.1@ == chosen_sharing_families(*indices),
{
    if indices.graphics_family != indices.present_family {
        let mut families: Vec<u32> = Vec::new();
        families.push(indices.graphics_family.unwrap());
        families.push(indices.present_family.unwrap());
        (SHARING_MODE_CONCURRENT, families)
    } else {
        (SHARING_MODE_EXCLUSIVE, Vec::new())
    }
}

/// The configuration of a swapchain for the given surface support, window
/// size and queue families.
pub fn plan_swap_chain(
    support: &SwapChainSupportDetails,
    window: Extent2D,
    indices: &QueueFamilyIndices,
) -> (r: SwapchainConfig)
    requires
        support_well_formed(*support),
        indices_complete(*indices),
    ensures
        r.format == chosen_format(support.formats@),
        r.present_mode == chosen_present_mode(support.present_modes@),
        r.extent == chosen_extent(support.capabilities, window),
        r.image_count == chosen_image_count(support.capabilities),
        r.sharing_mode == chosen_sharing_mode(*indices),
        r.queue_family_indices@ == chosen_sharing_families(*indices),
        r.pre_transform == support.capabilities.current_transform,
{
    let format = choose_swap_surface_format(&support.formats);
    let present_mode = choose_swap_present_mode(&support.present_modes);
    let extent = choose_swap_extent(&support.capabilities, window);
    let image_count = choose_image_count(&support.capabilities);
    let (sharing_mode, families) = choose_sharing(indices);
    SwapchainConfig {
        format,
        present_mode,
        extent,
        image_count,
        sharing_mode,
        queue_family_indices: families,
        pre_transform: support.capabilities.current_transform,
    }
}

/// Recreating a swapchain for the same extent gives the same structure: when
/// two requests see the same formats, present modes and image-count bounds,
/// and arrive at the same extent, they agree on image count, format and
/// present mode.
pub proof fn lemma_recreate_same_extent_same_structure(
    first: SwapChainSupportDetails,
    second: SwapChainSupportDetails,
    first_window: Extent2D,
    second_window: Extent2D,
)
    requires
        support_well_formed(first),
        support_well_formed(second),
        first.formats@ == second.formats@,
        first.present_modes@ == second.present_modes@,
        first.capabilities.min_image_count == second.capabilities.min_image_count,
        first.capabilities.max_image_count == second.capabilities.max_image_count,
        chosen_extent(first.capabilities, first_window) == chosen_extent(
            second.capabilities,
            second_window,
        ),
    ensures
        chosen_image_count(first.capabilities) == chosen_image_count(second.capabilities),
        chosen_format(first.formats@) == chosen_format(second.formats@),
        chosen_present_mode(first.present_modes@) == chosen_present_mode(second.present_modes@),
{
}

} // verus!
