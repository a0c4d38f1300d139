//! Image formats and layout transitions: which depth format to use, which
//! aspects an image has, and the access masks and stages of each transition.
use vstd::prelude::*;
use crate::memory::flags_contain;

verus! {

pub const FORMAT_R8G8B8A8_SRGB: i32 = 43;

pub const FORMAT_D32_SFLOAT: i32 = 126;

pub const FORMAT_D24_UNORM_S8_UINT: i32 = 129;

pub const FORMAT_D32_SFLOAT_S8_UINT: i32 = 130;

pub const IMAGE_TILING_OPTIMAL: i32 = 0;

pub const IMAGE_TILING_LINEAR: i32 = 1;

pub const FORMAT_FEATURE_DEPTH_STENCIL_ATTACHMENT: u32 = 0x200;

pub const LAYOUT_UNDEFINED: i32 = 0;

pub const LAYOUT_DEPTH_STENCIL_ATTACHMENT_OPTIMAL: i32 = 3;

pub const LAYOUT_SHADER_READ_ONLY_OPTIMAL: i32 = 5;

pub const LAYOUT_TRANSFER_DST_OPTIMAL: i32 = 7;

pub const ACCESS_NONE: u32 = 0;

pub const ACCESS_SHADER_READ: u32 = 0x20;

pub const ACCESS_DEPTH_STENCIL_ATTACHMENT_READ: u32 = 0x200;

pub const ACCESS_DEPTH_STENCIL_ATTACHMENT_WRITE: u32 = 0x400;

pub const ACCESS_TRANSFER_WRITE: u32 = 0x1000;

pub const STAGE_TOP_OF_PIPE: u32 = 0x1;

pub const STAGE_FRAGMENT_SHADER: u32 = 0x80;

pub const STAGE_EARLY_FRAGMENT_TESTS: u32 = 0x100;

pub const STAGE_TRANSFER: u32 = 0x1000;

pub const ASPECT_COLOR: u32 = 0x1;

pub const ASPECT_DEPTH: u32 = 0x2;

pub const ASPECT_STENCIL: u32 = 0x4;

/// The features a format supports with each tiling.
#[derive(Clone, Copy, Debug, PartialEq, Eq, Structural)]
pub struct FormatProperties {
    pub linear_tiling_features: u32,
    pub optimal_tiling_features: u32,
}

/// The barrier that moves an image from one layout to another.
#[derive(Clone, Copy, Debug, PartialEq, Eq, Structural)]
pub struct LayoutTransition {
    pub src_access_mask: u32,
    pub dst_access_mask: u32,
    pub src_stage: u32,
    pub dst_stage: u32,
    pub aspect_mask: u32,
}

pub open spec fn stencil_format(format: i32) -> bool {
    format == FORMAT_D32_SFLOAT_S8_UINT || format == FORMAT_D24_UNORM_S8_UINT
}

/// The format carries a stencil component besides depth.
pub fn has_stencil_component(format: i32) -> (r: bool)
    ensures
        r == stencil_format(format),
{
    format == FORMAT_D32_SFLOAT_S8_UINT || format == FORMAT_D24_UNORM_S8_UINT
}

pub open spec fn aspect_for(new_layout: i32, format: i32) -> u32 {
    if new_layout == LAYOUT_DEPTH_STENCIL_ATTACHMENT_OPTIMAL {
        if stencil_format(format) {
            ASPECT_DEPTH | ASPECT_STENCIL
        } else {
            ASPECT_DEPTH
        }
    } else {
        ASPECT_COLOR
    }
}

/// The transitions the renderer makes: a fresh image made ready to receive
/// a copy, a copied texture made ready for sampling, and a fresh depth image
/// made ready for depth testing.
pub open spec fn transition_for(old_layout: i32, new_layout: i32, format: i32) -> Option<
    LayoutTransition,
> {
    let aspect_mask = aspect_for(new_layout, format);
    if old_layout == LAYOUT_UNDEFINED && new_layout == LAYOUT_TRANSFER_DST_OPTIMAL {
        Some(
            LayoutTransition {
                src_access_mask: ACCESS_NONE,
                dst_access_mask: ACCESS_TRANSFER_WRITE,
                src_stage: STAGE_TOP_OF_PIPE,
                dst_stage: STAGE_TRANSFER,
                aspect_mask,
            },
        )
    } else if old_layout == LAYOUT_TRANSFER_DST_OPTIMAL && new_layout
        == LAYOUT_SHADER_READ_ONLY_OPTIMAL {
        Some(
            LayoutTransition {
                src_access_mask: ACCESS_TRANSFER_WRITE,
                dst_access_mask: ACCESS_SHADER_READ,
                src_stage: STAGE_TRANSFER,
                dst_stage: STAGE_FRAGMENT_SHADER,
                aspect_mask,
            },
        )
    } else if old_layout == LAYOUT_UNDEFINED && new_layout
        == LAYOUT_DEPTH_STENCIL_ATTACHMENT_OPTIMAL {
        Some(
            LayoutTransition {
                src_access_mask: ACCESS_NONE,
                dst_access_mask: ACCESS_DEPTH_STENCIL_ATTACHMENT_READ
                    | ACCESS_DEPTH_STENCIL_ATTACHMENT_WRITE,
                src_stage: STAGE_TOP_OF_PIPE,
                dst_stage: STAGE_EARLY_FRAGMENT_TESTS,
                aspect_mask,
            },
        )
    } else {
        None
    }
}

/// The access masks, stages and aspects of a layout transition; `None` for
/// a transition the renderer does not make.
pub fn layout_transition(old_layout: i32, new_layout: i32, format: i32) -> (r: Option<
    LayoutTransition,
>)
    ensures
        r == transition_for(old_layout, new_layout, format),
{
    let aspect_mask = if new_layout == LAYOUT_DEPTH_STENCIL_ATTACHMENT_OPTIMAL {
        if has_stencil_component(format) {
            ASPECT_DEPTH | ASPECT_STENCIL
        } else {
            ASPECT_DEPTH
        }
    } else {
        ASPECT_COLOR
    };
    if old_layout == LAYOUT_UNDEFINED && new_layout == LAYOUT_TRANSFER_DST_OPTIMAL {
        Some(
            LayoutTransition {
                src_access_mask: ACCESS_NONE,
                dst_access_mask: ACCESS_TRANSFER_WRITE,
                src_stage: STAGE_TOP_OF_PIPE,
                dst_stage: STAGE_TRANSFER,
                aspect_mask,
            },
        )
    } else if old_layout == LAYOUT_TRANSFER_DST_OPTIMAL && new_layout
        == LAYOUT_SHADER_READ_ONLY_OPTIMAL {
        Some(
            LayoutTransition {
                src_access_mask: ACCESS_TRANSFER_WRITE,
                dst_access_mask: ACCESS_SHADER_READ,
                src_stage: STAGE_TRANSFER,
                dst_stage: STAGE_FRAGMENT_SHADER,
                aspect_mask,
            },
        )
    } else if old_layout == LAYOUT_UNDEFINED && new_layout
        == LAYOUT_DEPTH_STENCIL_ATTACHMENT_OPTIMAL {
        Some(
            LayoutTransition {
                src_access_mask: ACCESS_NONE,
                dst_access_mask: ACCESS_DEPTH_STENCIL_ATTACHMENT_READ
                    | ACCESS_DEPTH_STENCIL_ATTACHMENT_WRITE,
                src_stage: STAGE_TOP_OF_PIPE,
                dst_stage: STAGE_EARLY_FRAGMENT_TESTS,
                aspect_mask,
            },
        )
    } else {
        None
    }
}

pub open spec fn format_supports(props: FormatProperties, tiling: i32, features: u32) -> bool {
    if tiling == IMAGE_TILING_LINEAR {
        flags_contain(props.linear_tiling_features, features)
    } else if tiling == IMAGE_TILING_OPTIMAL {
        flags_contain(props.optimal_tiling_features, features)
    } else {
        false
    }
}

/// The first of `candidates` that supports `features` with `tiling`;
/// `properties[i]` is what the device reports for `candidates[i]`.
pub fn find_supported_format(
    candidates: &Vec<i32>,
    properties: &Vec<FormatProperties>,
    tiling: i32,
    features: u32,
) -> (r: Option<i32>)
    requires
        candidates@.len() == properties@.len(),
    ensures
        match r {
            Some(f) => exists|i: int|
                0 <= i < candidates@.len() && candidates@[i] == f && format_supports(
                    properties@[i],
                    tiling,
                    features,
                ) && forall|j: int|
                    0 <= j < i ==> !format_supports(#[trigger] properties@[j], tiling, features),
            None => forall|j: int|
                0 <= j < properties@.len() ==> !format_supports(
                    #[trigger] properties@[j],
                    tiling,
                    features,
                ),
        },
{
    let mut i: usize = 0;
    while i < candidates.len()
        invariant
            i <= candidates@.len() == properties@.len(),
            forall|j: int|
                0 <= j < i ==> !format_supports(#[trigger] properties@[j], tiling, features),
        decreases candidates@.len() - i,
    {
        let props = properties[i];
        if tiling == IMAGE_TILING_LINEAR && props.linear_tiling_features & features == features {
            return Some(candidates[i]);
        } else if tiling == IMAGE_TILING_OPTIMAL && props.optimal_tiling_features & features
            == features {
            return Some(candidates[i]);
        }
        i = i + 1;
    }
    None
}

/// The depth formats the renderer can use, in order of preference.
pub fn depth_format_candidates() -> (r: Vec<i32>)
    ensures
        r@ == depth_candidates(),
{
    let mut r: Vec<i32> = Vec::new();
    r.push(FORMAT_D32_SFLOAT);
    r.push(FORMAT_D32_SFLOAT_S8_UINT);
    r.push(FORMAT_D24_UNORM_S8_UINT);
    proof {
        assert(r@ =~= seq![FORMAT_D32_SFLOAT, FORMAT_D32_SFLOAT_S8_UINT, FORMAT_D24_UNORM_S8_UINT]);
    }
    r
}

/// The first depth candidate usable as a depth attachment with optimal
/// tiling; `properties` holds what the device reports for each candidate.
pub fn find_depth_format(properties: &Vec<FormatProperties>) -> (r: Option<i32>)
    requires
        properties@.len() == 3,
    ensures
        match r {
            Some(f) => exists|i: int|
                0 <= i < 3 && depth_candidates()[i] == f && format_supports(
                    properties@[i],
                    IMAGE_TILING_OPTIMAL,
                    FORMAT_FEATURE_DEPTH_STENCIL_ATTACHMENT,
                ) && forall|j: int|
                    0 <= j < i ==> !format_supports(
                        #[trigger] properties@[j],
                        IMAGE_TILING_OPTIMAL,
                        FORMAT_FEATURE_DEPTH_STENCIL_ATTACHMENT,
                    ),
            None => forall|j: int|
                0 <= j < 3 ==> !format_supports(
                    #[trigger] properties@[j],
                    IMAGE_TILING_OPTIMAL,
                    FORMAT_FEATURE_DEPTH_STENCIL_ATTACHMENT,
                ),
        },
{
    let candidates = depth_format_candidates();
    find_supported_format(
        &candidates,
        properties,
        IMAGE_TILING_OPTIMAL,
        FORMAT_FEATURE_DEPTH_STENCIL_ATTACHMENT,
    )
}

pub open spec fn depth_candidates() -> Seq<i32> {
    seq![FORMAT_D32_SFLOAT, FORMAT_D32_SFLOAT_S8_UINT, FORMAT_D24_UNORM_S8_UINT]
}

} // verus!
