//! The staged-upload protocol: data meant for device-local memory goes
//! through a host-visible staging buffer, then a one-time copy command moves
//! it to its destination.
use vstd::prelude::*;
use crate::memory::{
    MEMORY_PROPERTY_DEVICE_LOCAL,
    MEMORY_PROPERTY_HOST_COHERENT,
    MEMORY_PROPERTY_HOST_VISIBLE,
};

verus! {

pub const BUFFER_USAGE_TRANSFER_SRC: u32 = 0x1;

pub const BUFFER_USAGE_TRANSFER_DST: u32 = 0x2;

pub const BUFFER_USAGE_UNIFORM_BUFFER: u32 = 0x10;

pub const BUFFER_USAGE_INDEX_BUFFER: u32 = 0x40;

pub const BUFFER_USAGE_VERTEX_BUFFER: u32 = 0x80;

pub const IMAGE_USAGE_TRANSFER_DST: u32 = 0x2;

pub const IMAGE_USAGE_SAMPLED: u32 = 0x4;

#[derive(Clone, Copy, Debug, PartialEq, Eq, Structural)]
pub enum UploadError {
    /// There is nothing to upload.
    EmptyData,
    /// The pixel data does not hold four bytes for each texel.
    SizeMismatch,
    /// The size does not fit in a device size.
    TooLarge,
}

/// A buffer or image to create: its size in bytes, usage and memory properties.
#[derive(Clone, Copy, Debug, PartialEq, Eq, Structural)]
pub struct ResourceRequest {
    pub size: u64,
    pub usage: u32,
    pub memory_properties: u32,
}

/// The two resources of a staged upload and the size of the copy between them.
#[derive(Clone, Copy, Debug, PartialEq, Eq, Structural)]
pub struct StagingPlan {
    pub staging: ResourceRequest,
    pub destination: ResourceRequest,
    pub copy_size: u64,
}

pub open spec fn staging_request(size: u64) -> ResourceRequest {
    ResourceRequest {
        size,
        usage: BUFFER_USAGE_TRANSFER_SRC,
        memory_properties: MEMORY_PROPERTY_HOST_VISIBLE | MEMORY_PROPERTY_HOST_COHERENT,
    }
}

pub open spec fn staged_plan(size: u64, destination_usage: u32) -> StagingPlan {
    StagingPlan {
        staging: staging_request(size),
        destination: ResourceRequest {
            size,
            usage: destination_usage,
            memory_properties: MEMORY_PROPERTY_DEVICE_LOCAL,
        },
        copy_size: size,
    }
}

/// The bytes of a mapped region after `data` is copied to its start.
pub open spec fn written(region: Seq<u8>, data: Seq<u8>) -> Seq<u8> {
    data + region.skip(data.len() as int)
}

/// What a recorded copy of `size` bytes from the start of `src` to the start
/// of `dst` leaves in `dst`.
pub open spec fn device_copy(src: Seq<u8>, dst: Seq<u8>, size: nat) -> Seq<u8> {
    src.take(size as int) + dst.skip(size as int)
}

/// The staging and destination buffers for uploading `data_len` bytes into a
/// device-local buffer used as `usage`. Empty data is refused.
pub fn plan_buffer_upload(data_len: usize, usage: u32) -> (r: Result<StagingPlan, UploadError>)
    ensures
        data_len == 0 ==> r == Err::<StagingPlan, UploadError>(UploadError::EmptyData),
        data_len > 0 ==> r == Ok::<StagingPlan, UploadError>(
            staged_plan(data_len as u64, usage | BUFFER_USAGE_TRANSFER_DST),
        ),
{
    if data_len == 0 {
        return Err(UploadError::EmptyData);
    }
    let size = data_len as u64;
    Ok(
        StagingPlan {
            staging: ResourceRequest {
                size,
                usage: BUFFER_USAGE_TRANSFER_SRC,
                memory_properties: MEMORY_PROPERTY_HOST_VISIBLE | MEMORY_PROPERTY_HOST_COHERENT,
            },
            destination: ResourceRequest {
                size,
                usage: usage | BUFFER_USAGE_TRANSFER_DST,
                memory_properties: MEMORY_PROPERTY_DEVICE_LOCAL,
            },
            copy_size: size,
        },
    )
}

/// The staging buffer and sampled image for a texture of `width` by `height`
/// RGBA8 texels whose pixel data is `data_len` bytes long.
pub fn plan_texture_upload(width: u32, height: u32, data_len: usize) -> (r: Result<
    StagingPlan,
    UploadError,
>)
    ensures
        width * height * 4 > u64::MAX ==> r == Err::<StagingPlan, UploadError>(
            UploadError::TooLarge,
        ),
        width * height * 4 <= u64::MAX && width * height == 0 ==> r == Err::<
            StagingPlan,
            UploadError,
        >(UploadError::EmptyData),
        width * height * 4 <= u64::MAX && width * height > 0 && data_len != width * height * 4
            ==> r == Err::<StagingPlan, UploadError>(UploadError::SizeMismatch),
        width * height * 4 <= u64::MAX && width * height > 0 && data_len == width * height * 4
            ==> r == Ok::<StagingPlan, UploadError>(
            staged_plan(
                (width * height * 4) as u64,
                IMAGE_USAGE_TRANSFER_DST | IMAGE_USAGE_SAMPLED,
            ),
        ),
{
    proof {
        assert(width * height <= u32::MAX * u32::MAX) by (nonlinear_arith)
            requires
                width <= u32::MAX,
                height <= u32::MAX,
        ;
    }
    let texels = (width as u64) * (height as u64);
    let size = match texels.checked_mul(4) {
        Some(s) => s,
        None => {
            return Err(UploadError::TooLarge);
        },
    };
    if size == 0 {
        return Err(UploadError::EmptyData);
    }
    if data_len as u64 != size {
        return Err(UploadError::SizeMismatch);
    }
    Ok(
        StagingPlan {
            staging: ResourceRequest {
                size,
                usage: BUFFER_USAGE_TRANSFER_SRC,
                memory_properties: MEMORY_PROPERTY_HOST_VISIBLE | MEMORY_PROPERTY_HOST_COHERENT,
            },
            destination: ResourceRequest {
                size,
                usage: IMAGE_USAGE_TRANSFER_DST | IMAGE_USAGE_SAMPLED,
                memory_properties: MEMORY_PROPERTY_DEVICE_LOCAL,
            },
            copy_size: size,
        },
    )
}

/// Copies `data` to the start of a mapped memory region.
pub fn write_mapped(region: &mut [u8], data: &[u8])
    requires
        data@.len() <= old(region)@.len(),
    ensures
        final(region)@ == written(old(region)@, data@),
{
    let mut i: usize = 0;
    while i < data.len()
        invariant
            i <= data@.len() <= region@.len(),
            region@.len() == old(region)@.len(),
            region@ == data@.take(i as int) + old(region)@.skip(i as int),
        decreases data@.len() - i,
    {
        region[i] = data[i];
        i = i + 1;
        proof {
            assert(region@ =~= data@.take(i as int) + old(region)@.skip(i as int));
        }
    }
    proof {
        assert(data@.take(i as int) =~= data@);
    }
}

/// The first `len` bytes of a mapped memory region.
pub fn read_mapped(region: &[u8], len: usize) -> (r: Vec<u8>)
    requires
        len <= region@.len(),
    ensures
        r@ == region@.take(len as int),
{
    let mut r: Vec<u8> = Vec::new();
    let mut i: usize = 0;
    while i < len
        invariant
            i <= len <= region@.len(),
            r@ == region@.take(i as int),
        decreases len - i,
    {
        r.push(region[i]);
        i = i + 1;
        proof {
            assert(r@ =~= region@.take(i as int));
        }
    }
    r
}

/// A staged upload returns the bytes it was given: written into a staging
/// buffer of the planned size, copied to the device-local buffer, copied on
/// to a host-visible mirror and read back, they come out unchanged.
pub proof fn lemma_staged_upload_round_trip(
    data: Seq<u8>,
    usage: u32,
    staging: Seq<u8>,
    device: Seq<u8>,
    mirror: Seq<u8>,
)
    requires
        0 < data.len() <= usize::MAX,
        staging.len() == data.len(),
        device.len() == data.len(),
        mirror.len() == data.len(),
    ensures
        ({
            let plan = staged_plan(data.len() as u64, usage | BUFFER_USAGE_TRANSFER_DST);
            let staged = written(staging, data);
            let on_device = device_copy(staged, device, plan.copy_size as nat);
            let mirrored = device_copy(on_device, mirror, plan.copy_size as nat);
            &&& plan.staging.size == data.len()
            &&& plan.destination.size == data.len()
            &&& mirrored.take(data.len() as int) == data
        }),
{
    let plan = staged_plan(data.len() as u64, usage | BUFFER_USAGE_TRANSFER_DST);
    let staged = written(staging, data);
    let on_device = device_copy(staged, device, plan.copy_size as nat);
    let mirrored = device_copy(on_device, mirror, plan.copy_size as nat);
    assert(staged =~= data);
    assert(on_device =~= data);
    assert(mirrored.take(data.len() as int) =~= data);
}

} // verus!
