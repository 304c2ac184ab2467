//! Checking texel uploads and planning texture creation.
use vstd::prelude::*;
use crate::error::{Error, ErrorKind, recoverable_error};
use crate::types::{
    GpuTextureFormat, TextureDescriptor, TexelFormat, bytes_per_pixel, map_texture_format,
    spec_bytes_per_pixel, spec_map_texture_format,
};

verus! {

/// How texels are copied into a texture: the size of the copied region, the
/// row pitch, and how many bytes of the data are copied.
#[derive(Clone, Copy, Debug, PartialEq, Eq, Hash, Structural)]
pub struct TextureUploadPlan {
    pub width: u32,
    pub height: u32,
    pub bytes_per_row: u32,
    pub rows_per_image: u32,
    pub expected_len: usize,
}

/// `x`, or one when it is zero.
pub open spec fn at_least_one(x: u32) -> u32 {
    if x == 0 { 1 } else { x }
}

/// The descriptor format that texels of a backend format are read as, if
/// texels of that format can be uploaded.
pub open spec fn upload_format(format: GpuTextureFormat) -> Option<TexelFormat> {
    match format {
        GpuTextureFormat::Rgba8Unorm => Some(TexelFormat::Rgba8Unorm),
        _ => None,
    }
}

/// The result of checking an upload of `data_len` bytes into a texture of
/// the given format and size (zero sizes count as one): the format must be
/// uploadable, the byte count must fit in a `u64` and a `usize`, and the
/// data must hold at least that many bytes.
pub open spec fn spec_texture_upload(format: GpuTextureFormat, width: u32, height: u32, data_len: nat) -> Result<TextureUploadPlan, Error> {
    let w = at_least_one(width);
    let h = at_least_one(height);
    match upload_format(format) {
        None => Err(recoverable_error(ErrorKind::Unsupported("texture_format_not_supported"))),
        Some(f) => {
            let bpp = spec_bytes_per_pixel(f) as int;
            let expected = w as int * h as int * bpp;
            if expected > u64::MAX || expected > usize::MAX {
                Err(recoverable_error(ErrorKind::InvalidDescriptor("texture_size_overflow")))
            } else if data_len < expected {
                Err(recoverable_error(ErrorKind::TextureUploadFailed("texture_data_too_small")))
            } else {
                Ok(TextureUploadPlan {
                    width: w,
                    height: h,
                    bytes_per_row: (w as int * bpp) as u32,
                    rows_per_image: h,
                    expected_len: expected as usize,
                })
            }
        },
    }
}

/// Checks an upload of `data` into a texture of the given format and size.
pub fn validate_texture_upload(format: GpuTextureFormat, width: u32, height: u32, data: &[u8]) -> (r: Result<TextureUploadPlan, Error>)
    ensures
        r == spec_texture_upload(format, width, height, data@.len()),
{
    let mapped = match format {
        GpuTextureFormat::Rgba8Unorm => TexelFormat::Rgba8Unorm,
        _ => {
            return Err(Error::recoverable(ErrorKind::Unsupported("texture_format_not_supported")));
        },
    };
    let width = if width == 0 { 1 } else { width };
    let height = if height == 0 { 1 } else { height };
    let bpp = bytes_per_pixel(mapped) as u64;
    let expected = match (width as u64).checked_mul(height as u64) {
        Some(area) => area.checked_mul(bpp),
        None => None,
    };
    let expected = match expected {
        Some(e) => e,
        None => {
            return Err(Error::recoverable(ErrorKind::InvalidDescriptor("texture_size_overflow")));
        },
    };
    if expected > usize::MAX as u64 {
        return Err(Error::recoverable(ErrorKind::InvalidDescriptor("texture_size_overflow")));
    }
    let expected_len = expected as usize;
    if data.len() < expected_len {
        return Err(Error::recoverable(ErrorKind::TextureUploadFailed("texture_data_too_small")));
    }
    assert(width as int * bpp <= expected) by (nonlinear_arith)
        requires
            expected == width as int * height as int * bpp,
            height >= 1,
            bpp >= 0,
    ;
    Ok(TextureUploadPlan {
        width,
        height,
        bytes_per_row: (width as u64 * bpp) as u32,
        rows_per_image: height,
        expected_len,
    })
}

/// A texture to create and fill: its size and format, the copy, and the
/// data of which the first `upload.expected_len` bytes are copied.
#[derive(Clone, Debug, PartialEq, Eq)]
pub struct TexturePlan {
    pub width: u32,
    pub height: u32,
    pub format: GpuTextureFormat,
    pub upload: TextureUploadPlan,
    pub data: Vec<u8>,
}

/// Plans the creation of a texture: zero sizes count as one, the format is
/// the backend format of the descriptor's, and its data must make a
/// valid upload.
pub fn create_wgpu_texture(texture: TextureDescriptor) -> (r: Result<TexturePlan, Error>)
    ensures
        match spec_texture_upload(
            spec_map_texture_format(texture.format),
            at_least_one(texture.width),
            at_least_one(texture.height),
            texture.data@.len(),
        ) {
            Ok(upload) => r matches Ok(plan) && plan.upload == upload
                && plan.width == at_least_one(texture.width)
                && plan.height == at_least_one(texture.height)
                && plan.format == spec_map_texture_format(texture.format)
                && plan.data@ == texture.data@,
            Err(e) => r == Err::<TexturePlan, Error>(e),
        },
{
    let format = map_texture_format(texture.format);
    let width = if texture.width == 0 { 1 } else { texture.width };
    let height = if texture.height == 0 { 1 } else { texture.height };
    let upload = validate_texture_upload(format, width, height, texture.data.as_slice());
    match upload {
        Ok(upload) => Ok(TexturePlan { width, height, format, upload, data: texture.data }),
        Err(e) => Err(e),
    }
}

/// The bytes of a valid upload are a prefix of the data, and as many as
/// the texels of the (at least one by one) region need.
pub proof fn lemma_upload_covers_region(format: GpuTextureFormat, width: u32, height: u32, data_len: nat)
    requires
        spec_texture_upload(format, width, height, data_len) is Ok,
    ensures
        ({
            let plan = spec_texture_upload(format, width, height, data_len)->Ok_0;
            &&& plan.expected_len <= data_len
            &&& plan.expected_len == plan.width as int * plan.height as int * 4
            &&& plan.width >= 1 && plan.height >= 1
            &&& format == GpuTextureFormat::Rgba8Unorm
        }),
{
}

} // verus!
