//! How an image is put on the GPU: whether a new copy is uploaded at all, whether the
//! previous texture and view are reused, and the layout of the bytes written into a
//! reused texture.
//!
//! The GPU calls themselves are made by the renderer; the plans they follow are made here.
use vstd::prelude::*;

use wgpu_types::TextureFormat;

verus! {

#[verifier::external_type_specification]
#[verifier::external_body]
pub struct ExTextureFormat(wgpu_types::TextureFormat);

/// The width and height, in texels, of one block of a texture format.
pub uninterp spec fn block_dimensions(format: TextureFormat) -> (u32, u32);

/// The bytes one texel block of a texture format occupies in a copy, where a copy of the
/// whole format is possible.
pub uninterp spec fn block_copy_size(format: TextureFormat) -> Option<u32>;

/// `wgpu_types::TextureFormat::block_dimensions`: claims the result is
/// `block_dimensions(format)`, both sides at least one, as every arm of its source gives.
#[verifier::external_body]
fn format_block_dimensions(format: TextureFormat) -> (r: (u32, u32))
    ensures
        r == block_dimensions(format),
        r.0 >= 1,
        r.1 >= 1,
{
    format.block_dimensions()
}

/// `wgpu_types::TextureFormat::block_copy_size` with no aspect: claims the result is
/// `block_copy_size(format)`.
#[verifier::external_body]
fn format_block_copy_size(format: TextureFormat) -> (r: Option<u32>)
    ensures
        r == block_copy_size(format),
{
    format.block_copy_size(None)
}

/// Takes the image's data for the GPU, leaving the image without it, and says whether a
/// GPU copy is uploaded: when the image had data, or when there is no previous GPU copy
/// or the previous one was made without data. An upload carries the data taken (or
/// none).
pub fn take_gpu_copy<D>(data: &mut Option<D>, previous_had_data: Option<bool>) -> (r: Option<
    Option<D>,
>)
    ensures
        *final(data) is None,
        r == if *old(data) is Some || previous_had_data != Some(true) {
            Some(*old(data))
        } else {
            None::<Option<D>>
        },
{
    let taken = data.take();
    let upload = taken.is_some() || match previous_had_data {
        None => true,
        Some(had) => !had,
    };
    if upload {
        Some(taken)
    } else {
        None
    }
}

/// The layout of the bytes written into a texture: bytes per row of blocks and rows of
/// blocks per image.
#[derive(Clone, Copy, Debug, PartialEq, Eq, Structural)]
pub struct CopyLayout {
    /// Bytes in one row of texel blocks.
    pub bytes_per_row: u32,
    /// Rows of texel blocks in one image.
    pub rows_per_image: u32,
}

/// What is done for the texture of an image.
#[derive(Clone, Copy, Debug, PartialEq, Eq, Structural)]
pub enum TexturePlan {
    /// Keep the previous texture and write the image's data into it with this layout.
    ReuseAndWrite(CopyLayout),
    /// Keep the previous texture as it is.
    Reuse,
    /// Create a texture holding the image's data.
    CreateWithData,
    /// Create a texture without data.
    CreateEmpty,
}

/// The bytes per row of a `width`-texel-wide image in blocks `block_width` texels wide of
/// `block_bytes` bytes each: whole blocks only.
pub open spec fn row_bytes(width: u32, block_width: u32, block_bytes: u32) -> int {
    (width / block_width) as int * block_bytes as int
}

/// The plan for an image's texture. The previous texture is kept when it is a candidate
/// (there is one and its descriptor equals the image's) and the format can be copied
/// whole (`block_bytes` is known); the image's data, if any, is then written into it.
/// Otherwise a new texture is created, with the data if there is any.
pub fn plan_texture(
    previous_matches: bool,
    block_bytes: Option<u32>,
    block_dims: (u32, u32),
    has_data: bool,
    width: u32,
    height: u32,
) -> (r: TexturePlan)
    requires
        block_dims.0 >= 1,
        block_dims.1 >= 1,
        previous_matches && has_data && block_bytes is Some ==> row_bytes(
            width,
            block_dims.0,
            block_bytes->0,
        ) <= u32::MAX,
    ensures
        r == if previous_matches && block_bytes is Some {
            if has_data {
                TexturePlan::ReuseAndWrite(
                    CopyLayout {
                        bytes_per_row: row_bytes(width, block_dims.0, block_bytes->0) as u32,
                        rows_per_image: height / block_dims.1,
                    },
                )
            } else {
                TexturePlan::Reuse
            }
        } else if has_data {
            TexturePlan::CreateWithData
        } else {
            TexturePlan::CreateEmpty
        },
{
    match block_bytes {
        Some(bytes) if previous_matches => {
            if has_data {
                let per_row = width / block_dims.0;
                TexturePlan::ReuseAndWrite(
                    CopyLayout {
                        bytes_per_row: per_row * bytes,
                        rows_per_image: height / block_dims.1,
                    },
                )
            } else {
                TexturePlan::Reuse
            }
        },
        _ => {
            if has_data {
                TexturePlan::CreateWithData
            } else {
                TexturePlan::CreateEmpty
            }
        },
    }
}

/// The plan for the texture of an image in `format`, asking `wgpu_types` for the format's
/// block size and copy footprint; `None` when the bytes per row of a write would not fit
/// in 32 bits, where the plan cannot be made.
pub fn plan_texture_for_format(
    format: TextureFormat,
    previous_matches: bool,
    has_data: bool,
    width: u32,
    height: u32,
) -> (r: Option<TexturePlan>)
    ensures
        ({
            let dims = block_dimensions(format);
            let bytes = block_copy_size(format);
            let fits = !(previous_matches && has_data && bytes is Some) || row_bytes(
                width,
                dims.0,
                bytes->0,
            ) <= u32::MAX;
            &&& dims.0 >= 1 && dims.1 >= 1
            &&& r is Some <==> fits
            &&& r matches Some(p) ==> p == if previous_matches && bytes is Some {
                if has_data {
                    TexturePlan::ReuseAndWrite(
                        CopyLayout {
                            bytes_per_row: row_bytes(width, dims.0, bytes->0) as u32,
                            rows_per_image: height / dims.1,
                        },
                    )
                } else {
                    TexturePlan::Reuse
                }
            } else if has_data {
                TexturePlan::CreateWithData
            } else {
                TexturePlan::CreateEmpty
            }
        }),
{
    let dims = format_block_dimensions(format);
    let bytes = format_block_copy_size(format);
    if previous_matches && has_data {
        if let Some(b) = bytes {
            let per_row = width / dims.0;
            if per_row.checked_mul(b).is_none() {
                return None;
            }
        }
    }
    Some(plan_texture(previous_matches, bytes, dims, has_data, width, height))
}

/// What is done for the view of an image's texture.
#[derive(Clone, Copy, Debug, PartialEq, Eq, Structural)]
pub enum ViewPlan {
    /// Keep the previous view.
    Reuse,
    /// Create a view from the image's own view descriptor.
    FromDescriptor,
    /// Create a view with the default descriptor.
    Default,
}

/// The plan for the view of an image's texture: the previous view is kept when there is a
/// previous texture whose descriptor equals the image's and the previous view descriptor
/// equals the image's too; otherwise a view is created from the image's view descriptor if
/// it has one, or with the default descriptor.
pub fn plan_view(
    previous_matches: bool,
    view_descriptor_matches: bool,
    has_view_descriptor: bool,
) -> (r: ViewPlan)
    ensures
        r == if previous_matches && view_descriptor_matches {
            ViewPlan::Reuse
        } else if has_view_descriptor {
            ViewPlan::FromDescriptor
        } else {
            ViewPlan::Default
        },
{
    if previous_matches && view_descriptor_matches {
        ViewPlan::Reuse
    } else if has_view_descriptor {
        ViewPlan::FromDescriptor
    } else {
        ViewPlan::Default
    }
}

} // verus!
