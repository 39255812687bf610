//! A texture with its view and its sampler, and how an image is laid out
//! when it is copied into one.

use vstd::prelude::*;
use crate::resource::{Extent3d, SamplerId, TextureFormat, TextureId, TextureViewId};

verus! {

#[derive(Clone, Copy, Debug, PartialEq, Eq, Structural)]
pub struct Texture {
    pub size: Extent3d,
    pub texture: TextureId,
    pub view: TextureViewId,
    pub sampler: SamplerId,
}

/// How the rows of an image lie in the buffer from which it is copied.
#[derive(Clone, Copy, Debug, PartialEq, Eq, Structural)]
pub struct TextureDataLayout {
    pub offset: u64,
    pub bytes_per_row: u32,
    pub rows_per_image: u32,
}

/// The number of bytes of one texel of an image.
pub const BYTES_PER_TEXEL: u32 = 4;

impl Texture {
    /// The format of depth textures.
    pub fn depth_format() -> (format: TextureFormat)
        ensures
            format == TextureFormat::Depth32Float,
    {
        TextureFormat::Depth32Float
    }

    /// The size of a texture of one layer.
    pub fn flat_size(width: u32, height: u32) -> (size: Extent3d)
        ensures
            size == (Extent3d { width, height, depth: 1 }),
    {
        Extent3d { width, height, depth: 1 }
    }

    /// The format of the texture of an image: a normal map holds linear
    /// numbers, every other image sRGB colour.
    pub fn image_format(is_normal_map: bool) -> (format: TextureFormat)
        ensures
            format == (if is_normal_map {
                TextureFormat::Rgba8Unorm
            } else {
                TextureFormat::Rgba8UnormSrgb
            }),
    {
        if is_normal_map {
            TextureFormat::Rgba8Unorm
        } else {
            TextureFormat::Rgba8UnormSrgb
        }
    }

    /// The layout of an image of `width` by `height` texels in the buffer
    /// from which it is copied: the rows follow each other without a gap.
    /// `None` when a row has more bytes than fit the layout's row length.
    pub fn image_layout(width: u32, height: u32) -> (layout: Option<TextureDataLayout>)
        ensures
            layout == (if BYTES_PER_TEXEL * width <= u32::MAX {
                Some(
                    TextureDataLayout {
                        offset: 0,
                        bytes_per_row: (BYTES_PER_TEXEL * width) as u32,
                        rows_per_image: height,
                    },
                )
            } else {
                None
            }),
    {
        match BYTES_PER_TEXEL.checked_mul(width) {
            Some(bytes_per_row) => Some(
                TextureDataLayout { offset: 0, bytes_per_row, rows_per_image: height },
            ),
            None => None,
        }
    }
}

} // verus!
