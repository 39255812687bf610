//! Handles by which this crate names GPU resources that its caller owns.

use vstd::prelude::*;

verus! {

/// Names a GPU buffer.
#[derive(Clone, Copy, Debug, PartialEq, Eq, Structural)]
pub struct BufferId(pub u32);

/// Names a GPU texture.
#[derive(Clone, Copy, Debug, PartialEq, Eq, Structural)]
pub struct TextureId(pub u32);

/// Names a view of a GPU texture.
#[derive(Clone, Copy, Debug, PartialEq, Eq, Structural)]
pub struct TextureViewId(pub u32);

/// Names a texture sampler.
#[derive(Clone, Copy, Debug, PartialEq, Eq, Structural)]
pub struct SamplerId(pub u32);

/// Names a bind group: a set of resources bound to the shaders together.
#[derive(Clone, Copy, Debug, PartialEq, Eq, Structural)]
pub struct BindGroupId(pub u32);

/// Names a bind group layout.
#[derive(Clone, Copy, Debug, PartialEq, Eq, Structural)]
pub struct BindGroupLayoutId(pub u32);

/// Names a render pipeline.
#[derive(Clone, Copy, Debug, PartialEq, Eq, Structural)]
pub struct PipelineId(pub u32);

/// The size of a texture, or of a region of one, in texels and layers.
#[derive(Clone, Copy, Debug, PartialEq, Eq, Structural)]
pub struct Extent3d {
    pub width: u32,
    pub height: u32,
    pub depth: u32,
}

/// The texel formats that the renderer uses.
#[derive(Clone, Copy, Debug, PartialEq, Eq, Structural)]
pub enum TextureFormat {
    /// Four bytes of linear colour.
    Rgba8Unorm,
    /// Four bytes of sRGB colour.
    Rgba8UnormSrgb,
    /// Four bytes of sRGB colour, blue first: the format of the output.
    Bgra8UnormSrgb,
    /// One single-precision depth value.
    Depth32Float,
}

/// A whole buffer, or a part of one, as a shader sees it.
#[derive(Clone, Copy, Debug, PartialEq, Eq, Structural)]
pub struct BufferBinding {
    pub buffer: BufferId,
    /// Where the part starts, in bytes.
    pub offset: u64,
    /// The size of the part in bytes; `None` for all that follows `offset`.
    pub size: Option<u64>,
}

/// The numbers from `start` up to, but not including, `end`.
#[derive(Clone, Copy, Debug, PartialEq, Eq, Structural)]
pub struct Span {
    pub start: u32,
    pub end: u32,
}

} // verus!
