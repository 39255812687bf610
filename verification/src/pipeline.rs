//! The depth settings of a render pipeline.

use vstd::prelude::*;
use crate::math::{Scalar, ZERO};
use crate::resource::TextureFormat;

verus! {

/// How a pipeline tests and biases depth. The slope scale and the clamp are
/// single-precision bit patterns.
#[derive(Clone, Copy, Debug, PartialEq, Eq, Structural)]
pub struct DepthConfig {
    pub format: TextureFormat,
    pub bias: i32,
    pub bias_slope_scale: Scalar,
    pub bias_clamp: Scalar,
}

impl DepthConfig {
    /// Depth without bias, as the forward pass tests it.
    pub fn no_bias() -> (config: Self)
        ensures
            config == (DepthConfig {
                format: TextureFormat::Depth32Float,
                bias: 0,
                bias_slope_scale: ZERO,
                bias_clamp: ZERO,
            }),
    {
        DepthConfig {
            format: TextureFormat::Depth32Float,
            bias: 0,
            bias_slope_scale: ZERO,
            bias_clamp: ZERO,
        }
    }
}

impl Default for DepthConfig {
    /// Depth with the bias of the shadow pass: a constant bias of 2, which
    /// goes with bilinear filtering, and a slope scale of 2.0.
    fn default() -> (config: Self)
        ensures
            config == (DepthConfig {
                format: TextureFormat::Depth32Float,
                bias: 2,
                bias_slope_scale: 0x4000_0000,
                bias_clamp: ZERO,
            }),
    {
        DepthConfig {
            format: TextureFormat::Depth32Float,
            bias: 2,
            bias_slope_scale: 0x4000_0000,
            bias_clamp: ZERO,
        }
    }
}

} // verus!
