//! Shared geometric and transform primitives for describing a vector-graphics
//! scene: shapes with style and a pipeline of affine operations each, grouped
//! into trees, and the bounds of such trees.
//!
//! Numbers are carried as the bit patterns of binary64 values
//! ([`scalar::Scalar`]). The library places them, compares them and hands
//! them on; arithmetic on them is the caller's.

pub mod bounding_box;
pub mod color;
pub mod geometry;
pub mod geometry3d;
pub mod input;
pub mod key;
pub mod math;
pub mod pixel_array;
pub mod placement;
pub mod scalar;
pub mod span;
pub mod style;
pub mod styling;
pub mod texture;
pub mod transformation;
pub mod viewport;
pub mod visualiser;

pub use crate::bounding_box::Footprint;
pub use crate::color::{Color, Pixel};
pub use crate::geometry::Geometry2D;
pub use crate::geometry3d::Geometry3D;
pub use crate::pixel_array::PixelArray;
pub use crate::span::Span;
pub use crate::style::{CornerShape, LineShape};
pub use crate::texture::TextureSource;
pub use crate::viewport::{Viewport2D, Viewport2DModification, Viewport3D, ViewportRemap};
pub use crate::visualiser::{
    DrawableEnvironment, InputAgentError, InputAgentStorage, InputProvider,
    PixelArrayDrawableEnvironment, PixelArrayVisualiser, TextDrawableEnvironment, TextVisualiser,
    ThreeDimensionalDrawableEnvironment, ThreeDimensionalVisualiser,
    TwoDimensionalDrawableEnvironment, TwoDimensionalVisualiser, Visualiser,
};
