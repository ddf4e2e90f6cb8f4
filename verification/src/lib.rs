//! Folder icon customization: the verified core.
//!
//! Geometry, layer capabilities, layer state and caching, customization
//! profiles, SVG markup generation, and the bookkeeping around batch folder
//! operations. Pixel work (HSL recoloring, alpha blending, rasterization) and
//! all I/O live outside this crate's verified part.

pub mod geometry;
pub mod text;
pub mod markup;
pub mod medium;
pub mod icon;
pub mod color;
pub mod error;
pub mod source;
pub mod layer;
pub mod scale;
pub mod decal;
pub mod overlay;
pub mod profile;
pub mod capabilities;
pub mod dot;
pub mod svg_layer;
pub mod customizer;
pub mod core_error;
pub mod cache;
pub mod context;
pub mod progress;
pub mod cli_input;
pub mod theme;
pub mod codec;
pub mod transfer;
pub mod sizes;
