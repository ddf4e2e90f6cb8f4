//! The decal layer's configuration: a monochrome SVG glyph imprinted into
//! the center of the folder's face, tinted a little darker than the folder.

use vstd::prelude::*;
use crate::color::DominantColor;
use crate::dot::min_side;
use crate::geometry::{RectPx, SurfaceColor};
use crate::layer::LayerConfig;
use crate::scale::{clamp_scale, clamped_scale, scale_differs, scales_differ};
use crate::source::{SvgSource, SvgSourceView};

verus! {

/// The model of a decal configuration.
pub struct DecalConfigView {
    pub source: SvgSourceView,
    pub scale: u32,
}

/// Configuration for a decal imprint: the SVG source (a single-color glyph)
/// and its scale relative to the icon's content bounds.
///
/// For full-color SVGs or emoji, use an image overlay instead.
#[derive(Debug)]
pub struct DecalConfig {
    /// The SVG source.
    pub source: SvgSource,
    /// Scale relative to the content bounds, in ten-thousandths.
    pub scale: u32,
}

impl View for DecalConfig {
    type V = DecalConfigView;

    open spec fn view(&self) -> DecalConfigView {
        DecalConfigView { source: self.source@, scale: self.scale }
    }
}

impl DecalConfig {
    /// Creates a decal config from raw SVG markup; the scale is clamped to
    /// the whole content bounds.
    pub fn new(svg: &str, scale: u32) -> (c: Self)
        ensures
            c@ == (DecalConfigView { source: SvgSourceView::Raw(svg@), scale: clamped_scale(scale) }),
    {
        DecalConfig { source: SvgSource::from_svg(svg), scale: clamp_scale(scale) }
    }
}

impl LayerConfig for DecalConfig {
    open spec fn renders_differently(a: DecalConfigView, b: DecalConfigView) -> bool {
        a.source != b.source || scales_differ(a.scale, b.scale)
    }

    proof fn lemma_same_renders_same(a: DecalConfigView) {
    }

    fn differs_from(&self, other: &Self) -> (r: bool) {
        !self.source.same_as(&other.source) || scale_differs(self.scale, other.scale)
    }

    fn duplicate(&self) -> (r: Self) {
        DecalConfig { source: self.source.duplicate(), scale: self.scale }
    }
}

/// The color a decal is tinted from, before darkening: the dominant color
/// an upstream layer emitted, else the opaque surface color.
pub open spec fn decal_source_color(dominant: Option<DominantColor>, surface: SurfaceColor) -> (u8, u8, u8, u8) {
    match dominant {
        Some(c) => (c.r, c.g, c.b, c.a),
        None => (surface.r, surface.g, surface.b, 255),
    }
}

/// Chooses the color a decal is tinted from: the dominant color when an
/// upstream layer emitted one, else the base icon's surface color, opaque.
pub fn decal_base_color(dominant: Option<DominantColor>, surface: Option<SurfaceColor>) -> (r: (u8, u8, u8, u8))
    requires
        dominant is Some || surface is Some,
    ensures
        r == decal_source_color(dominant, surface->0),
{
    match dominant {
        Some(c) => c.as_tuple(),
        None => match surface {
            Some(sc) => (sc.r, sc.g, sc.b, 255),
            None => (0, 0, 0, 255),
        },
    }
}

/// The edge length, in pixels, of a decal or overlay of the given scale
/// within `bounds`: that fraction of the shorter side, rounded down.
pub open spec fn scaled_edge(bounds: RectPx, scale: u32) -> int {
    min_side(bounds) * scale / crate::scale::FULL_SCALE as int
}

/// The edge length, in pixels, of a decal or overlay of the given scale
/// within `bounds`; zero means nothing is drawn.
pub fn scaled_size(bounds: &RectPx, scale: u32) -> (r: u32)
    requires
        scale <= crate::scale::FULL_SCALE,
    ensures
        r == scaled_edge(*bounds, scale),
{
    let m: u64 = if bounds.width <= bounds.height { bounds.width as u64 } else { bounds.height as u64 };
    assert(m * scale <= m * 10000) by (nonlinear_arith)
        requires
            scale <= 10000,
    ;
    assert(m * scale / 10000 <= m) by (nonlinear_arith)
        requires
            m * scale <= m * 10000,
    ;
    (m * scale as u64 / 10000) as u32
}

} // verus!
