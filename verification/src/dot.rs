//! The color dot's geometry and markup, shared by the raster and vector
//! media so that both draw the same badge.
//!
//! The dot is a circle with a light ring, in its own `0 0 100 100`
//! coordinate space, placed in the bottom-right of the icon's content.

use vstd::prelude::*;
use crate::color::ColorDotConfig;
use crate::geometry::RectPx;
use crate::markup::{format_hex_color, hex_color};
use crate::text::{decimal, empty_string, push_decimal, push_str};

verus! {

/// Dot edge length, in percent of the icon's shorter content dimension.
pub const DOT_SCALE_PERCENT: u32 = 40;

/// Gap between the dot and the bottom-right corner, in the same units.
pub const DOT_MARGIN_PERCENT: u32 = 5;

/// The dot itself, in its own `0 0 100 100` coordinates.
pub open spec fn dot_circle(c: ColorDotConfig) -> Seq<char> {
    "<circle cx=\"50\" cy=\"50\" r=\"42\" fill=\""@ + hex_color(c.r, c.g, c.b)
        + "\" stroke=\"#ffffff\" stroke-width=\"8\"/>"@
}

/// A standalone SVG document holding just the dot, for rasterization.
pub open spec fn dot_document(c: ColorDotConfig) -> Seq<char> {
    "<svg xmlns=\"http://www.w3.org/2000/svg\" viewBox=\"0 0 100 100\">"@ + dot_circle(c) + "</svg>"@
}

/// The dot as a nested `<svg>` placed with percentage coordinates in the
/// bottom-right corner, inset by the margin, so that it needs nothing of the
/// base icon's own coordinate system.
pub open spec fn dot_fragment(c: ColorDotConfig) -> Seq<char> {
    let offset = decimal((100 - DOT_SCALE_PERCENT - DOT_MARGIN_PERCENT) as nat);
    let size = decimal(DOT_SCALE_PERCENT as nat);
    "<svg x=\""@ + offset + "%\" y=\""@ + offset + "%\" width=\""@ + size + "%\" height=\""@ + size
        + "%\" viewBox=\"0 0 100 100\" preserveAspectRatio=\"xMidYMid meet\">"@ + dot_circle(c)
        + "</svg>"@
}

/// The dot's circle markup.
pub fn color_dot_circle(config: &ColorDotConfig) -> (s: String)
    ensures
        s@ == dot_circle(*config),
{
    let fill = format_hex_color(config.r, config.g, config.b);
    let mut s = empty_string();
    push_str(&mut s, "<circle cx=\"50\" cy=\"50\" r=\"42\" fill=\"");
    push_str(&mut s, fill.as_str());
    push_str(&mut s, "\" stroke=\"#ffffff\" stroke-width=\"8\"/>");
    s
}

/// A standalone SVG document containing just the dot.
pub fn color_dot_svg(config: &ColorDotConfig) -> (s: String)
    ensures
        s@ == dot_document(*config),
{
    let circle = color_dot_circle(config);
    let mut s = empty_string();
    push_str(&mut s, "<svg xmlns=\"http://www.w3.org/2000/svg\" viewBox=\"0 0 100 100\">");
    push_str(&mut s, circle.as_str());
    push_str(&mut s, "</svg>");
    s
}

/// The dot as a nested, percentage-placed `<svg>` fragment.
pub fn color_dot_fragment(config: &ColorDotConfig) -> (s: String)
    ensures
        s@ == dot_fragment(*config),
{
    let circle = color_dot_circle(config);
    let offset: u64 = (100 - DOT_SCALE_PERCENT - DOT_MARGIN_PERCENT) as u64;
    let size: u64 = DOT_SCALE_PERCENT as u64;
    let mut s = empty_string();
    push_str(&mut s, "<svg x=\"");
    push_decimal(&mut s, offset);
    push_str(&mut s, "%\" y=\"");
    push_decimal(&mut s, offset);
    push_str(&mut s, "%\" width=\"");
    push_decimal(&mut s, size);
    push_str(&mut s, "%\" height=\"");
    push_decimal(&mut s, size);
    push_str(&mut s, "%\" viewBox=\"0 0 100 100\" preserveAspectRatio=\"xMidYMid meet\">");
    push_str(&mut s, circle.as_str());
    push_str(&mut s, "</svg>");
    s
}

/// The shorter side of a rectangle.
pub open spec fn min_side(bounds: RectPx) -> u32 {
    if bounds.width <= bounds.height {
        bounds.width
    } else {
        bounds.height
    }
}

/// The edge length, in pixels, at which the dot is rasterized for the given
/// content bounds.
pub open spec fn dot_size(bounds: RectPx) -> int {
    min_side(bounds) * DOT_SCALE_PERCENT / 100
}

/// The gap, in pixels, between the dot and the content's bottom-right corner.
pub open spec fn dot_margin(bounds: RectPx) -> int {
    min_side(bounds) * DOT_MARGIN_PERCENT / 100
}

/// The edge length, in pixels, at which to rasterize the dot; zero means
/// there is no room for a dot.
pub fn color_dot_size(bounds: &RectPx) -> (r: u32)
    ensures
        r == dot_size(*bounds),
{
    let m: u64 = if bounds.width <= bounds.height { bounds.width as u64 } else { bounds.height as u64 };
    (m * DOT_SCALE_PERCENT as u64 / 100) as u32
}

/// Where the top-left corner of a rasterized dot of `width` x `height`
/// pixels goes: against the content's bottom-right corner, inset by the
/// margin.
pub fn color_dot_origin(bounds: &RectPx, width: u32, height: u32) -> (r: (i64, i64))
    ensures
        r.0 == bounds.x + bounds.width - width - dot_margin(*bounds),
        r.1 == bounds.y + bounds.height - height - dot_margin(*bounds),
{
    let m: u64 = if bounds.width <= bounds.height { bounds.width as u64 } else { bounds.height as u64 };
    let margin: i64 = (m * DOT_MARGIN_PERCENT as u64 / 100) as i64;
    let right: i64 = bounds.x as i64 + bounds.width as i64;
    let bottom: i64 = bounds.y as i64 + bounds.height as i64;
    (right - width as i64 - margin, bottom - height as i64 - margin)
}

} // verus!
