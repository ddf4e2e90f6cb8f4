//! The image overlay layer's configuration and its placement within the
//! content bounds of a raster icon.

use vstd::prelude::*;
use crate::error::RenderError;
use crate::geometry::RectPx;
use crate::layer::LayerConfig;
use crate::scale::{clamp_scale, clamped_scale, scale_differs, scales_differ};
use crate::source::{ImageSource, ImageSourceView, SvgSource, SvgSourceView, resolve_twemoji, twemoji_svg_for_name};
use crate::text::str_equals;

verus! {

/// Position for image overlay placement.
#[derive(Debug, Clone, Copy, PartialEq, Eq, Structural)]
pub enum OverlayPosition {
    /// Bottom-left corner of content bounds.
    BottomLeft,
    /// Bottom-right corner of content bounds.
    BottomRight,
    /// Top-left corner of content bounds.
    TopLeft,
    /// Top-right corner of content bounds.
    TopRight,
    /// Centered within content bounds.
    Center,
}

/// How an overlay is anchored relative to the chosen position.
#[derive(Debug, Clone, Copy, PartialEq, Eq, Structural)]
pub enum OverlayAnchorMode {
    /// Keep the overlay fully inside the content bounds.
    Inset,
    /// Center the overlay on the chosen content corner so it can hang off.
    Centered,
}

impl Default for OverlayAnchorMode {
    fn default() -> (r: Self)
        ensures
            r == OverlayAnchorMode::Inset,
    {
        OverlayAnchorMode::Inset
    }
}

/// The model of an overlay configuration.
pub struct OverlayConfigView {
    pub source: ImageSourceView,
    pub position: OverlayPosition,
    pub anchor_mode: OverlayAnchorMode,
    pub scale: u32,
}

/// Configuration for an image overlay: the image source, where it goes, how
/// it is anchored there, and its scale relative to the content bounds.
#[derive(Debug)]
pub struct ImageOverlayConfig {
    /// The image source (SVG, emoji, or raster).
    pub source: ImageSource,
    /// Position within the icon's content bounds.
    pub position: OverlayPosition,
    /// How the overlay is anchored relative to the chosen position.
    pub anchor_mode: OverlayAnchorMode,
    /// Scale relative to the content bounds, in ten-thousandths.
    pub scale: u32,
}

impl View for ImageOverlayConfig {
    type V = OverlayConfigView;

    open spec fn view(&self) -> OverlayConfigView {
        OverlayConfigView {
            source: self.source@,
            position: self.position,
            anchor_mode: self.anchor_mode,
            scale: self.scale,
        }
    }
}

impl ImageOverlayConfig {
    /// Creates an overlay config from any image source; the scale is clamped
    /// to the whole content bounds.
    pub fn new(
        source: ImageSource,
        position: OverlayPosition,
        anchor_mode: OverlayAnchorMode,
        scale: u32,
    ) -> (c: Self)
        ensures
            c@ == (OverlayConfigView {
                source: source@,
                position,
                anchor_mode,
                scale: clamped_scale(scale),
            }),
    {
        ImageOverlayConfig { source, position, anchor_mode, scale: clamp_scale(scale) }
    }

    /// Creates an overlay config from raw SVG markup.
    pub fn from_svg(
        svg: &str,
        position: OverlayPosition,
        anchor_mode: OverlayAnchorMode,
        scale: u32,
    ) -> (c: Self)
        ensures
            c@ == (OverlayConfigView {
                source: ImageSourceView::Svg(SvgSourceView::Raw(svg@)),
                position,
                anchor_mode,
                scale: clamped_scale(scale),
            }),
    {
        Self::new(ImageSource::from_svg_source(SvgSource::from_svg(svg)), position, anchor_mode, scale)
    }

    /// Creates an overlay config from an emoji character; fails when Twemoji
    /// has no asset for it.
    pub fn from_emoji(
        emoji: &str,
        position: OverlayPosition,
        anchor_mode: OverlayAnchorMode,
        scale: u32,
    ) -> (r: Result<Self, RenderError>)
        ensures
            resolve_twemoji(emoji@) is Some <==> r is Ok,
            r matches Ok(c) ==> c@ == (OverlayConfigView {
                source: ImageSourceView::Svg(SvgSourceView::Emoji(emoji@)),
                position,
                anchor_mode,
                scale: clamped_scale(scale),
            }),
            r matches Err(e) ==> e matches RenderError::InvalidEmoji { emoji: bad } && bad@
                == emoji@,
    {
        match SvgSource::from_emoji(emoji) {
            Ok(source) => Ok(Self::new(ImageSource::from_svg_source(source), position, anchor_mode, scale)),
            Err(e) => Err(e),
        }
    }

    /// Creates an overlay config from an emoji name (e.g., "duck"); fails
    /// when Twemoji does not know the name.
    pub fn from_emoji_name(
        name: &str,
        position: OverlayPosition,
        anchor_mode: OverlayAnchorMode,
        scale: u32,
    ) -> (r: Result<Self, RenderError>)
        ensures
            twemoji_svg_for_name(name@) is Some <==> r is Ok,
            r matches Ok(c) ==> c@ == (OverlayConfigView {
                source: ImageSourceView::Svg(SvgSourceView::EmojiName(name@)),
                position,
                anchor_mode,
                scale: clamped_scale(scale),
            }),
            r matches Err(e) ==> e matches RenderError::InvalidEmojiName { name: bad } && bad@
                == name@,
    {
        match SvgSource::from_emoji_name(name) {
            Ok(source) => Ok(Self::new(ImageSource::from_svg_source(source), position, anchor_mode, scale)),
            Err(e) => Err(e),
        }
    }

    /// Creates an overlay config from PNG-encoded raster data.
    pub fn from_raster(
        png_data: Vec<u8>,
        position: OverlayPosition,
        anchor_mode: OverlayAnchorMode,
        scale: u32,
    ) -> (c: Self)
        ensures
            c@ == (OverlayConfigView {
                source: ImageSourceView::Raster(png_data@),
                position,
                anchor_mode,
                scale: clamped_scale(scale),
            }),
    {
        Self::new(ImageSource::raster(png_data), position, anchor_mode, scale)
    }
}

impl LayerConfig for ImageOverlayConfig {
    open spec fn renders_differently(a: OverlayConfigView, b: OverlayConfigView) -> bool {
        a.source != b.source || a.position != b.position || a.anchor_mode != b.anchor_mode
            || scales_differ(a.scale, b.scale)
    }

    proof fn lemma_same_renders_same(a: OverlayConfigView) {
    }

    fn differs_from(&self, other: &Self) -> (r: bool) {
        !self.source.same_as(&other.source) || self.position != other.position
            || self.anchor_mode != other.anchor_mode || scale_differs(self.scale, other.scale)
    }

    fn duplicate(&self) -> (r: Self) {
        ImageOverlayConfig {
            source: self.source.duplicate(),
            position: self.position,
            anchor_mode: self.anchor_mode,
            scale: self.scale,
        }
    }
}

/// Half of `v`, rounded toward zero.
pub open spec fn half_toward_zero(v: int) -> int {
    if v >= 0 {
        v / 2
    } else {
        -((-v) / 2)
    }
}

/// Top-left corner, in pixels, of an overlay of `ow` x `oh` pixels placed
/// at `position` within `bounds`.
///
/// `Inset` keeps the overlay inside the bounds; `Centered` centers it on the
/// chosen corner, so that it may hang off the bounds. Halves are rounded
/// toward zero.
pub open spec fn overlay_origin(
    position: OverlayPosition,
    anchor_mode: OverlayAnchorMode,
    bounds: RectPx,
    ow: int,
    oh: int,
) -> (int, int) {
    let bx = bounds.x as int;
    let by = bounds.y as int;
    let bw = bounds.width as int;
    let bh = bounds.height as int;
    match position {
        OverlayPosition::Center => (bx + half_toward_zero(bw - ow), by + half_toward_zero(bh - oh)),
        OverlayPosition::TopLeft => match anchor_mode {
            OverlayAnchorMode::Inset => (bx, by),
            OverlayAnchorMode::Centered => (bx - ow / 2, by - oh / 2),
        },
        OverlayPosition::TopRight => match anchor_mode {
            OverlayAnchorMode::Inset => (bx + bw - ow, by),
            OverlayAnchorMode::Centered => (bx + bw - ow / 2, by - oh / 2),
        },
        OverlayPosition::BottomLeft => match anchor_mode {
            OverlayAnchorMode::Inset => (bx, by + bh - oh),
            OverlayAnchorMode::Centered => (bx - ow / 2, by + bh - oh / 2),
        },
        OverlayPosition::BottomRight => match anchor_mode {
            OverlayAnchorMode::Inset => (bx + bw - ow, by + bh - oh),
            OverlayAnchorMode::Centered => (bx + bw - ow / 2, by + bh - oh / 2),
        },
    }
}

/// `base + (extent - size) / 2`, with the half rounded toward zero.
fn centered_offset(base: u32, extent: u32, size: u32) -> (r: i64)
    ensures
        r == base as int + half_toward_zero(extent as int - size as int),
{
    if extent >= size {
        base as i64 + ((extent - size) / 2) as i64
    } else {
        base as i64 - ((size - extent) / 2) as i64
    }
}

/// The `i32` that two's-complement arithmetic on 32 bits leaves of `x`:
/// the value in `i32::MIN..=i32::MAX` congruent to `x` modulo 2^32.
#[verifier::opaque]
pub open spec fn wrap_i32(x: int) -> int {
    let m = x % 0x1_0000_0000;
    if m >= 0x8000_0000 {
        m - 0x1_0000_0000
    } else {
        m
    }
}

/// A value off the `i32` range by less than 2^32 wraps back by one turn.
proof fn lemma_wrap_i32_once(x: int)
    requires
        -0x1_8000_0000 <= x < 0x1_8000_0000,
    ensures
        wrap_i32(x) == if x > i32::MAX {
            x - 0x1_0000_0000
        } else if x < i32::MIN {
            x + 0x1_0000_0000
        } else {
            x
        },
{
    reveal(wrap_i32);
    let m: int = 0x1_0000_0000;
    if x >= m {
        vstd::arithmetic::div_mod::lemma_mod_add_multiples_vanish(x - m, m);
        vstd::arithmetic::div_mod::lemma_small_mod((x - m) as nat, m as nat);
    } else if x >= 0 {
        vstd::arithmetic::div_mod::lemma_small_mod(x as nat, m as nat);
    } else if x >= -m {
        vstd::arithmetic::div_mod::lemma_mod_sub_multiples_vanish(x + m, m);
        vstd::arithmetic::div_mod::lemma_small_mod((x + m) as nat, m as nat);
    } else {
        vstd::arithmetic::div_mod::lemma_mod_sub_multiples_vanish(x + m, m);
        vstd::arithmetic::div_mod::lemma_mod_sub_multiples_vanish(x + 2 * m, m);
        vstd::arithmetic::div_mod::lemma_small_mod((x + 2 * m) as nat, m as nat);
    }
}

/// Wraps a value at most one turn off the `i32` range into it.
fn wrap_to_i32(x: i64) -> (r: i32)
    requires
        -0x1_8000_0000 <= x < 0x1_8000_0000,
    ensures
        r as int == wrap_i32(x as int),
{
    proof {
        lemma_wrap_i32_once(x as int);
    }
    if x > 0x7fff_ffff {
        (x - 0x1_0000_0000) as i32
    } else if x < -0x8000_0000 {
        (x + 0x1_0000_0000) as i32
    } else {
        x as i32
    }
}

/// `v / 2` on an `i32`, which rounds toward zero.
fn half_i32(v: i64) -> (r: i64)
    requires
        i32::MIN <= v <= i32::MAX,
    ensures
        r == half_toward_zero(v as int),
        -0x4000_0000 <= r <= 0x4000_0000,
{
    if v >= 0 {
        v / 2
    } else {
        -((-v) / 2)
    }
}

/// Top-left corner of an overlay as computed in `i32` arithmetic that
/// wraps: every input is first cast to `i32` (so that values above
/// `i32::MAX` wrap around), and every sum or difference wraps on 32 bits;
/// halves are rounded toward zero.
pub open spec fn wrapped_origin(
    position: OverlayPosition,
    anchor_mode: OverlayAnchorMode,
    bounds: RectPx,
    overlay_width: u32,
    overlay_height: u32,
) -> (int, int) {
    let bx = wrap_i32(bounds.x as int);
    let by = wrap_i32(bounds.y as int);
    let bw = wrap_i32(bounds.width as int);
    let bh = wrap_i32(bounds.height as int);
    let ow = wrap_i32(overlay_width as int);
    let oh = wrap_i32(overlay_height as int);
    match position {
        OverlayPosition::Center => (
            wrap_i32(bx + half_toward_zero(wrap_i32(bw - ow))),
            wrap_i32(by + half_toward_zero(wrap_i32(bh - oh))),
        ),
        OverlayPosition::TopLeft => match anchor_mode {
            OverlayAnchorMode::Inset => (bx, by),
            OverlayAnchorMode::Centered => (
                wrap_i32(bx - half_toward_zero(ow)),
                wrap_i32(by - half_toward_zero(oh)),
            ),
        },
        OverlayPosition::TopRight => match anchor_mode {
            OverlayAnchorMode::Inset => (wrap_i32(bx + bw - ow), by),
            OverlayAnchorMode::Centered => (
                wrap_i32(bx + bw - half_toward_zero(ow)),
                wrap_i32(by - half_toward_zero(oh)),
            ),
        },
        OverlayPosition::BottomLeft => match anchor_mode {
            OverlayAnchorMode::Inset => (bx, wrap_i32(by + bh - oh)),
            OverlayAnchorMode::Centered => (
                wrap_i32(bx - half_toward_zero(ow)),
                wrap_i32(by + bh - half_toward_zero(oh)),
            ),
        },
        OverlayPosition::BottomRight => match anchor_mode {
            OverlayAnchorMode::Inset => (wrap_i32(bx + bw - ow), wrap_i32(by + bh - oh)),
            OverlayAnchorMode::Centered => (
                wrap_i32(bx + bw - half_toward_zero(ow)),
                wrap_i32(by + bh - half_toward_zero(oh)),
            ),
        },
    }
}

/// Whether the bounds' far edges and the overlay's size all fit in an
/// `i32`, so that no step of the placement wraps.
pub open spec fn placement_fits_i32(bounds: RectPx, overlay_width: u32, overlay_height: u32) -> bool {
    &&& bounds.x + bounds.width <= i32::MAX
    &&& bounds.y + bounds.height <= i32::MAX
    &&& overlay_width <= i32::MAX
    &&& overlay_height <= i32::MAX
}

/// Where the far edges and the overlay's size fit in an `i32`, no step of
/// the placement wraps, and it is the exact placement.
proof fn lemma_wrapped_origin_exact(
    position: OverlayPosition,
    anchor_mode: OverlayAnchorMode,
    bounds: RectPx,
    overlay_width: u32,
    overlay_height: u32,
)
    requires
        placement_fits_i32(bounds, overlay_width, overlay_height),
    ensures
        wrapped_origin(position, anchor_mode, bounds, overlay_width, overlay_height) == overlay_origin(
            position,
            anchor_mode,
            bounds,
            overlay_width as int,
            overlay_height as int,
        ),
{
    let bx = bounds.x as int;
    let by = bounds.y as int;
    let bw = bounds.width as int;
    let bh = bounds.height as int;
    let ow = overlay_width as int;
    let oh = overlay_height as int;
    lemma_wrap_i32_once(bx);
    lemma_wrap_i32_once(by);
    lemma_wrap_i32_once(bw);
    lemma_wrap_i32_once(bh);
    lemma_wrap_i32_once(ow);
    lemma_wrap_i32_once(oh);
    lemma_wrap_i32_once(bw - ow);
    lemma_wrap_i32_once(bh - oh);
    lemma_wrap_i32_once(bx + half_toward_zero(bw - ow));
    lemma_wrap_i32_once(by + half_toward_zero(bh - oh));
    lemma_wrap_i32_once(bx + bw - ow);
    lemma_wrap_i32_once(by + bh - oh);
    lemma_wrap_i32_once(bx - half_toward_zero(ow));
    lemma_wrap_i32_once(by - half_toward_zero(oh));
    lemma_wrap_i32_once(bx + bw - half_toward_zero(ow));
    lemma_wrap_i32_once(by + bh - half_toward_zero(oh));
}

/// The `i32` cast of a `u32`, as an `i64`.
fn cast_u32_to_i32(v: u32) -> (r: i64)
    ensures
        r == wrap_i32(v as int),
        i32::MIN <= r <= i32::MAX,
{
    proof {
        lemma_wrap_i32_once(v as int);
    }
    if v > 0x7fff_ffff {
        v as i64 - 0x1_0000_0000
    } else {
        v as i64
    }
}

/// Calculates the (x, y) position of an overlay of the given size, from the
/// position setting, the anchor mode and the content bounds, in `i32`
/// arithmetic that wraps. Where nothing wraps, this is the exact
/// placement `overlay_origin`.
pub fn calculate_position(
    position: OverlayPosition,
    anchor_mode: OverlayAnchorMode,
    bounds: &RectPx,
    overlay_width: u32,
    overlay_height: u32,
) -> (r: (i32, i32))
    ensures
        (r.0 as int, r.1 as int) == wrapped_origin(position, anchor_mode, *bounds, overlay_width, overlay_height),
        placement_fits_i32(*bounds, overlay_width, overlay_height) ==> (r.0 as int, r.1 as int)
            == overlay_origin(position, anchor_mode, *bounds, overlay_width as int, overlay_height as int),
{
    let bx = cast_u32_to_i32(bounds.x);
    let by = cast_u32_to_i32(bounds.y);
    let bw = cast_u32_to_i32(bounds.width);
    let bh = cast_u32_to_i32(bounds.height);
    let ow = cast_u32_to_i32(overlay_width);
    let oh = cast_u32_to_i32(overlay_height);
    let r = match position {
        OverlayPosition::Center => {
            let dx = wrap_to_i32(bw - ow);
            let dy = wrap_to_i32(bh - oh);
            (wrap_to_i32(bx + half_i32(dx as i64)), wrap_to_i32(by + half_i32(dy as i64)))
        },
        OverlayPosition::TopLeft => match anchor_mode {
            OverlayAnchorMode::Inset => (bx as i32, by as i32),
            OverlayAnchorMode::Centered => (wrap_to_i32(bx - half_i32(ow)), wrap_to_i32(by - half_i32(oh))),
        },
        OverlayPosition::TopRight => match anchor_mode {
            OverlayAnchorMode::Inset => (wrap_to_i32(bx + bw - ow), by as i32),
            OverlayAnchorMode::Centered => (
                wrap_to_i32(bx + bw - half_i32(ow)),
                wrap_to_i32(by - half_i32(oh)),
            ),
        },
        OverlayPosition::BottomLeft => match anchor_mode {
            OverlayAnchorMode::Inset => (bx as i32, wrap_to_i32(by + bh - oh)),
            OverlayAnchorMode::Centered => (
                wrap_to_i32(bx - half_i32(ow)),
                wrap_to_i32(by + bh - half_i32(oh)),
            ),
        },
        OverlayPosition::BottomRight => match anchor_mode {
            OverlayAnchorMode::Inset => (wrap_to_i32(bx + bw - ow), wrap_to_i32(by + bh - oh)),
            OverlayAnchorMode::Centered => (
                wrap_to_i32(bx + bw - half_i32(ow)),
                wrap_to_i32(by + bh - half_i32(oh)),
            ),
        },
    };
    proof {
        if placement_fits_i32(*bounds, overlay_width, overlay_height) {
            lemma_wrapped_origin_exact(position, anchor_mode, *bounds, overlay_width, overlay_height);
        }
    }
    r
}

/// The position named by a text value; anything unknown means bottom right.
pub open spec fn position_named(name: Seq<char>) -> OverlayPosition {
    if name == "top-left"@ {
        OverlayPosition::TopLeft
    } else if name == "top-right"@ {
        OverlayPosition::TopRight
    } else if name == "bottom-left"@ {
        OverlayPosition::BottomLeft
    } else if name == "center"@ {
        OverlayPosition::Center
    } else {
        OverlayPosition::BottomRight
    }
}

/// Parses a position name ("top-left", "top-right", "bottom-left",
/// "center"); anything else means bottom right.
pub fn parse_overlay_position(position: &str) -> (r: OverlayPosition)
    ensures
        r == position_named(position@),
{
    if str_equals(position, "top-left") {
        OverlayPosition::TopLeft
    } else if str_equals(position, "top-right") {
        OverlayPosition::TopRight
    } else if str_equals(position, "bottom-left") {
        OverlayPosition::BottomLeft
    } else if str_equals(position, "center") {
        OverlayPosition::Center
    } else {
        OverlayPosition::BottomRight
    }
}

/// Parses an anchor mode name: "centered" means centered, anything else
/// inset.
pub fn parse_overlay_anchor_mode(anchor_mode: &str) -> (r: OverlayAnchorMode)
    ensures
        r == (if anchor_mode@ == "centered"@ {
            OverlayAnchorMode::Centered
        } else {
            OverlayAnchorMode::Inset
        }),
{
    if str_equals(anchor_mode, "centered") {
        OverlayAnchorMode::Centered
    } else {
        OverlayAnchorMode::Inset
    }
}

/// An inset overlay that fits within the bounds stays inside them, at every
/// position.
pub proof fn lemma_inset_stays_inside(position: OverlayPosition, bounds: RectPx, ow: int, oh: int)
    requires
        0 <= ow <= bounds.width,
        0 <= oh <= bounds.height,
    ensures
        ({
            let (x, y) = overlay_origin(position, OverlayAnchorMode::Inset, bounds, ow, oh);
            &&& bounds.x <= x
            &&& x + ow <= bounds.x + bounds.width
            &&& bounds.y <= y
            &&& y + oh <= bounds.y + bounds.height
        }),
{
}

/// A centered overlay at a corner covers that corner: the corner lies
/// within the overlay's extent on both axes.
pub proof fn lemma_centered_covers_corner(position: OverlayPosition, bounds: RectPx, ow: int, oh: int)
    requires
        ow >= 0,
        oh >= 0,
        position != OverlayPosition::Center,
    ensures
        ({
            let (x, y) = overlay_origin(position, OverlayAnchorMode::Centered, bounds, ow, oh);
            let cx = if position == OverlayPosition::TopLeft || position == OverlayPosition::BottomLeft {
                bounds.x as int
            } else {
                bounds.x + bounds.width
            };
            let cy = if position == OverlayPosition::TopLeft || position == OverlayPosition::TopRight {
                bounds.y as int
            } else {
                bounds.y + bounds.height
            };
            &&& x <= cx <= x + ow
            &&& y <= cy <= y + oh
        }),
{
}

/// Overlays that differ in what they draw (another SVG, or other PNG
/// bytes), where they go, or how they are anchored render differently, so
/// setting one replaces the other; two that agree on all of that and on
/// their scale render the same.
pub proof fn lemma_overlay_change_detection(a: OverlayConfigView, b: OverlayConfigView)
    ensures
        a.source != b.source ==> ImageOverlayConfig::renders_differently(a, b),
        a.source != b.source ==> crate::layer::config_changes::<ImageOverlayConfig>(Some(a), Some(b)),
        a.position != b.position ==> ImageOverlayConfig::renders_differently(a, b),
        a.anchor_mode != b.anchor_mode ==> ImageOverlayConfig::renders_differently(a, b),
        a == b ==> !ImageOverlayConfig::renders_differently(a, b),
{
}

} // verus!
