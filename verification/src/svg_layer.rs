//! Layers of the SVG (vector) medium.
//!
//! An SVG layer mirrors the raster layer's state (an optional configuration,
//! a live `enabled` toggle and a version counter) without a size-keyed
//! cache: it emits a resolution-independent markup fragment that the
//! [`SvgCanvas`](crate::medium::SvgCanvas) nests into the base document.

use vstd::prelude::*;
use crate::color::ColorDotConfig;
use crate::dot::{color_dot_fragment, dot_fragment};
use crate::error::RenderError;
use crate::layer::{LayerConfig, config_changes, config_model, next_version};
use crate::overlay::{ImageOverlayConfig, OverlayAnchorMode, OverlayConfigView, OverlayPosition};
use crate::scale::{clamped_scale, FULL_SCALE};
use crate::source::{ImageSource, ImageSourceView, resolved_markup};
use crate::text::{decimal, decimal4, empty_string, push_char, push_decimal, push_decimal4, push_str};

verus! {

/// A layer of the SVG medium: optional configuration, live toggle, version.
///
/// A layer is active when it has a configuration and is enabled.
#[derive(Debug)]
pub struct SvgLayer<C: LayerConfig> {
    config: Option<C>,
    enabled: bool,
    version: u64,
}

impl<C: LayerConfig> Default for SvgLayer<C> {
    fn default() -> (r: Self)
        ensures
            r.config_spec() is None,
            r.enabled_spec(),
            r.version_spec() == 0,
    {
        SvgLayer { config: None, enabled: true, version: 0 }
    }
}

impl<C: LayerConfig> SvgLayer<C> {
    /// The configuration, as a model.
    pub closed spec fn config_spec(&self) -> Option<C::V> {
        config_model(self.config)
    }

    /// The enabled flag.
    pub closed spec fn enabled_spec(&self) -> bool {
        self.enabled
    }

    /// The version number.
    pub closed spec fn version_spec(&self) -> u64 {
        self.version
    }

    /// Whether the layer has a configuration and is enabled.
    pub open spec fn active_spec(&self) -> bool {
        self.enabled_spec() && self.config_spec() is Some
    }

    /// A fresh layer: no configuration, enabled, version 0.
    pub fn new() -> (r: Self)
        ensures
            r.config_spec() is None,
            r.enabled_spec(),
            r.version_spec() == 0,
    {
        SvgLayer { config: None, enabled: true, version: 0 }
    }

    /// Returns the current configuration, if any.
    pub fn config(&self) -> (r: Option<&C>)
        ensures
            match r {
                Some(c) => self.config_spec() == Some(c@),
                None => self.config_spec() is None,
            },
    {
        match &self.config {
            Some(c) => Some(c),
            None => None,
        }
    }

    /// Returns true if the layer has a configuration set.
    pub fn has_config(&self) -> (r: bool)
        ensures
            r == (self.config_spec() is Some),
    {
        self.config.is_some()
    }

    /// Returns true if this layer is active (has config AND is enabled).
    pub fn is_active(&self) -> (r: bool)
        ensures
            r == self.active_spec(),
    {
        self.enabled && self.config.is_some()
    }

    /// Returns whether the layer is enabled.
    pub fn is_enabled(&self) -> (r: bool)
        ensures
            r == self.enabled_spec(),
    {
        self.enabled
    }

    /// Sets whether the layer is enabled; returns true if the state changed.
    /// Toggling keeps the configuration and only moves the version.
    pub fn set_enabled(&mut self, enabled: bool) -> (changed: bool)
        ensures
            changed == (old(self).enabled_spec() != enabled),
            final(self).enabled_spec() == enabled,
            final(self).config_spec() == old(self).config_spec(),
            final(self).version_spec() == if changed {
                next_version(old(self).version_spec())
            } else {
                old(self).version_spec()
            },
    {
        if self.enabled != enabled {
            self.enabled = enabled;
            self.version = self.version.wrapping_add(1);
            true
        } else {
            false
        }
    }

    /// Returns the current version number.
    pub fn version(&self) -> (r: u64)
        ensures
            r == self.version_spec(),
    {
        self.version
    }

    /// Sets the configuration; returns true if it changed. When the new
    /// configuration renders differently it replaces the old one and the
    /// version moves; otherwise nothing changes.
    pub fn set_config(&mut self, config: Option<C>) -> (changed: bool)
        ensures
            changed == config_changes::<C>(old(self).config_spec(), config_model(config)),
            final(self).enabled_spec() == old(self).enabled_spec(),
            changed ==> final(self).config_spec() == config_model(config),
            changed ==> final(self).version_spec() == next_version(old(self).version_spec()),
            !changed ==> final(self).config_spec() == old(self).config_spec(),
            !changed ==> final(self).version_spec() == old(self).version_spec(),
    {
        let differs = match (&self.config, &config) {
            (None, None) => false,
            (Some(old_config), Some(new_config)) => old_config.differs_from(new_config),
            _ => true,
        };
        if differs {
            self.config = config;
            self.version = self.version.wrapping_add(1);
            true
        } else {
            false
        }
    }

    /// Moves the version (when an upstream dependency changes).
    pub fn invalidate(&mut self)
        ensures
            final(self).config_spec() == old(self).config_spec(),
            final(self).enabled_spec() == old(self).enabled_spec(),
            final(self).version_spec() == next_version(old(self).version_spec()),
    {
        self.version = self.version.wrapping_add(1);
    }
}

impl SvgLayer<ColorDotConfig> {
    /// The color dot as a nested `<svg>` fragment, or `None` when the layer
    /// is inactive.
    pub fn render_fragment(&self) -> (r: Option<String>)
        ensures
            match r {
                Some(f) => self.active_spec() && f@ == dot_fragment(self.config_spec()->0),
                None => !self.active_spec(),
            },
    {
        if !self.is_active() {
            return None;
        }
        match self.config() {
            Some(c) => Some(color_dot_fragment(c)),
            None => None,
        }
    }
}

// ----------------------------------------------------------------------------
// Overlay placement and markup
// ----------------------------------------------------------------------------

/// One hundred percent, in ten-thousandths of a percent.
pub open spec fn hundred_percent() -> int {
    1_000_000
}

/// A percentage in ten-thousandths of a percent, with its sign kept apart
/// so that a negated zero still prints as negative.
#[derive(Debug, Clone, Copy, PartialEq, Eq, Structural)]
pub struct Percent {
    /// Whether the value was negated.
    pub negative: bool,
    /// The magnitude, in ten-thousandths of a percent.
    pub magnitude: u64,
}

/// A non-negated percentage.
pub open spec fn pos(m: int) -> Percent {
    Percent { negative: false, magnitude: m as u64 }
}

/// A negated percentage.
pub open spec fn neg(m: int) -> Percent {
    Percent { negative: true, magnitude: m as u64 }
}

/// `(x, y, size)` of an overlay of the given scale, in percent of the icon:
/// `Inset` keeps the overlay within the icon, `Centered` centers it on the
/// chosen corner so that it can hang off the edge.
pub open spec fn overlay_placement(
    position: OverlayPosition,
    anchor_mode: OverlayAnchorMode,
    scale: u32,
) -> (Percent, Percent, Percent) {
    let size = clamped_scale(scale) * 100;
    let half = size / 2;
    let full = hundred_percent();
    let (x, y) = match position {
        OverlayPosition::Center => (pos((full - size) / 2), pos((full - size) / 2)),
        OverlayPosition::TopLeft => match anchor_mode {
            OverlayAnchorMode::Inset => (pos(0), pos(0)),
            OverlayAnchorMode::Centered => (neg(half), neg(half)),
        },
        OverlayPosition::TopRight => match anchor_mode {
            OverlayAnchorMode::Inset => (pos(full - size), pos(0)),
            OverlayAnchorMode::Centered => (pos(full - half), neg(half)),
        },
        OverlayPosition::BottomLeft => match anchor_mode {
            OverlayAnchorMode::Inset => (pos(0), pos(full - size)),
            OverlayAnchorMode::Centered => (neg(half), pos(full - half)),
        },
        OverlayPosition::BottomRight => match anchor_mode {
            OverlayAnchorMode::Inset => (pos(full - size), pos(full - size)),
            OverlayAnchorMode::Centered => (pos(full - half), pos(full - half)),
        },
    };
    (x, y, pos(size))
}

/// Computes `(x, y, size)` placement, in percent of the icon, for an
/// overlay of the given scale.
pub fn placement(position: OverlayPosition, anchor_mode: OverlayAnchorMode, scale: u32) -> (r: (
    Percent,
    Percent,
    Percent,
))
    ensures
        r == overlay_placement(position, anchor_mode, scale),
{
    let s: u64 = if scale > FULL_SCALE { FULL_SCALE as u64 } else { scale as u64 };
    let size: u64 = s * 100;
    let half: u64 = size / 2;
    let full: u64 = 1_000_000;
    let p = |m: u64| -> (r: Percent) ensures r == (Percent { negative: false, magnitude: m }) { Percent { negative: false, magnitude: m } };
    let n = |m: u64| -> (r: Percent) ensures r == (Percent { negative: true, magnitude: m }) { Percent { negative: true, magnitude: m } };
    let (x, y) = match position {
        OverlayPosition::Center => (p((full - size) / 2), p((full - size) / 2)),
        OverlayPosition::TopLeft => match anchor_mode {
            OverlayAnchorMode::Inset => (p(0), p(0)),
            OverlayAnchorMode::Centered => (n(half), n(half)),
        },
        OverlayPosition::TopRight => match anchor_mode {
            OverlayAnchorMode::Inset => (p(full - size), p(0)),
            OverlayAnchorMode::Centered => (p(full - half), n(half)),
        },
        OverlayPosition::BottomLeft => match anchor_mode {
            OverlayAnchorMode::Inset => (p(0), p(full - size)),
            OverlayAnchorMode::Centered => (n(half), p(full - half)),
        },
        OverlayPosition::BottomRight => match anchor_mode {
            OverlayAnchorMode::Inset => (p(full - size), p(full - size)),
            OverlayAnchorMode::Centered => (p(full - half), p(full - half)),
        },
    };
    (x, y, p(size))
}

/// A percentage printed with four decimals, as `{:.4}` prints the value.
pub open spec fn percent_text(p: Percent) -> Seq<char> {
    let sign: Seq<char> = if p.negative { seq!['-'] } else { Seq::empty() };
    sign + decimal((p.magnitude / 10000) as nat) + seq!['.'] + decimal4((p.magnitude % 10000) as nat)
}

fn push_percent(s: &mut String, p: Percent)
    ensures
        final(s)@ == old(s)@ + percent_text(p),
{
    if p.negative {
        push_char(s, '-');
    }
    push_decimal(s, p.magnitude / 10000);
    push_char(s, '.');
    push_decimal4(s, p.magnitude % 10000);
    assert(final(s)@ =~= old(s)@ + percent_text(p));
}

/// The `<image>` element placing `href` at the given position, anchor mode
/// and scale.
pub open spec fn image_element(
    href: Seq<char>,
    position: OverlayPosition,
    anchor_mode: OverlayAnchorMode,
    scale: u32,
) -> Seq<char> {
    let (x, y, size) = overlay_placement(position, anchor_mode, scale);
    "<image href=\""@ + href + "\" x=\""@ + percent_text(x) + "%\" y=\""@ + percent_text(y)
        + "%\" width=\""@ + percent_text(size) + "%\" height=\""@ + percent_text(size)
        + "%\" preserveAspectRatio=\"xMidYMid meet\"/>"@
}

/// Builds the `<image>` element for an overlay whose source is at `href`.
pub fn image_fragment(
    href: &str,
    position: OverlayPosition,
    anchor_mode: OverlayAnchorMode,
    scale: u32,
) -> (s: String)
    ensures
        s@ == image_element(href@, position, anchor_mode, scale),
{
    let (x, y, size) = placement(position, anchor_mode, scale);
    let mut s = empty_string();
    push_str(&mut s, "<image href=\"");
    push_str(&mut s, href);
    push_str(&mut s, "\" x=\"");
    push_percent(&mut s, x);
    push_str(&mut s, "%\" y=\"");
    push_percent(&mut s, y);
    push_str(&mut s, "%\" width=\"");
    push_percent(&mut s, size);
    push_str(&mut s, "%\" height=\"");
    push_percent(&mut s, size);
    push_str(&mut s, "%\" preserveAspectRatio=\"xMidYMid meet\"/>");
    s
}

/// The character of the standard base64 alphabet (RFC 4648) for a 6-bit
/// value: `A`-`Z`, `a`-`z`, `0`-`9`, `+`, `/`.
pub open spec fn base64_digit(v: int) -> char {
    if v < 26 {
        (('A' as int) + v) as char
    } else if v < 52 {
        (('a' as int) + (v - 26)) as char
    } else if v < 62 {
        (('0' as int) + (v - 52)) as char
    } else if v == 62 {
        '+'
    } else {
        '/'
    }
}

/// The standard base64 encoding (RFC 4648 alphabet, with `=` padding) of a
/// byte sequence: each group of three bytes becomes four characters of six
/// bits each; a final group of one or two bytes is padded to four
/// characters with `=`.
pub open spec fn base64_standard(bytes: Seq<u8>) -> Seq<char>
    decreases bytes.len(),
{
    if bytes.len() == 0 {
        Seq::empty()
    } else if bytes.len() == 1 {
        let a = bytes[0] as int;
        seq![base64_digit(a / 4), base64_digit((a % 4) * 16), '=', '=']
    } else if bytes.len() == 2 {
        let a = bytes[0] as int;
        let b = bytes[1] as int;
        seq![base64_digit(a / 4), base64_digit((a % 4) * 16 + b / 16), base64_digit((b % 16) * 4), '=']
    } else {
        let a = bytes[0] as int;
        let b = bytes[1] as int;
        let c = bytes[2] as int;
        seq![
            base64_digit(a / 4),
            base64_digit((a % 4) * 16 + b / 16),
            base64_digit((b % 16) * 4 + c / 64),
            base64_digit(c % 64),
        ] + base64_standard(bytes.subrange(3, bytes.len() as int))
    }
}

/// Encodes bytes with `base64::engine::general_purpose::STANDARD`.
///
/// Trusted: the result is the standard padded base64 encoding of exactly
/// these bytes, which is what the `STANDARD` engine (standard alphabet,
/// padding on) produces.
#[verifier::external_body]
fn encode_base64(bytes: &[u8]) -> (r: String)
    ensures
        r@ == base64_standard(bytes@),
{
    base64::Engine::encode(&base64::engine::general_purpose::STANDARD, bytes)
}

/// A `data:` URI of the given media type over base64 text.
pub open spec fn data_uri(media_type: Seq<char>, encoded: Seq<char>) -> Seq<char> {
    "data:"@ + media_type + ";base64,"@ + encoded
}

/// The `data:` URI of an image source whose vector markup (if any)
/// resolved to `markup`.
pub open spec fn source_uri(source: ImageSourceView, markup: Seq<char>) -> Seq<char> {
    match source {
        ImageSourceView::Svg(_) => data_uri(
            "image/svg+xml"@,
            base64_standard(vstd::utf8::encode_utf8(markup)),
        ),
        ImageSourceView::Raster(png) => data_uri("image/png"@, base64_standard(png)),
    }
}

/// Whether an image source can be embedded: raster data always can, vector
/// sources when they resolve to markup.
pub open spec fn source_resolves(source: ImageSourceView) -> bool {
    match source {
        ImageSourceView::Svg(s) => resolved_markup(s) is Some,
        ImageSourceView::Raster(_) => true,
    }
}

/// The markup a vector source resolves to (empty for raster sources).
pub open spec fn source_markup(source: ImageSourceView) -> Seq<char> {
    match source {
        ImageSourceView::Svg(s) => match resolved_markup(s) {
            Some(m) => m,
            None => Seq::empty(),
        },
        ImageSourceView::Raster(_) => Seq::empty(),
    }
}

/// A `data:` URI of the given media type over base64 text.
pub fn data_uri_of(media_type: &str, encoded: &str) -> (s: String)
    ensures
        s@ == data_uri(media_type@, encoded@),
{
    let mut s = empty_string();
    push_str(&mut s, "data:");
    push_str(&mut s, media_type);
    push_str(&mut s, ";base64,");
    push_str(&mut s, encoded);
    s
}

/// Encodes an image source as a `data:` URI for an `<image href>`.
///
/// Vector sources are resolved first and fail as resolution fails.
pub fn source_data_uri(source: &ImageSource) -> (r: Result<String, RenderError>)
    ensures
        r is Ok <==> source_resolves(source@),
        r matches Ok(uri) ==> uri@ == source_uri(source@, source_markup(source@)),
{
    match source {
        ImageSource::Svg(svg) => {
            let markup = svg.resolve()?;
            let encoded = encode_base64(markup.as_str().as_bytes());
            Ok(data_uri_of("image/svg+xml", encoded.as_str()))
        },
        ImageSource::Raster(png) => {
            let encoded = encode_base64(png.as_slice());
            Ok(data_uri_of("image/png", encoded.as_str()))
        },
    }
}

/// The `<image>` element of an overlay configuration.
pub open spec fn overlay_element(c: OverlayConfigView) -> Seq<char> {
    image_element(source_uri(c.source, source_markup(c.source)), c.position, c.anchor_mode, c.scale)
}

/// Builds the `<image>` fragment for an overlay.
pub fn overlay_fragment(config: &ImageOverlayConfig) -> (r: Result<String, RenderError>)
    ensures
        r is Ok <==> source_resolves(config@.source),
        r matches Ok(f) ==> f@ == overlay_element(config@),
{
    let href = source_data_uri(&config.source)?;
    Ok(image_fragment(href.as_str(), config.position, config.anchor_mode, config.scale))
}

impl SvgLayer<ImageOverlayConfig> {
    /// The overlay as an `<image>` fragment, or `None` when the layer is
    /// inactive. Fails when a vector source cannot be resolved.
    pub fn render_fragment(&self) -> (r: Result<Option<String>, RenderError>)
        ensures
            !self.active_spec() ==> r matches Ok(None),
            self.active_spec() ==> (r is Ok <==> source_resolves(self.config_spec()->0.source)),
            self.active_spec() ==> (r matches Ok(Some(f)) ==> f@ == overlay_element(
                self.config_spec()->0,
            )),
            r matches Ok(None) ==> !self.active_spec(),
    {
        if !self.is_active() {
            return Ok(None);
        }
        match self.config() {
            Some(c) => {
                let f = overlay_fragment(c)?;
                Ok(Some(f))
            },
            None => Ok(None),
        }
    }
}

/// An inset overlay lies within the icon: its offsets are not negated and
/// it ends by the far edge, at every position and scale.
pub proof fn lemma_inset_placement_within_icon(position: OverlayPosition, scale: u32)
    ensures
        ({
            let (x, y, size) = overlay_placement(position, OverlayAnchorMode::Inset, scale);
            &&& !x.negative && !y.negative && !size.negative
            &&& x.magnitude + size.magnitude <= hundred_percent()
            &&& y.magnitude + size.magnitude <= hundred_percent()
        }),
{
}

/// The signed value of a percentage, in ten-thousandths of a percent.
pub open spec fn percent_value(p: Percent) -> int {
    if p.negative {
        -(p.magnitude as int)
    } else {
        p.magnitude as int
    }
}

/// Where an overlay goes, in percent of the icon:
/// - its size is the scale (capped at full size) in percent;
/// - `Inset` keeps it against the corner it names: at the left edge for a
///   left corner, the top edge for a top corner, and flush with the right or
///   bottom edge for a right or bottom corner;
/// - `Centered` puts its middle on that corner;
/// - `Center` puts its middle on the middle of the icon, whatever the anchor.
pub proof fn lemma_overlay_placement_corners(position: OverlayPosition, anchor_mode: OverlayAnchorMode, scale: u32)
    ensures
        ({
            let (x, y, size) = overlay_placement(position, anchor_mode, scale);
            let full = hundred_percent();
            let sx = percent_value(x);
            let sy = percent_value(y);
            let sz = percent_value(size);
            let left = position == OverlayPosition::TopLeft || position == OverlayPosition::BottomLeft;
            let right = position == OverlayPosition::TopRight || position == OverlayPosition::BottomRight;
            let top = position == OverlayPosition::TopLeft || position == OverlayPosition::TopRight;
            let bottom = position == OverlayPosition::BottomLeft || position == OverlayPosition::BottomRight;
            &&& sz == (if scale > 10000 { 10000 } else { scale as int }) * 100
            &&& anchor_mode == OverlayAnchorMode::Inset && left ==> sx == 0
            &&& anchor_mode == OverlayAnchorMode::Inset && right ==> sx + sz == full
            &&& anchor_mode == OverlayAnchorMode::Inset && top ==> sy == 0
            &&& anchor_mode == OverlayAnchorMode::Inset && bottom ==> sy + sz == full
            &&& anchor_mode == OverlayAnchorMode::Centered && left ==> 2 * sx + sz == 0
            &&& anchor_mode == OverlayAnchorMode::Centered && right ==> 2 * sx + sz == 2 * full
            &&& anchor_mode == OverlayAnchorMode::Centered && top ==> 2 * sy + sz == 0
            &&& anchor_mode == OverlayAnchorMode::Centered && bottom ==> 2 * sy + sz == 2 * full
            &&& position == OverlayPosition::Center ==> 2 * sx + sz == full && 2 * sy + sz == full
        }),
{
}

} // verus!
