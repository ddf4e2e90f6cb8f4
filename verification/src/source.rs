//! Sources of image data for decals and overlays: SVG markup, Twemoji
//! emoji (by character or by name), and PNG-encoded raster bytes.

use vstd::prelude::*;
use crate::codec::{decode_image, encode_png, image_decoding, png_encoding};
use crate::error::RenderError;
use crate::icon::{RgbaPixels, pixels_wf};
use crate::text::{chars_of, empty_string, push_char};

verus! {

/// The Twemoji SVG markup that `twemoji_assets` maps an emoji character to.
pub uninterp spec fn twemoji_svg_for_emoji(emoji: Seq<char>) -> Option<Seq<char>>;

/// The Twemoji SVG markup that `twemoji_assets` maps an emoji name to.
pub uninterp spec fn twemoji_svg_for_name(name: Seq<char>) -> Option<Seq<char>>;

/// Looks an emoji character up in the Twemoji table.
///
/// Calls `twemoji_assets::svg::SvgTwemojiAsset::from_emoji`, a lookup in a
/// fixed table compiled into that crate. The contract claims that the
/// returned markup is the table's entry for exactly this string.
#[verifier::external_body]
fn twemoji_lookup_emoji(emoji: &str) -> (r: Option<String>)
    ensures
        match r {
            Some(svg) => twemoji_svg_for_emoji(emoji@) == Some(svg@),
            None => twemoji_svg_for_emoji(emoji@) is None,
        },
{
    match twemoji_assets::svg::SvgTwemojiAsset::from_emoji(emoji) {
        Some(asset) => Some(asset.data.0.to_string()),
        None => None,
    }
}

/// Looks an emoji name (such as "duck") up in the Twemoji table.
///
/// Calls `twemoji_assets::svg::SvgTwemojiAsset::from_name`, a lookup in a
/// fixed table compiled into that crate. The contract claims that the
/// returned markup is the table's entry for exactly this name.
#[verifier::external_body]
fn twemoji_lookup_name(name: &str) -> (r: Option<String>)
    ensures
        match r {
            Some(svg) => twemoji_svg_for_name(name@) == Some(svg@),
            None => twemoji_svg_for_name(name@) is None,
        },
{
    match twemoji_assets::svg::SvgTwemojiAsset::from_name(name) {
        Some(asset) => Some(asset.data.0.to_string()),
        None => None,
    }
}

/// The variation selector U+FE0F that some emoji sources append.
pub open spec fn is_variation_selector(c: char) -> bool {
    c == '\u{FE0F}'
}

/// The text with every U+FE0F removed.
pub open spec fn without_variation_selectors(s: Seq<char>) -> Seq<char>
    decreases s.len(),
{
    if s.len() == 0 {
        Seq::empty()
    } else if is_variation_selector(s.last()) {
        without_variation_selectors(s.drop_last())
    } else {
        without_variation_selectors(s.drop_last()).push(s.last())
    }
}

/// Removes every U+FE0F from the text.
pub fn strip_variation_selectors(s: &str) -> (r: String)
    ensures
        r@ == without_variation_selectors(s@),
{
    let v = chars_of(s);
    let mut out = empty_string();
    let mut i: usize = 0;
    while i < v.len()
        invariant
            i <= v.len(),
            v@ == s@,
            out@ == without_variation_selectors(v@.take(i as int)),
        decreases v.len() - i,
    {
        assert(v@.take(i + 1).drop_last() =~= v@.take(i as int));
        if v[i] != '\u{FE0F}' {
            push_char(&mut out, v[i]);
        }
        i += 1;
    }
    assert(v@.take(v@.len() as int) =~= v@);
    out
}

/// The Twemoji markup for an emoji: an exact match first, and otherwise the
/// match for the emoji with its U+FE0F selectors removed, when removing them
/// changes it.
pub open spec fn resolve_twemoji(emoji: Seq<char>) -> Option<Seq<char>> {
    match twemoji_svg_for_emoji(emoji) {
        Some(svg) => Some(svg),
        None => {
            let cleaned = without_variation_selectors(emoji);
            if cleaned != emoji {
                twemoji_svg_for_emoji(cleaned)
            } else {
                None
            }
        },
    }
}

/// Looks an emoji up, falling back to the U+FE0F-stripped form.
fn resolve_twemoji_exec(emoji: &str) -> (r: Option<String>)
    ensures
        match r {
            Some(svg) => resolve_twemoji(emoji@) == Some(svg@),
            None => resolve_twemoji(emoji@) is None,
        },
{
    match twemoji_lookup_emoji(emoji) {
        Some(svg) => Some(svg),
        None => {
            let cleaned = strip_variation_selectors(emoji);
            let as_given = emoji.to_owned();
            if !cleaned.eq(&as_given) {
                twemoji_lookup_emoji(cleaned.as_str())
            } else {
                None
            }
        },
    }
}

/// The model of an SVG source.
pub enum SvgSourceView {
    Raw(Seq<char>),
    Emoji(Seq<char>),
    EmojiName(Seq<char>),
}

/// A source for SVG data: raw markup, an emoji character, or an emoji name.
/// Emoji sources are resolved to Twemoji markup at render time.
#[derive(Debug, Clone, PartialEq, Eq)]
pub enum SvgSource {
    /// Raw SVG markup string.
    Raw(String),
    /// An emoji character to be resolved via Twemoji.
    Emoji(String),
    /// An emoji name (e.g., "duck") to be resolved via Twemoji.
    EmojiName(String),
}

impl View for SvgSource {
    type V = SvgSourceView;

    open spec fn view(&self) -> SvgSourceView {
        match self {
            SvgSource::Raw(s) => SvgSourceView::Raw(s@),
            SvgSource::Emoji(s) => SvgSourceView::Emoji(s@),
            SvgSource::EmojiName(s) => SvgSourceView::EmojiName(s@),
        }
    }
}

/// The markup a source resolves to, or `None` when an emoji cannot be found.
pub open spec fn resolved_markup(source: SvgSourceView) -> Option<Seq<char>> {
    match source {
        SvgSourceView::Raw(s) => Some(s),
        SvgSourceView::Emoji(e) => resolve_twemoji(e),
        SvgSourceView::EmojiName(n) => twemoji_svg_for_name(n),
    }
}

impl SvgSource {
    /// Creates a source from raw SVG markup.
    pub fn from_svg(svg: &str) -> (r: Self)
        ensures
            r@ == SvgSourceView::Raw(svg@),
    {
        SvgSource::Raw(svg.to_owned())
    }

    /// Creates a source from an emoji character.
    ///
    /// Fails when Twemoji has no asset for the emoji, either as given or with
    /// its U+FE0F variation selectors removed.
    pub fn from_emoji(emoji: &str) -> (r: Result<Self, RenderError>)
        ensures
            resolve_twemoji(emoji@) is Some <==> r is Ok,
            r matches Ok(s) ==> s@ == SvgSourceView::Emoji(emoji@),
            r matches Err(e) ==> e matches RenderError::InvalidEmoji { emoji: bad } && bad@
                == emoji@,
    {
        match resolve_twemoji_exec(emoji) {
            Some(_) => Ok(SvgSource::Emoji(emoji.to_owned())),
            None => Err(RenderError::InvalidEmoji { emoji: emoji.to_owned() }),
        }
    }

    /// Creates a source from an emoji name (e.g., "duck").
    ///
    /// Fails when Twemoji does not know the name.
    pub fn from_emoji_name(name: &str) -> (r: Result<Self, RenderError>)
        ensures
            twemoji_svg_for_name(name@) is Some <==> r is Ok,
            r matches Ok(s) ==> s@ == SvgSourceView::EmojiName(name@),
            r matches Err(e) ==> e matches RenderError::InvalidEmojiName { name: bad } && bad@
                == name@,
    {
        match twemoji_lookup_name(name) {
            Some(_) => Ok(SvgSource::EmojiName(name.to_owned())),
            None => Err(RenderError::InvalidEmojiName { name: name.to_owned() }),
        }
    }

    /// Resolves this source to SVG markup.
    ///
    /// Raw markup is returned as is; emoji characters and names are looked up
    /// in Twemoji and fail when unknown.
    pub fn resolve(&self) -> (r: Result<String, RenderError>)
        ensures
            resolved_markup(self@) is Some <==> r is Ok,
            r matches Ok(svg) ==> resolved_markup(self@) == Some(svg@),
            r matches Err(e) ==> match self@ {
                SvgSourceView::Emoji(em) => e matches RenderError::InvalidEmoji { emoji: bad }
                    && bad@ == em,
                SvgSourceView::EmojiName(n) => e matches RenderError::InvalidEmojiName {
                    name: bad,
                } && bad@ == n,
                SvgSourceView::Raw(_) => false,
            },
    {
        match self {
            SvgSource::Raw(svg) => Ok(svg.clone()),
            SvgSource::Emoji(emoji) => match resolve_twemoji_exec(emoji.as_str()) {
                Some(svg) => Ok(svg),
                None => Err(RenderError::InvalidEmoji { emoji: emoji.clone() }),
            },
            SvgSource::EmojiName(name) => match twemoji_lookup_name(name.as_str()) {
                Some(svg) => Ok(svg),
                None => Err(RenderError::InvalidEmojiName { name: name.clone() }),
            },
        }
    }

    /// Returns `true` if this is an emoji source.
    pub fn is_emoji(&self) -> (r: bool)
        ensures
            r == (self@ is Emoji),
    {
        matches!(self, SvgSource::Emoji(_))
    }

    /// Returns `true` if this is an emoji name source.
    pub fn is_emoji_name(&self) -> (r: bool)
        ensures
            r == (self@ is EmojiName),
    {
        matches!(self, SvgSource::EmojiName(_))
    }

    /// Returns `true` if this is a raw SVG source.
    pub fn is_raw(&self) -> (r: bool)
        ensures
            r == (self@ is Raw),
    {
        matches!(self, SvgSource::Raw(_))
    }

    /// A copy of this source.
    pub fn duplicate(&self) -> (r: Self)
        ensures
            r@ == self@,
    {
        match self {
            SvgSource::Raw(s) => SvgSource::Raw(s.clone()),
            SvgSource::Emoji(s) => SvgSource::Emoji(s.clone()),
            SvgSource::EmojiName(s) => SvgSource::EmojiName(s.clone()),
        }
    }

    /// Whether two sources are the same.
    pub fn same_as(&self, other: &Self) -> (r: bool)
        ensures
            r == (self@ == other@),
    {
        match (self, other) {
            (SvgSource::Raw(a), SvgSource::Raw(b)) => a.eq(b),
            (SvgSource::Emoji(a), SvgSource::Emoji(b)) => a.eq(b),
            (SvgSource::EmojiName(a), SvgSource::EmojiName(b)) => a.eq(b),
            _ => false,
        }
    }
}

/// The model of an image source.
pub enum ImageSourceView {
    Svg(SvgSourceView),
    Raster(Seq<u8>),
}

/// A source for renderable image data: vector (SVG or emoji) or raster
/// (PNG-encoded bytes).
#[derive(Debug, Clone, PartialEq, Eq)]
pub enum ImageSource {
    /// Scalable vector source.
    Svg(SvgSource),
    /// PNG-encoded raster image bytes.
    Raster(Vec<u8>),
}

impl View for ImageSource {
    type V = ImageSourceView;

    open spec fn view(&self) -> ImageSourceView {
        match self {
            ImageSource::Svg(s) => ImageSourceView::Svg(s@),
            ImageSource::Raster(bytes) => ImageSourceView::Raster(bytes@),
        }
    }
}

impl ImageSource {
    /// Creates a raster image source from PNG-encoded bytes.
    pub fn raster(png_data: Vec<u8>) -> (r: Self)
        ensures
            r@ == ImageSourceView::Raster(png_data@),
    {
        ImageSource::Raster(png_data)
    }

    /// Creates an SVG image source from raw SVG markup.
    pub fn svg(svg: &str) -> (r: Self)
        ensures
            r@ == ImageSourceView::Svg(SvgSourceView::Raw(svg@)),
    {
        ImageSource::Svg(SvgSource::from_svg(svg))
    }

    /// Wraps an SVG source.
    pub fn from_svg_source(source: SvgSource) -> (r: Self)
        ensures
            r@ == ImageSourceView::Svg(source@),
    {
        ImageSource::Svg(source)
    }

    /// Returns `true` if this is an SVG-based source.
    pub fn is_svg(&self) -> (r: bool)
        ensures
            r == (self@ is Svg),
    {
        matches!(self, ImageSource::Svg(_))
    }

    /// Returns `true` if this is a raster image source.
    pub fn is_raster(&self) -> (r: bool)
        ensures
            r == (self@ is Raster),
    {
        matches!(self, ImageSource::Raster(_))
    }

    /// A copy of this source.
    pub fn duplicate(&self) -> (r: Self)
        ensures
            r@ == self@,
    {
        match self {
            ImageSource::Svg(s) => ImageSource::Svg(s.duplicate()),
            ImageSource::Raster(bytes) => ImageSource::Raster(bytes.clone()),
        }
    }

    /// Whether two sources are the same.
    pub fn same_as(&self, other: &Self) -> (r: bool)
        ensures
            r == (self@ == other@),
    {
        match (self, other) {
            (ImageSource::Svg(a), ImageSource::Svg(b)) => a.same_as(b),
            (ImageSource::Raster(a), ImageSource::Raster(b)) => bytes_equal(a, b),
            _ => false,
        }
    }
}

/// Whether two byte vectors hold the same bytes.
fn bytes_equal(a: &Vec<u8>, b: &Vec<u8>) -> (r: bool)
    ensures
        r == (a@ == b@),
{
    if a.len() != b.len() {
        return false;
    }
    let mut i: usize = 0;
    while i < a.len()
        invariant
            a.len() == b.len(),
            i <= a.len(),
            forall|k: int| 0 <= k < i ==> a@[k] == b@[k],
        decreases a.len() - i,
    {
        if a[i] != b[i] {
            return false;
        }
        i += 1;
    }
    assert(a@ =~= b@);
    true
}

impl ImageSource {
    /// Creates a raster source by encoding RGBA pixels as PNG.
    pub fn from_rgba_image(img: &RgbaPixels) -> (r: Result<Self, RenderError>)
        requires
            pixels_wf(*img),
        ensures
            r is Ok <==> png_encoding(img.width, img.height, img.data@) is Some,
            r matches Ok(s) ==> png_encoding(img.width, img.height, img.data@) == Some(
                s@->Raster_0,
            ) && s@ is Raster,
            r matches Err(e) ==> e is ImageEncode,
    {
        match encode_png(img.width, img.height, &img.data) {
            Ok(bytes) => Ok(ImageSource::Raster(bytes)),
            Err(source) => Err(RenderError::ImageEncode { source }),
        }
    }
}

/// The dimensions the `image` crate gives an image of `width` x `height`
/// resized to fit within a `size` x `size` square keeping the aspect ratio
/// (its `resize_dimensions`, at least one pixel each way).
pub uninterp spec fn fitted_dimensions(width: u32, height: u32, size: u32) -> (u32, u32);

/// Decodes image file bytes with `image::load_from_memory`, resizes the
/// decoded image with `DynamicImage::resize` and the Lanczos3 filter to fit
/// within a `size` x `size` square, and converts it with `to_rgba8`.
///
/// Trusted: the result has the dimensions the crate computes for fitting
/// the decoded image into the square, each at least 1, and four bytes per
/// pixel. The resampled pixel values are not stated: the filter evaluates
/// a sine whose precision varies by platform. The bytes must be ones
/// the crate decodes; decoding is a function of the bytes alone, so it
/// succeeds here as it did before.
#[verifier::external_body]
fn fit_decoded(png: &[u8], size: u32) -> (r: (u32, u32, Vec<u8>))
    requires
        image_decoding(png@) is Some,
    ensures
        (r.0, r.1) == fitted_dimensions(image_decoding(png@).unwrap().0, image_decoding(png@).unwrap().1, size),
        r.0 >= 1,
        r.1 >= 1,
        r.2@.len() == r.0 as int * r.1 as int * 4,
{
    let img = image::load_from_memory(png).expect("bytes the crate decodes");
    let out = img.resize(size, size, image::imageops::FilterType::Lanczos3).to_rgba8();
    (out.width(), out.height(), out.into_raw())
}

/// Whether `img` is what a raster source renders to at `size`: the decoded
/// image as it is when its larger side already measures `size`, else an
/// image of the dimensions that fit the decoded one into a `size` x `size`
/// square, with four bytes per pixel.
pub open spec fn raster_rendered(png: Seq<u8>, size: u32, img: (u32, u32, Seq<u8>)) -> bool {
    match image_decoding(png) {
        None => false,
        Some((w, h, px)) => if (if w >= h { w } else { h }) == size {
            img == (w, h, px)
        } else {
            &&& (img.0, img.1) == fitted_dimensions(w, h, size)
            &&& img.0 >= 1
            &&& img.1 >= 1
            &&& img.2.len() == img.0 as int * img.1 as int * 4
        },
    }
}

/// Whether an image of `width` x `height` must be resized to fit a `size`
/// x `size` square: unless its larger side already measures `size`.
pub fn needs_fit(width: u32, height: u32, size: u32) -> (r: bool)
    ensures
        r == ((if width >= height { width } else { height }) != size),
{
    let max_dim: u32 = if width >= height { width } else { height };
    max_dim != size
}

/// Decodes raster image bytes and fits the image into a `size` x `size`
/// square, keeping the aspect ratio; an image whose larger side already
/// measures `size` is returned as decoded.
pub fn render_raster_at_size(png_data: &[u8], size: u32) -> (r: Result<RgbaPixels, RenderError>)
    ensures
        r is Ok <==> image_decoding(png_data@) is Some,
        r matches Ok(img) ==> raster_rendered(png_data@, size, (img.width, img.height, img.data@)),
        r matches Err(e) ==> e is ImageDecode,
{
    match decode_image(png_data) {
        Err(e) => Err(RenderError::ImageDecode(e)),
        Ok((w, h, px)) => {
            if !needs_fit(w, h, size) {
                Ok(RgbaPixels::new(w, h, px))
            } else {
                let (w2, h2, px2) = fit_decoded(png_data, size);
                Ok(RgbaPixels::new(w2, h2, px2))
            }
        },
    }
}

impl From<SvgSource> for ImageSource {
    fn from(source: SvgSource) -> (r: Self) {
        ImageSource::Svg(source)
    }
}

impl vstd::std_specs::convert::FromSpecImpl<SvgSource> for ImageSource {
    open spec fn obeys_from_spec() -> bool {
        true
    }

    open spec fn from_spec(v: SvgSource) -> ImageSource {
        ImageSource::Svg(v)
    }
}

} // verus!
