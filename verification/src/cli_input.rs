//! Interpreting the sources a user names on the command line.
//!
//! A source may be raw SVG markup, a path to an SVG or raster image file,
//! an emoji character, or an emoji name. Whether a path exists and what its
//! extension is are found out by the caller, which then reads the file when
//! told to.

use vstd::prelude::*;
use crate::color::{FolderColor, FolderColorExt, FolderColorTargetConfig};
use crate::decal::DecalConfig;
use crate::overlay::ImageOverlayConfig;
use crate::profile::{CustomizationProfile, ProfileView, empty_profile};
use crate::text::{chars_of, empty_string};
use crate::layer::config_model;

verus! {

/// Whether `c` falls in one of the common emoji ranges: the zero-width
/// joiner, the emoji variation selector, the combining keycap, the
/// miscellaneous symbols and dingbats, the stars and circles around U+2B50,
/// and the supplementary emoji blocks.
pub open spec fn is_emoji_char(c: char) -> bool {
    let n: u32 = c as u32;
    n == 0x200D || n == 0xFE0F || n == 0x20E3 || (0x2600 <= n && n <= 0x27BF) || (0x2B50 <= n && n
        <= 0x2B55) || (0x1F000 <= n && n <= 0x1FAFF)
}

/// Returns true if the text contains at least one emoji character.
pub fn looks_like_emoji(s: &str) -> (r: bool)
    ensures
        r == exists|i: int| 0 <= i < s@.len() && is_emoji_char(#[trigger] s@[i]),
{
    let v = chars_of(s);
    let mut i: usize = 0;
    while i < v.len()
        invariant
            v@ == s@,
            i <= v@.len(),
            forall|k: int| 0 <= k < i ==> !is_emoji_char(#[trigger] s@[k]),
        decreases v.len() - i,
    {
        let n: u32 = v[i] as u32;
        if n == 0x200D || n == 0xFE0F || n == 0x20E3 || (0x2600 <= n && n <= 0x27BF) || (0x2B50
            <= n && n <= 0x2B55) || (0x1F000 <= n && n <= 0x1FAFF) {
            assert(is_emoji_char(s@[i as int]));
            return true;
        }
        i += 1;
    }
    false
}

/// `c` with ASCII upper-case letters mapped to lower case.
pub open spec fn ascii_lower(c: char) -> char {
    if 'A' <= c && c <= 'Z' {
        ((c as u32) + 32) as char
    } else {
        c
    }
}

/// Whether two texts are equal when ASCII letters are compared without
/// regard to case.
pub open spec fn eq_ignore_ascii_case(a: Seq<char>, b: Seq<char>) -> bool {
    a.len() == b.len() && forall|i: int| 0 <= i < a.len() ==> ascii_lower(#[trigger] a[i]) == ascii_lower(
        b[i],
    )
}

fn lower(c: char) -> (r: char)
    ensures
        r == ascii_lower(c),
{
    if 'A' <= c && c <= 'Z' {
        ((c as u8) + 32) as char
    } else {
        c
    }
}

/// Whether two texts are equal, comparing ASCII letters without regard to
/// case.
pub fn equals_ignore_ascii_case(a: &str, b: &str) -> (r: bool)
    ensures
        r == eq_ignore_ascii_case(a@, b@),
{
    let va = chars_of(a);
    let vb = chars_of(b);
    if va.len() != vb.len() {
        return false;
    }
    let mut i: usize = 0;
    while i < va.len()
        invariant
            va@ == a@,
            vb@ == b@,
            va.len() == vb.len(),
            i <= va.len(),
            forall|k: int| 0 <= k < i ==> ascii_lower(#[trigger] a@[k]) == ascii_lower(b@[k]),
        decreases va.len() - i,
    {
        if lower(va[i]) != lower(vb[i]) {
            return false;
        }
        i += 1;
    }
    true
}

/// The file extensions recognised as raster images.
pub open spec fn raster_extensions() -> Seq<Seq<char>> {
    seq!["png"@, "jpg"@, "jpeg"@, "webp"@, "bmp"@, "gif"@, "tiff"@, "tif"@]
}

/// Whether an extension names a raster image format, without regard to
/// case.
pub open spec fn is_raster_ext(ext: Seq<char>) -> bool {
    exists|i: int| 0 <= i < raster_extensions().len() && eq_ignore_ascii_case(ext, #[trigger] raster_extensions()[i])
}

/// Returns true if a file extension is a supported raster image format.
pub fn is_raster_extension(ext: &str) -> (r: bool)
    ensures
        r == is_raster_ext(ext@),
{
    let names: [&str; 8] = ["png", "jpg", "jpeg", "webp", "bmp", "gif", "tiff", "tif"];
    let mut i: usize = 0;
    while i < 8
        invariant
            names@.len() == 8,
            forall|k: int| 0 <= k < 8 ==> (#[trigger] names@[k])@ == raster_extensions()[k],
            i <= 8,
            forall|k: int| 0 <= k < i ==> !eq_ignore_ascii_case(ext@, #[trigger] raster_extensions()[k]),
        decreases 8 - i,
    {
        if equals_ignore_ascii_case(ext, names[i]) {
            return true;
        }
        i += 1;
    }
    false
}

/// How an overlay source given on the command line is to be read.
#[derive(Debug)]
pub enum OverlayInput {
    /// Raw SVG markup.
    Markup(String),
    /// An SVG file to read as text.
    SvgFile,
    /// A raster image file to read as bytes.
    RasterFile,
    /// An emoji character.
    Emoji(String),
    /// An emoji name (e.g. "duck").
    EmojiName(String),
}

/// Whether text starts with `<`, as raw markup does.
pub open spec fn starts_like_markup(s: Seq<char>) -> bool {
    s.len() > 0 && s[0] == '<'
}

/// The model of an overlay input.
pub enum OverlayInputView {
    Markup(Seq<char>),
    SvgFile,
    RasterFile,
    Emoji(Seq<char>),
    EmojiName(Seq<char>),
}

impl View for OverlayInput {
    type V = OverlayInputView;

    open spec fn view(&self) -> OverlayInputView {
        match self {
            OverlayInput::Markup(s) => OverlayInputView::Markup(s@),
            OverlayInput::SvgFile => OverlayInputView::SvgFile,
            OverlayInput::RasterFile => OverlayInputView::RasterFile,
            OverlayInput::Emoji(s) => OverlayInputView::Emoji(s@),
            OverlayInput::EmojiName(s) => OverlayInputView::EmojiName(s@),
        }
    }
}

/// How a (trimmed) overlay source is read, checked in order: raw markup;
/// an existing file with an `svg` extension; an existing file with a raster
/// extension; text with an emoji character; otherwise an emoji name.
pub open spec fn overlay_input_of(source: Seq<char>, extension: Option<Seq<char>>, exists: bool) -> OverlayInputView {
    if starts_like_markup(source) {
        OverlayInputView::Markup(source)
    } else if exists && (extension matches Some(e) && eq_ignore_ascii_case(e, "svg"@)) {
        OverlayInputView::SvgFile
    } else if exists && (extension matches Some(e) && is_raster_ext(e)) {
        OverlayInputView::RasterFile
    } else if exists|i: int| 0 <= i < source.len() && is_emoji_char(#[trigger] source[i]) {
        OverlayInputView::Emoji(source)
    } else {
        OverlayInputView::EmojiName(source)
    }
}

/// The view of an optional string slice.
pub open spec fn opt_view(s: Option<&str>) -> Option<Seq<char>> {
    match s {
        Some(t) => Some(t@),
        None => None,
    }
}

fn starts_with_angle(s: &str) -> (r: bool)
    ensures
        r == starts_like_markup(s@),
{
    let v = chars_of(s);
    v.len() > 0 && v[0] == '<'
}

/// Decides how to read an overlay source; `source` is the trimmed text,
/// `extension` and `exists` describe it taken as a file path.
pub fn classify_overlay_source(source: &str, extension: Option<&str>, exists: bool) -> (r: OverlayInput)
    ensures
        r@ == overlay_input_of(source@, opt_view(extension), exists),
{
    if starts_with_angle(source) {
        return OverlayInput::Markup(source.to_owned());
    }
    if let Some(ext) = extension {
        if equals_ignore_ascii_case(ext, "svg") && exists {
            return OverlayInput::SvgFile;
        }
        if is_raster_extension(ext) && exists {
            return OverlayInput::RasterFile;
        }
    }
    if looks_like_emoji(source) {
        OverlayInput::Emoji(source.to_owned())
    } else {
        OverlayInput::EmojiName(source.to_owned())
    }
}

/// How a decal source given on the command line is to be read; decals
/// accept SVG only.
#[derive(Debug)]
pub enum DecalInput {
    /// Raw SVG markup.
    Markup(String),
    /// An SVG file to read as text.
    SvgFile,
    /// An existing file that is not SVG, with its extension.
    WrongExtension(String),
    /// An existing file without an extension.
    NoExtension,
    /// Neither markup nor an existing file.
    Unresolved,
}

/// The model of a decal input.
pub enum DecalInputView {
    Markup(Seq<char>),
    SvgFile,
    WrongExtension(Seq<char>),
    NoExtension,
    Unresolved,
}

impl View for DecalInput {
    type V = DecalInputView;

    open spec fn view(&self) -> DecalInputView {
        match self {
            DecalInput::Markup(s) => DecalInputView::Markup(s@),
            DecalInput::SvgFile => DecalInputView::SvgFile,
            DecalInput::WrongExtension(e) => DecalInputView::WrongExtension(e@),
            DecalInput::NoExtension => DecalInputView::NoExtension,
            DecalInput::Unresolved => DecalInputView::Unresolved,
        }
    }
}

/// How a (trimmed) decal source is read: raw markup; an existing `svg`
/// file; an existing file of another kind or without extension is refused;
/// anything else cannot be resolved.
pub open spec fn decal_input_of(source: Seq<char>, extension: Option<Seq<char>>, exists: bool) -> DecalInputView {
    if starts_like_markup(source) {
        DecalInputView::Markup(source)
    } else if exists {
        match extension {
            Some(e) => if eq_ignore_ascii_case(e, "svg"@) {
                DecalInputView::SvgFile
            } else {
                DecalInputView::WrongExtension(e)
            },
            None => DecalInputView::NoExtension,
        }
    } else {
        DecalInputView::Unresolved
    }
}

/// Decides how to read a decal source; `source` is the trimmed text,
/// `extension` and `exists` describe it taken as a file path.
pub fn classify_decal_source(source: &str, extension: Option<&str>, exists: bool) -> (r: DecalInput)
    ensures
        r@ == decal_input_of(source@, opt_view(extension), exists),
{
    if starts_with_angle(source) {
        return DecalInput::Markup(source.to_owned());
    }
    if exists {
        match extension {
            Some(ext) => {
                if equals_ignore_ascii_case(ext, "svg") {
                    DecalInput::SvgFile
                } else {
                    DecalInput::WrongExtension(ext.to_owned())
                }
            },
            None => DecalInput::NoExtension,
        }
    } else {
        DecalInput::Unresolved
    }
}

/// Assembles the folder profile from individual options: the preset color
/// as a recolor target, the decal, the overlay. `None` when no option was
/// given, since at least one layer is required.
pub fn folder_profile_from_options(
    color: Option<FolderColor>,
    decal: Option<DecalConfig>,
    overlay: Option<ImageOverlayConfig>,
) -> (r: Option<CustomizationProfile>)
    ensures
        (color is None && decal is None && overlay is None) <==> r is None,
        r matches Some(p) ==> p@ == (ProfileView {
            folder_color_target: match color {
                Some(c) => Some(
                    FolderColorTargetConfig {
                        target_r: c.preset().0,
                        target_g: c.preset().1,
                        target_b: c.preset().2,
                    },
                ),
                None => None,
            },
            color_dot: None,
            decal: config_model(decal),
            overlay: config_model(overlay),
        }),
{
    if color.is_none() && decal.is_none() && overlay.is_none() {
        return None;
    }
    let target = match color {
        Some(c) => Some(c.to_solid_color_config()),
        None => None,
    };
    Some(CustomizationProfile { folder_color_target: target, color_dot: None, decal, overlay })
}

/// The emoji characters: the zero-width joiner, the emoji variation
/// selector, the combining keycap, every character of the miscellaneous
/// symbols and dingbats (U+2600 to U+27BF), of U+2B50 to U+2B55, and of the
/// supplementary emoji blocks (U+1F000 to U+1FAFF, such as U+1F600,
/// U+1F4C1 and U+1F332), and no other; no ASCII character is one.
pub proof fn lemma_emoji_characters(c: char)
    ensures
        c as u32 == 0x200D ==> is_emoji_char(c),
        c as u32 == 0xFE0F ==> is_emoji_char(c),
        c as u32 == 0x20E3 ==> is_emoji_char(c),
        0x2600 <= c as u32 <= 0x27BF ==> is_emoji_char(c),
        0x2B50 <= c as u32 <= 0x2B55 ==> is_emoji_char(c),
        0x1F000 <= c as u32 <= 0x1FAFF ==> is_emoji_char(c),
        (c as u32) < 0x80 ==> !is_emoji_char(c),
        is_emoji_char(c) ==> c as u32 == 0x200D || c as u32 == 0xFE0F || c as u32 == 0x20E3 || (0x2600
            <= c as u32 <= 0x27BF) || (0x2B50 <= c as u32 <= 0x2B55) || (0x1F000 <= c as u32 <= 0x1FAFF),
{
}

/// An overlay source that is neither markup nor an existing image file is
/// read as an emoji when it holds an emoji character, such as one of the
/// supplementary emoji blocks, and as an emoji name when all of it is ASCII.
pub proof fn lemma_overlay_emoji_or_name(source: Seq<char>, extension: Option<Seq<char>>, i: int)
    requires
        !starts_like_markup(source),
    ensures
        0 <= i < source.len() && 0x1F000 <= source[i] as u32 <= 0x1FAFF ==> overlay_input_of(
            source,
            extension,
            false,
        ) == OverlayInputView::Emoji(source),
        (forall|k: int| 0 <= k < source.len() ==> ((#[trigger] source[k]) as u32) < 0x80) ==> overlay_input_of(
            source,
            extension,
            false,
        ) == OverlayInputView::EmojiName(source),
{
    if 0 <= i < source.len() && 0x1F000 <= source[i] as u32 <= 0x1FAFF {
        lemma_emoji_characters(source[i]);
    }
    if forall|k: int| 0 <= k < source.len() ==> ((#[trigger] source[k]) as u32) < 0x80 {
        assert forall|k: int| 0 <= k < source.len() implies !is_emoji_char(#[trigger] source[k]) by {
            lemma_emoji_characters(source[k]);
        }
    }
}

} // verus!
