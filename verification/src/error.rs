//! Errors that can occur while customizing and rendering icons.

use vstd::prelude::*;

verus! {

/// Errors that can occur during icon rendering.
///
/// Failures of the SVG parser, which runs outside this crate, are carried as
/// their message text; those of the image codecs as they are.
#[derive(Debug)]
pub enum RenderError {
    /// The SVG data could not be parsed.
    SvgParse { message: String },
    /// The emoji character is not supported by Twemoji.
    InvalidEmoji { emoji: String },
    /// The emoji name is not recognized by Twemoji.
    InvalidEmojiName { name: String },
    /// An emoji source was used where emoji support is not available.
    TwemojiNotAvailable,
    /// Failed to create a pixel buffer for rendering.
    PixmapCreation { width: u32, height: u32 },
    /// No base icon was found at the requested logical size.
    NoBaseIcon { logical_size: u32 },
    /// Failed to decode a raster image.
    ImageDecode(image::ImageError),
    /// Failed to encode an image.
    ImageEncode { source: image::ImageError },
}

} // verus!
