//! PNG encoding and image decoding, done by the `image` crate.

use vstd::prelude::*;

verus! {

/// The PNG file the `image` crate writes for RGBA pixels of the given
/// dimensions, or `None` when it refuses to encode them.
pub uninterp spec fn png_encoding(width: u32, height: u32, rgba: Seq<u8>) -> Option<Seq<u8>>;

/// The dimensions and RGBA pixels the `image` crate decodes from image file
/// bytes (the format guessed from the bytes), or `None` when it cannot.
pub uninterp spec fn image_decoding(bytes: Seq<u8>) -> Option<(u32, u32, Seq<u8>)>;

/// Whether RGBA pixels fit the allocation limit under which
/// `image::load_from_memory` decodes: the `image` crate's default limits
/// cap the decoded pixel buffer at 512 MiB, and decoding a larger image
/// fails.
pub open spec fn within_default_decode_limit(rgba: Seq<u8>) -> bool {
    rgba.len() <= 512 * 1024 * 1024
}

/// The `image` crate's error type, carried through as it is.
#[verifier::external_type_specification]
#[verifier::external_body]
pub struct ExImageError(image::ImageError);

/// Encodes RGBA pixels as PNG with `DynamicImage::write_to` and
/// `ImageFormat::Png`.
///
/// Trusted: the bytes are the crate's PNG encoding of these pixels, and an
/// error is returned exactly when it refuses them; which error is not
/// stated. PNG is lossless and the pixels are written as 8-bit RGBA, so
/// decoding the bytes gives the same dimensions and pixels back, as long as
/// the pixels fit the decoder's default allocation limit; of larger images
/// nothing is said about decoding. The pixel buffer must hold exactly four
/// bytes per pixel.
#[verifier::external_body]
pub(crate) fn encode_png(width: u32, height: u32, rgba: &Vec<u8>) -> (r: Result<Vec<u8>, image::ImageError>)
    requires
        rgba@.len() == width as int * height as int * 4,
    ensures
        r is Ok <==> png_encoding(width, height, rgba@) is Some,
        r matches Ok(bytes) ==> png_encoding(width, height, rgba@) == Some(bytes@),
        r matches Ok(bytes) ==> (within_default_decode_limit(rgba@) ==> image_decoding(bytes@) == Some(
            (width, height, rgba@),
        )),
{
    let img = image::RgbaImage::from_raw(width, height, rgba.clone()).expect("buffer sized by the caller");
    let mut buf = std::io::Cursor::new(Vec::new());
    match image::DynamicImage::ImageRgba8(img).write_to(&mut buf, image::ImageFormat::Png) {
        Ok(()) => Ok(buf.into_inner()),
        Err(e) => Err(e),
    }
}

/// Decodes image file bytes to RGBA pixels with `image::load_from_memory`
/// and `DynamicImage::to_rgba8`.
///
/// Trusted: the result is the crate's decoding of these bytes, and an error
/// is returned exactly when it cannot decode them, with four bytes for
/// each pixel; which error is not stated.
#[verifier::external_body]
pub(crate) fn decode_image(bytes: &[u8]) -> (r: Result<(u32, u32, Vec<u8>), image::ImageError>)
    ensures
        r is Ok <==> image_decoding(bytes@) is Some,
        r matches Ok((w, h, px)) ==> image_decoding(bytes@) == Some((w, h, px@)),
        r matches Ok((w, h, px)) ==> px@.len() == w as int * h as int * 4,
{
    match image::load_from_memory(bytes) {
        Ok(img) => {
            let rgba = img.to_rgba8();
            Ok((rgba.width(), rgba.height(), rgba.into_raw()))
        },
        Err(e) => Err(e),
    }
}

} // verus!
