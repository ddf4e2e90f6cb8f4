//! Folder icon bases in transferable form: each image as PNG bytes with
//! its scale and content bounds, for passing between processes.

use vstd::prelude::*;
use crate::codec::{decode_image, encode_png, image_decoding, png_encoding, within_default_decode_limit};
use crate::error::RenderError;
use crate::geometry::{RectPx, SurfaceColor};
use crate::icon::{FolderIconBase, IconImage, IconSet, RgbaPixels, pixels_wf};

verus! {

/// An icon image as PNG bytes plus metadata.
#[derive(Debug)]
pub struct SerializableIconImage {
    /// The PNG-encoded image.
    pub png_data: Vec<u8>,
    /// The bits of the display scale factor.
    pub scale_bits: u32,
    /// Width in pixels.
    pub width: u32,
    /// Height in pixels.
    pub height: u32,
    /// The content region; absent means the whole image.
    pub content_bounds: Option<RectPx>,
}

/// A folder icon base as transferable images plus its surface color.
#[derive(Debug)]
pub struct SerializableFolderIconBase {
    /// The images, in order.
    pub images: Vec<SerializableIconImage>,
    /// The color of the icon's primary content surface.
    pub surface_color: SurfaceColor,
}

/// Whether `s` is the transferable form of `img`, given the PNG encoding
/// of its pixels.
pub open spec fn encodes_image(s: SerializableIconImage, img: IconImage) -> bool {
    &&& png_encoding(img.data.width, img.data.height, img.data.data@) == Some(s.png_data@)
    &&& s.scale_bits == img.scale_bits
    &&& s.width == img.data.width
    &&& s.height == img.data.height
    &&& s.content_bounds == Some(img.content_bounds)
}

/// Whether decoding `s` gives back the dimensions and pixels of `img`.
pub open spec fn round_trips(s: SerializableIconImage, img: IconImage) -> bool {
    image_decoding(s.png_data@) == Some((img.data.width, img.data.height, img.data.data@))
}

/// Whether the `image` crate can encode the image's pixels as PNG.
pub open spec fn encodable(img: IconImage) -> bool {
    png_encoding(img.data.width, img.data.height, img.data.data@) is Some
}

/// Whether `img` is what the transferable `s` decodes to: the decoded
/// pixels, its scale, and its content bounds or else the whole image.
pub open spec fn decodes_image(img: IconImage, s: SerializableIconImage) -> bool {
    match image_decoding(s.png_data@) {
        Some((w, h, px)) => {
            &&& img.data.width == w
            &&& img.data.height == h
            &&& img.data.data@ == px
            &&& img.scale_bits == s.scale_bits
            &&& img.content_bounds == match s.content_bounds {
                Some(b) => b,
                None => RectPx { x: 0, y: 0, width: w, height: h },
            }
        },
        None => false,
    }
}

impl SerializableIconImage {
    /// The transferable form of an icon image; fails when its pixels cannot
    /// be encoded.
    pub fn from_icon_image(img: &IconImage) -> (r: Result<Self, RenderError>)
        requires
            pixels_wf(img.data),
        ensures
            r is Ok <==> png_encoding(img.data.width, img.data.height, img.data.data@) is Some,
            r matches Ok(s) ==> encodes_image(s, *img),
            r matches Ok(s) ==> (within_default_decode_limit(img.data.data@) ==> round_trips(s, *img)),
            r matches Err(e) ==> e is ImageEncode,
    {
        match encode_png(img.data.width, img.data.height, &img.data.data) {
            Ok(png_data) => Ok(SerializableIconImage {
                png_data,
                scale_bits: img.scale_bits,
                width: img.data.width,
                height: img.data.height,
                content_bounds: Some(img.content_bounds),
            }),
            Err(source) => Err(RenderError::ImageEncode { source }),
        }
    }

    /// The icon image made of decoded pixels with this form's scale and
    /// content bounds, the whole image when it has none.
    pub fn image_from_pixels(&self, width: u32, height: u32, pixels: Vec<u8>) -> (r: IconImage)
        ensures
            r.data.width == width,
            r.data.height == height,
            r.data.data@ == pixels@,
            r.scale_bits == self.scale_bits,
            r.content_bounds == match self.content_bounds {
                Some(b) => b,
                None => RectPx { x: 0, y: 0, width, height },
            },
    {
        let bounds = match self.content_bounds {
            Some(b) => b,
            None => RectPx::from_size(width, height),
        };
        IconImage::new(RgbaPixels::new(width, height, pixels), self.scale_bits, bounds)
    }

    /// The icon image this transferable form decodes to; fails when the
    /// PNG bytes cannot be decoded.
    pub fn to_icon_image(&self) -> (r: Result<IconImage, RenderError>)
        ensures
            r is Ok <==> image_decoding(self.png_data@) is Some,
            r matches Ok(img) ==> decodes_image(img, *self) && pixels_wf(img.data),
            r matches Err(e) ==> e is ImageDecode,
    {
        match decode_image(self.png_data.as_slice()) {
            Ok((w, h, px)) => Ok(self.image_from_pixels(w, h, px)),
            Err(e) => Err(RenderError::ImageDecode(e)),
        }
    }
}

impl SerializableFolderIconBase {
    /// The transferable form of a folder icon base; fails at the first
    /// image whose pixels cannot be encoded.
    pub fn from_folder_icon_base(base: &FolderIconBase) -> (r: Result<Self, RenderError>)
        requires
            forall|i: int| 0 <= i < base.icons.images@.len() ==> pixels_wf(#[trigger] base.icons.images@[i].data),
        ensures
            r is Ok <==> forall|i: int| 0 <= i < base.icons.images@.len() ==> encodable(
                #[trigger] base.icons.images@[i],
            ),
            r matches Ok(s) ==> s.surface_color == base.surface_color && s.images@.len()
                == base.icons.images@.len() && forall|i: int| 0 <= i < s.images@.len() ==> encodes_image(
                #[trigger] s.images@[i],
                base.icons.images@[i],
            ),
            r matches Ok(s) ==> forall|i: int|
                0 <= i < s.images@.len() && within_default_decode_limit(base.icons.images@[i].data.data@)
                    ==> round_trips(#[trigger] s.images@[i], base.icons.images@[i]),
            r matches Err(e) ==> e is ImageEncode,
    {
        let mut images: Vec<SerializableIconImage> = Vec::new();
        let mut i: usize = 0;
        while i < base.icons.images.len()
            invariant
                i <= base.icons.images@.len(),
                forall|k: int| 0 <= k < base.icons.images@.len() ==> pixels_wf(#[trigger] base.icons.images@[k].data),
                images@.len() == i,
                forall|k: int| 0 <= k < i ==> encodes_image(#[trigger] images@[k], base.icons.images@[k]),
                forall|k: int|
                    0 <= k < i && within_default_decode_limit(base.icons.images@[k].data.data@) ==> round_trips(
                        #[trigger] images@[k],
                        base.icons.images@[k],
                    ),
            decreases base.icons.images.len() - i,
        {
            let s = SerializableIconImage::from_icon_image(&base.icons.images[i]);
            match s {
                Ok(s) => images.push(s),
                Err(e) => {
                    assert(!encodable(base.icons.images@[i as int]));
                    return Err(e);
                },
            }
            i += 1;
        }
        assert forall|k: int| 0 <= k < base.icons.images@.len() implies encodable(
            #[trigger] base.icons.images@[k],
        ) by {
            assert(encodes_image(images@[k], base.icons.images@[k]));
        }
        Ok(SerializableFolderIconBase { images, surface_color: base.surface_color })
    }

    /// The folder icon base this transferable form decodes to; fails at the
    /// first image that cannot be decoded.
    pub fn into_folder_icon_base(self) -> (r: Result<FolderIconBase, RenderError>)
        ensures
            r is Ok <==> forall|i: int| 0 <= i < self.images@.len() ==> (image_decoding(
                (#[trigger] self.images@[i]).png_data@,
            ) is Some),
            r matches Ok(b) ==> b.surface_color == self.surface_color && b.icons.images@.len()
                == self.images@.len() && forall|i: int| 0 <= i < self.images@.len() ==> decodes_image(
                #[trigger] b.icons.images@[i],
                self.images@[i],
            ),
            r matches Err(e) ==> e is ImageDecode,
    {
        let mut set = IconSet::new();
        let mut i: usize = 0;
        while i < self.images.len()
            invariant
                i <= self.images@.len(),
                set.images@.len() == i,
                forall|k: int| 0 <= k < i ==> (image_decoding((#[trigger] self.images@[k]).png_data@) is Some),
                forall|k: int| 0 <= k < i ==> decodes_image(#[trigger] set.images@[k], self.images@[k]),
            decreases self.images.len() - i,
        {
            match self.images[i].to_icon_image() {
                Ok(img) => set.add_image(img),
                Err(e) => return Err(e),
            }
            i += 1;
        }
        Ok(FolderIconBase::new(set, self.surface_color))
    }
}

/// Transferring an image and back gives the same image: same pixels, same
/// scale, same content bounds. That the PNG bytes decode back to the pixels
/// (`round_trips`) is what `from_icon_image` promises for pixel buffers
/// within the decoder's default allocation limit.
pub proof fn lemma_transfer_round_trip(s: SerializableIconImage, img: IconImage, out: IconImage)
    requires
        encodes_image(s, img),
        round_trips(s, img),
        decodes_image(out, s),
    ensures
        crate::icon::same_image(out, img),
{
}

/// Transferring a folder icon base and back gives the same base, where
/// every image's PNG bytes decode back to its pixels.
pub proof fn lemma_base_transfer_round_trip(
    base: FolderIconBase,
    s: SerializableFolderIconBase,
    out: FolderIconBase,
)
    requires
        s.surface_color == base.surface_color,
        s.images@.len() == base.icons.images@.len(),
        forall|i: int| 0 <= i < s.images@.len() ==> encodes_image(#[trigger] s.images@[i], base.icons.images@[i]),
        forall|i: int| 0 <= i < s.images@.len() ==> round_trips(#[trigger] s.images@[i], base.icons.images@[i]),
        out.surface_color == s.surface_color,
        out.icons.images@.len() == s.images@.len(),
        forall|i: int| 0 <= i < s.images@.len() ==> decodes_image(#[trigger] out.icons.images@[i], s.images@[i]),
    ensures
        out.surface_color == base.surface_color,
        crate::icon::same_images(out.icons.images@, base.icons.images@),
{
    assert forall|i: int| 0 <= i < out.icons.images@.len() implies crate::icon::same_image(
        #[trigger] out.icons.images@[i],
        base.icons.images@[i],
    ) by {
        lemma_transfer_round_trip(s.images@[i], base.icons.images@[i], out.icons.images@[i]);
    }
}

} // verus!
