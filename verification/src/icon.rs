//! Icon images, icon sets and the bases a customization starts from.

use vstd::prelude::*;
use crate::codec::{encode_png, png_encoding};
use crate::error::RenderError;
use crate::geometry::{RectPx, SizePx, SurfaceColor};

verus! {

/// Raw RGBA pixel data, four bytes per pixel in row-major order.
#[derive(Debug, Clone, PartialEq, Eq)]
pub struct RgbaPixels {
    pub width: u32,
    pub height: u32,
    pub data: Vec<u8>,
}

impl RgbaPixels {
    /// Wraps pixel data of the given dimensions.
    pub fn new(width: u32, height: u32, data: Vec<u8>) -> (r: Self)
        ensures
            r.width == width,
            r.height == height,
            r.data@ == data@,
    {
        RgbaPixels { width, height, data }
    }

    /// A copy of these pixels.
    pub fn duplicate(&self) -> (r: Self)
        ensures
            r.width == self.width,
            r.height == self.height,
            r.data@ == self.data@,
    {
        let data = self.data.clone();
        assert(data@ =~= self.data@);
        RgbaPixels { width: self.width, height: self.height, data }
    }
}

/// Whether the pixel data holds exactly four bytes for every pixel.
pub open spec fn pixels_wf(p: RgbaPixels) -> bool {
    p.data@.len() == p.width as int * p.height as int * 4
}

/// Whether two images hold the same pixels and metadata.
pub open spec fn same_image(a: IconImage, b: IconImage) -> bool {
    &&& a.data.width == b.data.width
    &&& a.data.height == b.data.height
    &&& a.data.data@ == b.data.data@
    &&& a.scale_bits == b.scale_bits
    &&& a.content_bounds == b.content_bounds
}

/// Whether two icon sets hold the same images, in the same order.
pub open spec fn same_images(a: Seq<IconImage>, b: Seq<IconImage>) -> bool {
    a.len() == b.len() && forall|i: int| 0 <= i < a.len() ==> same_image(#[trigger] a[i], b[i])
}

/// A single icon image with its associated metadata.
///
/// The display scale factor (1.0 for @1x, 2.0 for @2x, ...) is held as the
/// bit pattern of the IEEE-754 single-precision value; the logical size of
/// the icon is its pixel size divided by that factor.
#[derive(Debug, Clone, PartialEq, Eq)]
pub struct IconImage {
    /// The image data in RGBA format.
    pub data: RgbaPixels,
    /// The bits of the display scale factor.
    pub scale_bits: u32,
    /// The region within the image that holds the actual icon content.
    pub content_bounds: RectPx,
}

impl IconImage {
    /// Creates a new icon image with the given data and metadata.
    pub fn new(data: RgbaPixels, scale_bits: u32, content_bounds: RectPx) -> (r: Self)
        ensures
            r == (IconImage { data, scale_bits, content_bounds }),
    {
        IconImage { data, scale_bits, content_bounds }
    }

    /// Creates a new icon image whose content fills the entire image.
    pub fn new_full_content(data: RgbaPixels, scale_bits: u32) -> (r: Self)
        ensures
            r.data == data,
            r.scale_bits == scale_bits,
            r.content_bounds == (RectPx { x: 0, y: 0, width: data.width, height: data.height }),
    {
        let content_bounds = RectPx::from_size(data.width, data.height);
        IconImage::new(data, scale_bits, content_bounds)
    }

    /// A copy of this image.
    pub fn duplicate(&self) -> (r: Self)
        ensures
            same_image(r, *self),
    {
        IconImage { data: self.data.duplicate(), scale_bits: self.scale_bits, content_bounds: self.content_bounds }
    }

    /// Encodes the image's pixels as PNG.
    pub fn to_png_bytes(&self) -> (r: Result<Vec<u8>, RenderError>)
        requires
            pixels_wf(self.data),
        ensures
            r is Ok <==> png_encoding(self.data.width, self.data.height, self.data.data@) is Some,
            r matches Ok(bytes) ==> png_encoding(self.data.width, self.data.height, self.data.data@)
                == Some(bytes@),
            r matches Err(e) ==> e is ImageEncode,
    {
        match encode_png(self.data.width, self.data.height, &self.data.data) {
            Ok(bytes) => Ok(bytes),
            Err(source) => Err(RenderError::ImageEncode { source }),
        }
    }

    /// Returns the pixel dimensions of the image.
    pub fn dimensions(&self) -> (r: SizePx)
        ensures
            r == (SizePx { width: self.data.width, height: self.data.height }),
    {
        SizePx::new(self.data.width, self.data.height)
    }
}

/// A collection of icon images representing one icon at various sizes and
/// scales.
#[derive(Debug, Clone, PartialEq, Eq)]
pub struct IconSet {
    /// The individual icon images.
    pub images: Vec<IconImage>,
}

impl IconSet {
    /// Creates a new empty icon set.
    pub fn new() -> (r: Self)
        ensures
            r.images@ == Seq::<IconImage>::empty(),
    {
        IconSet { images: Vec::new() }
    }

    /// Creates an icon set from a vector of images.
    pub fn from_images(images: Vec<IconImage>) -> (r: Self)
        ensures
            r.images@ == images@,
    {
        IconSet { images }
    }

    /// Adds an image to the icon set.
    pub fn add_image(&mut self, image: IconImage)
        ensures
            final(self).images@ == old(self).images@.push(image),
    {
        self.images.push(image);
    }

    /// A copy of this icon set.
    pub fn duplicate(&self) -> (r: Self)
        ensures
            same_images(r.images@, self.images@),
    {
        let mut images: Vec<IconImage> = Vec::new();
        let mut i: usize = 0;
        while i < self.images.len()
            invariant
                i <= self.images@.len(),
                images@.len() == i,
                forall|j: int| 0 <= j < i ==> same_image(#[trigger] images@[j], self.images@[j]),
            decreases self.images.len() - i,
        {
            images.push(self.images[i].duplicate());
            i += 1;
        }
        IconSet { images }
    }

    /// Returns the number of images in the set.
    pub fn len(&self) -> (r: usize)
        ensures
            r == self.images@.len(),
    {
        self.images.len()
    }

    /// Returns true if the icon set contains no images.
    pub fn is_empty(&self) -> (r: bool)
        ensures
            r == (self.images@.len() == 0),
    {
        self.images.len() == 0
    }

    /// The images, in order.
    pub fn as_slice(&self) -> (r: &[IconImage])
        ensures
            r@ == self.images@,
    {
        self.images.as_slice()
    }

    /// The image at `index`, if any.
    pub fn get(&self, index: usize) -> (r: Option<&IconImage>)
        ensures
            match r {
                Some(img) => index < self.images@.len() && *img == self.images@[index as int],
                None => index >= self.images@.len(),
            },
    {
        if index < self.images.len() {
            Some(&self.images[index])
        } else {
            None
        }
    }
}

/// The index of the first smallest distance, or `None` for no distances.
///
/// Picks the image whose logical size is closest to a target: the caller
/// measures each image's distance and this chooses among them, keeping the
/// earliest on ties.
pub fn closest_index(distances: &[u32]) -> (r: Option<usize>)
    ensures
        match r {
            None => distances@.len() == 0,
            Some(i) => {
                &&& i < distances@.len()
                &&& forall|j: int| 0 <= j < distances@.len() ==> distances@[i as int] <= distances@[j]
                &&& forall|j: int| 0 <= j < i ==> distances@[i as int] < distances@[j]
            },
        },
{
    if distances.len() == 0 {
        return None;
    }
    let mut best: usize = 0;
    let mut k: usize = 1;
    while k < distances.len()
        invariant
            best < k <= distances@.len(),
            forall|j: int| 0 <= j < k ==> distances@[best as int] <= distances@[j],
            forall|j: int| 0 <= j < best ==> distances@[best as int] < distances@[j],
        decreases distances.len() - k,
    {
        if distances[k] < distances[best] {
            best = k;
        }
        k += 1;
    }
    Some(best)
}

/// A base icon set combined with the surface color needed to compute color
/// target deltas.
#[derive(Debug, Clone, PartialEq, Eq)]
pub struct FolderIconBase {
    /// The base icon images at various sizes.
    pub icons: IconSet,
    /// The color of the icon's primary content surface.
    pub surface_color: SurfaceColor,
}

impl FolderIconBase {
    /// Creates a new icon base with the given icons and surface color.
    pub fn new(icons: IconSet, surface_color: SurfaceColor) -> (r: Self)
        ensures
            r == (FolderIconBase { icons, surface_color }),
    {
        FolderIconBase { icons, surface_color }
    }
}

/// A scalable folder icon plus surface-color metadata.
#[derive(Debug, Clone, PartialEq, Eq)]
pub struct SvgFolderIconBase {
    /// Raw SVG markup for the base folder icon.
    pub svg: String,
    /// The color of the icon's primary content surface.
    pub surface_color: SurfaceColor,
}

impl SvgFolderIconBase {
    /// Creates a new SVG folder base from markup and a surface color.
    pub fn new(svg: &str, surface_color: SurfaceColor) -> (r: Self)
        ensures
            r.svg@ == svg@,
            r.surface_color == surface_color,
    {
        SvgFolderIconBase { svg: svg.to_owned(), surface_color }
    }
}

/// The base icon data for a customizer: a system folder icon with its surface
/// color, or a user-provided image with none.
#[derive(Debug, Clone, PartialEq, Eq)]
pub enum IconBase {
    /// System folder icons with surface color metadata.
    Folder(FolderIconBase),
    /// User-provided image rasterized to platform sizes.
    Custom(IconSet),
}

impl IconBase {
    /// The underlying icon set.
    pub open spec fn icon_set(self) -> IconSet {
        match self {
            IconBase::Folder(base) => base.icons,
            IconBase::Custom(icons) => icons,
        }
    }

    /// Returns a reference to the underlying icon set.
    pub fn icons(&self) -> (r: &IconSet)
        ensures
            *r == self.icon_set(),
    {
        match self {
            IconBase::Folder(base) => &base.icons,
            IconBase::Custom(icons) => icons,
        }
    }

    /// Returns the surface color, if this is a folder-based icon.
    pub fn surface_color(&self) -> (r: Option<&SurfaceColor>)
        ensures
            match self {
                IconBase::Folder(base) => r == Some(&base.surface_color),
                IconBase::Custom(_) => r is None,
            },
    {
        match self {
            IconBase::Folder(base) => Some(&base.surface_color),
            IconBase::Custom(_) => None,
        }
    }

    /// Returns `true` if this is a folder-based icon.
    pub fn is_folder(&self) -> (r: bool)
        ensures
            r == (self is Folder),
    {
        matches!(self, IconBase::Folder(_))
    }

    /// Returns `true` if this is a custom (user-provided) icon.
    pub fn is_custom(&self) -> (r: bool)
        ensures
            r == (self is Custom),
    {
        matches!(self, IconBase::Custom(_))
    }
}

} // verus!
