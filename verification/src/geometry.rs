//! Geometry primitives and the surface color of a base icon.

use vstd::prelude::*;

verus! {

/// A rectangle defined in pixel coordinates.
///
/// Used to specify regions within an image, such as content bounds that
/// indicate where the actual icon content exists (excluding padding/margins).
#[derive(Debug, Clone, Copy, PartialEq, Eq, Structural)]
pub struct RectPx {
    /// X offset from the left edge of the image.
    pub x: u32,
    /// Y offset from the top edge of the image.
    pub y: u32,
    /// Width of the rectangle.
    pub width: u32,
    /// Height of the rectangle.
    pub height: u32,
}

impl RectPx {
    /// Creates a new rectangle with the given position and dimensions.
    pub fn new(x: u32, y: u32, width: u32, height: u32) -> (r: Self)
        ensures
            r == (RectPx { x, y, width, height }),
    {
        RectPx { x, y, width, height }
    }

    /// Creates a rectangle starting at origin (0, 0) with the given dimensions.
    pub fn from_size(width: u32, height: u32) -> (r: Self)
        ensures
            r == (RectPx { x: 0, y: 0, width, height }),
    {
        RectPx { x: 0, y: 0, width, height }
    }

    /// The right edge coordinate, as a mathematical integer.
    pub open spec fn spec_right(self) -> int {
        self.x + self.width
    }

    /// The bottom edge coordinate, as a mathematical integer.
    pub open spec fn spec_bottom(self) -> int {
        self.y + self.height
    }

    /// Returns the right edge coordinate (x + width).
    pub fn right(&self) -> (r: u32)
        requires
            self.spec_right() <= u32::MAX,
        ensures
            r == self.spec_right(),
    {
        self.x + self.width
    }

    /// Returns the bottom edge coordinate (y + height).
    pub fn bottom(&self) -> (r: u32)
        requires
            self.spec_bottom() <= u32::MAX,
        ensures
            r == self.spec_bottom(),
    {
        self.y + self.height
    }
}

/// A 2D size in pixel units.
#[derive(Debug, Clone, Copy, PartialEq, Eq, Structural)]
pub struct SizePx {
    pub width: u32,
    pub height: u32,
}

impl SizePx {
    pub fn new(width: u32, height: u32) -> (r: Self)
        ensures
            r == (SizePx { width, height }),
    {
        SizePx { width, height }
    }

    /// Returns true if width equals height.
    pub fn is_square(&self) -> (r: bool)
        ensures
            r == (self.width == self.height),
    {
        self.width == self.height
    }
}

/// The RGB color of an icon's primary content surface.
///
/// Used as the reference point when computing color target deltas.
#[derive(Debug, Clone, Copy, PartialEq, Eq, Structural)]
pub struct SurfaceColor {
    /// Red channel.
    pub r: u8,
    /// Green channel.
    pub g: u8,
    /// Blue channel.
    pub b: u8,
}

impl SurfaceColor {
    /// Creates a new surface color from RGB values.
    pub fn new(r: u8, g: u8, b: u8) -> (c: Self)
        ensures
            c == (SurfaceColor { r, g, b }),
    {
        SurfaceColor { r, g, b }
    }
}

/// The golden-yellow surface color of the standard Windows folder icon.
pub open spec fn windows_folder_surface() -> SurfaceColor {
    SurfaceColor { r: 255, g: 217, b: 112 }
}

/// Returns the surface color of the Windows folder icon, RGB(255, 217, 112).
pub fn windows_surface_color() -> (c: SurfaceColor)
    ensures
        c == windows_folder_surface(),
{
    SurfaceColor::new(255, 217, 112)
}

/// The pixel dimensions at which the Windows shell ships its folder icon.
pub open spec fn is_windows_icon_dimension(d: u32) -> bool {
    d == 16 || d == 20 || d == 24 || d == 32 || d == 40 || d == 48 || d == 64 || d == 256
}

/// The content region of the Windows folder icon at a shipped dimension.
pub open spec fn windows_content_bounds(d: u32) -> RectPx {
    if d == 16 {
        RectPx { x: 0, y: 4, width: 16, height: 9 }
    } else if d == 20 {
        RectPx { x: 1, y: 6, width: 18, height: 10 }
    } else if d == 24 {
        RectPx { x: 1, y: 6, width: 22, height: 13 }
    } else if d == 32 {
        RectPx { x: 2, y: 8, width: 28, height: 17 }
    } else if d == 40 {
        RectPx { x: 2, y: 10, width: 38, height: 22 }
    } else if d == 48 {
        RectPx { x: 3, y: 11, width: 42, height: 27 }
    } else if d == 64 {
        RectPx { x: 4, y: 16, width: 56, height: 36 }
    } else {
        RectPx { x: 16, y: 62, width: 224, height: 144 }
    }
}

/// Returns the content bounds of the Windows system folder icon.
///
/// The folder icons from the Windows shell do not fill their canvas; these
/// bounds give the imprintable surface where the folder visual exists. The
/// height is accepted for API consistency and not used. Only the shipped
/// dimensions (16, 20, 24, 32, 40, 48, 64 and 256) have bounds.
pub fn get_folder_icon_content_bounds(dimension: u32, height: u32) -> (r: RectPx)
    requires
        is_windows_icon_dimension(dimension),
    ensures
        r == windows_content_bounds(dimension),
        r.spec_right() <= dimension,
        r.spec_bottom() <= dimension,
{
    if dimension == 16 {
        RectPx::new(0, 4, 16, 9)
    } else if dimension == 20 {
        RectPx::new(1, 6, 18, 10)
    } else if dimension == 24 {
        RectPx::new(1, 6, 22, 13)
    } else if dimension == 32 {
        RectPx::new(2, 8, 28, 17)
    } else if dimension == 40 {
        RectPx::new(2, 10, 38, 22)
    } else if dimension == 48 {
        RectPx::new(3, 11, 42, 27)
    } else if dimension == 64 {
        RectPx::new(4, 16, 56, 36)
    } else {
        RectPx::new(16, 62, 224, 144)
    }
}

} // verus!
