//! The sizes at which icons are rasterized for each platform.

use vstd::prelude::*;

verus! {

/// The bits of the scale factor 1.0 (@1x).
pub const SCALE_1X: u32 = 0x3f80_0000;

/// The bits of the scale factor 2.0 (@2x).
pub const SCALE_2X: u32 = 0x4000_0000;

/// A pixel size to rasterize an icon at, with the bits of its display
/// scale factor.
#[derive(Debug, Clone, Copy, PartialEq, Eq, Structural)]
pub struct IconSizeSpec {
    /// Target pixel width.
    pub width: u32,
    /// Target pixel height.
    pub height: u32,
    /// The bits of the display scale factor.
    pub scale_bits: u32,
}

impl IconSizeSpec {
    /// Creates a size specification.
    pub fn new(width: u32, height: u32, scale_bits: u32) -> (r: Self)
        ensures
            r == (IconSizeSpec { width, height, scale_bits }),
    {
        IconSizeSpec { width, height, scale_bits }
    }

    /// Creates a square size specification.
    pub fn square(size: u32, scale_bits: u32) -> (r: Self)
        ensures
            r == (IconSizeSpec { width: size, height: size, scale_bits }),
    {
        IconSizeSpec { width: size, height: size, scale_bits }
    }

    /// Whether width and height are equal.
    pub fn is_square(&self) -> (r: bool)
        ensures
            r == (self.width == self.height),
    {
        self.width == self.height
    }

    /// The larger of width and height.
    pub fn max_dimension(&self) -> (r: u32)
        ensures
            r == if self.width >= self.height { self.width } else { self.height },
    {
        if self.width >= self.height {
            self.width
        } else {
            self.height
        }
    }
}

/// A square size at the given scale.
pub open spec fn sq(size: u32, scale_bits: u32) -> IconSizeSpec {
    IconSizeSpec { width: size, height: size, scale_bits }
}

/// The sizes Windows uses: 16, 20, 24, 32, 40, 48, 64 and 256, all @1x.
pub open spec fn windows_sizes() -> Seq<IconSizeSpec> {
    seq![
        sq(16, SCALE_1X), sq(20, SCALE_1X), sq(24, SCALE_1X), sq(32, SCALE_1X), sq(40, SCALE_1X),
        sq(48, SCALE_1X), sq(64, SCALE_1X), sq(256, SCALE_1X),
    ]
}

/// The sizes macOS uses: 16, 32, 128, 256 and 512, each at @1x and @2x.
pub open spec fn macos_sizes() -> Seq<IconSizeSpec> {
    seq![
        sq(16, SCALE_1X), sq(32, SCALE_2X), sq(32, SCALE_1X), sq(64, SCALE_2X), sq(128, SCALE_1X),
        sq(256, SCALE_2X), sq(256, SCALE_1X), sq(512, SCALE_2X), sq(512, SCALE_1X), sq(1024, SCALE_2X),
    ]
}

/// The sizes Linux icon themes use: 16, 22, 24, 32, 48, 64, 128 and 256,
/// all @1x.
pub open spec fn linux_sizes() -> Seq<IconSizeSpec> {
    seq![
        sq(16, SCALE_1X), sq(22, SCALE_1X), sq(24, SCALE_1X), sq(32, SCALE_1X), sq(48, SCALE_1X),
        sq(64, SCALE_1X), sq(128, SCALE_1X), sq(256, SCALE_1X),
    ]
}

/// The set of sizes an icon is rasterized to for a platform.
#[derive(Debug)]
pub struct PlatformSizeSpec {
    sizes: Vec<IconSizeSpec>,
}

impl PlatformSizeSpec {
    /// The sizes, in order.
    pub closed spec fn sizes_spec(&self) -> Seq<IconSizeSpec> {
        self.sizes@
    }

    /// A size set from a list of sizes.
    pub fn new(sizes: Vec<IconSizeSpec>) -> (r: Self)
        ensures
            r.sizes_spec() == sizes@,
    {
        PlatformSizeSpec { sizes }
    }

    /// The sizes, in order.
    pub fn sizes(&self) -> (r: &[IconSizeSpec])
        ensures
            r@ == self.sizes_spec(),
    {
        self.sizes.as_slice()
    }

    /// The sizes for Windows.
    pub fn windows() -> (r: Self)
        ensures
            r.sizes_spec() == windows_sizes(),
    {
        let one: u32 = SCALE_1X;
        let r = PlatformSizeSpec::new(vec![
            IconSizeSpec::square(16, one), IconSizeSpec::square(20, one), IconSizeSpec::square(24, one),
            IconSizeSpec::square(32, one), IconSizeSpec::square(40, one), IconSizeSpec::square(48, one),
            IconSizeSpec::square(64, one), IconSizeSpec::square(256, one),
        ]);
        assert(r.sizes_spec() =~= windows_sizes());
        r
    }

    /// The sizes for macOS.
    pub fn macos() -> (r: Self)
        ensures
            r.sizes_spec() == macos_sizes(),
    {
        let one: u32 = SCALE_1X;
        let two: u32 = SCALE_2X;
        let r = PlatformSizeSpec::new(vec![
            IconSizeSpec::square(16, one), IconSizeSpec::square(32, two), IconSizeSpec::square(32, one),
            IconSizeSpec::square(64, two), IconSizeSpec::square(128, one), IconSizeSpec::square(256, two),
            IconSizeSpec::square(256, one), IconSizeSpec::square(512, two), IconSizeSpec::square(512, one),
            IconSizeSpec::square(1024, two),
        ]);
        assert(r.sizes_spec() =~= macos_sizes());
        r
    }

    /// The sizes for Linux.
    pub fn linux() -> (r: Self)
        ensures
            r.sizes_spec() == linux_sizes(),
    {
        let one: u32 = SCALE_1X;
        let r = PlatformSizeSpec::new(vec![
            IconSizeSpec::square(16, one), IconSizeSpec::square(22, one), IconSizeSpec::square(24, one),
            IconSizeSpec::square(32, one), IconSizeSpec::square(48, one), IconSizeSpec::square(64, one),
            IconSizeSpec::square(128, one), IconSizeSpec::square(256, one),
        ]);
        assert(r.sizes_spec() =~= linux_sizes());
        r
    }
}

/// Every platform size is positive and square.
pub proof fn lemma_platform_sizes_positive_and_square()
    ensures
        forall|i: int| 0 <= i < windows_sizes().len() ==> #[trigger] windows_sizes()[i].width > 0,
        forall|i: int| 0 <= i < macos_sizes().len() ==> #[trigger] macos_sizes()[i].width > 0,
        forall|i: int| 0 <= i < linux_sizes().len() ==> #[trigger] linux_sizes()[i].width > 0,
        forall|i: int| 0 <= i < windows_sizes().len() ==> #[trigger] windows_sizes()[i].width == windows_sizes()[i].height,
        forall|i: int| 0 <= i < macos_sizes().len() ==> #[trigger] macos_sizes()[i].width == macos_sizes()[i].height,
        forall|i: int| 0 <= i < linux_sizes().len() ==> #[trigger] linux_sizes()[i].width == linux_sizes()[i].height,
{
}

} // verus!
