//! Rendering media: the canvas a layer pipeline draws onto and what it yields.
//!
//! The raster medium works on pixel images and yields an icon set; the vector
//! medium appends markup fragments to an [`SvgCanvas`] and yields one scalable
//! SVG string.

use vstd::prelude::*;
use crate::icon::{IconImage, IconSet};
use crate::text::{
    chars_of, empty_string, last_match, last_match_before, lemma_last_match_before, push_range, push_str,
    rfind,
};

verus! {

/// A rendering medium: the canvas layers draw onto plus the final output type.
pub trait Medium {
    /// The mutable drawing surface threaded through the layer pipeline.
    type Canvas;

    /// The final rendered artifact produced from the canvas.
    type Output;
}

/// Pixel-based rendering medium. It names the raster canvas/output pair; its
/// private field keeps it from being built outside this module.
#[derive(Debug, Clone, Copy)]
pub struct RasterMedium {
    marker: (),
}

impl Medium for RasterMedium {
    type Canvas = IconImage;
    type Output = IconSet;
}

/// Vector-based rendering medium, a marker like [`RasterMedium`].
#[derive(Debug, Clone, Copy)]
pub struct SvgMedium {
    marker: (),
}

impl Medium for SvgMedium {
    type Canvas = SvgCanvas;
    type Output = String;
}

/// The concatenation of a sequence of texts, in order.
pub open spec fn concat_all(parts: Seq<Seq<char>>) -> Seq<char>
    decreases parts.len(),
{
    if parts.len() == 0 {
        Seq::empty()
    } else {
        concat_all(parts.drop_last()) + parts.last()
    }
}

/// The closing tag of an SVG document.
pub open spec fn closing_tag() -> Seq<char> {
    "</svg>"@
}

/// The serialized document: with no fragments the base unchanged; otherwise
/// the fragments, in order, inserted right before the last `</svg>`, or
/// appended when there is none.
pub open spec fn canvas_output(base: Seq<char>, fragments: Seq<Seq<char>>) -> Seq<char> {
    if fragments.len() == 0 {
        base
    } else {
        let joined = concat_all(fragments);
        match last_match(base, closing_tag()) {
            Some(i) => base.take(i) + joined + base.skip(i),
            None => base + joined,
        }
    }
}

/// A mutable SVG document under construction.
///
/// Wraps the base folder-icon markup and accumulates overlay fragments that
/// are injected just before the closing `</svg>` tag when serialized.
#[derive(Debug)]
pub struct SvgCanvas {
    base: String,
    overlays: Vec<String>,
}

impl SvgCanvas {
    /// The base markup.
    pub closed spec fn base_text(&self) -> Seq<char> {
        self.base@
    }

    /// The overlay fragments pushed so far, in insertion order.
    pub closed spec fn fragments(&self) -> Seq<Seq<char>> {
        self.overlays@.map_values(|f: String| f@)
    }

    /// Creates a canvas from base SVG markup.
    pub fn new(base: &str) -> (c: Self)
        ensures
            c.base_text() == base@,
            c.fragments() == Seq::<Seq<char>>::empty(),
    {
        let c = SvgCanvas { base: base.to_owned(), overlays: Vec::new() };
        assert(c.fragments() =~= Seq::<Seq<char>>::empty());
        c
    }

    /// Appends an SVG fragment to be injected before the closing `</svg>`.
    ///
    /// Fragments are emitted in insertion order, so later overlays paint on
    /// top of earlier ones.
    pub fn push_overlay(&mut self, fragment: &str)
        ensures
            final(self).base_text() == old(self).base_text(),
            final(self).fragments() == old(self).fragments().push(fragment@),
    {
        self.overlays.push(fragment.to_owned());
        assert(self.fragments() =~= old(self).fragments().push(fragment@));
    }

    /// Returns the base markup without any overlays applied.
    pub fn base(&self) -> (r: &str)
        ensures
            r@ == self.base_text(),
    {
        self.base.as_str()
    }

    /// Serializes the canvas to a single SVG string.
    ///
    /// Overlay fragments are inserted immediately before the final `</svg>`.
    /// If no overlays were pushed, the base markup is returned unchanged.
    pub fn into_svg(self) -> (r: String)
        ensures
            r@ == canvas_output(self.base_text(), self.fragments()),
    {
        let ghost frags = self.fragments();
        if self.overlays.len() == 0 {
            return self.base;
        }
        let mut joined = empty_string();
        let mut i: usize = 0;
        while i < self.overlays.len()
            invariant
                i <= self.overlays.len(),
                frags == self.fragments(),
                joined@ == concat_all(frags.take(i as int)),
            decreases self.overlays.len() - i,
        {
            push_str(&mut joined, self.overlays[i].as_str());
            assert(frags.take(i + 1).drop_last() =~= frags.take(i as int));
            i += 1;
        }
        assert(frags.take(frags.len() as int) =~= frags);
        let base = chars_of(self.base.as_str());
        let tag = chars_of("</svg>");
        let found = rfind(&base, &tag);
        proof {
            lemma_last_match_before(base@, tag@, base@.len() - tag@.len());
        }
        match found {
            Some(idx) => {
                let mut out = empty_string();
                push_range(&mut out, &base, 0, idx);
                push_str(&mut out, joined.as_str());
                push_range(&mut out, &base, idx, base.len());
                assert(base@.subrange(0, idx as int) =~= base@.take(idx as int));
                assert(base@.subrange(idx as int, base@.len() as int) =~= base@.skip(idx as int));
                out
            },
            None => {
                let mut out = self.base;
                push_str(&mut out, joined.as_str());
                out
            },
        }
    }
}

/// With no fragments, the canvas serializes to its base unchanged.
pub proof fn lemma_canvas_passthrough(base: Seq<char>)
    ensures
        canvas_output(base, Seq::empty()) == base,
{
}

} // verus!
