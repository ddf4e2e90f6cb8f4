//! Which layers a resolved icon base can realize.
//!
//! Capabilities are a property of the resolved base, never of the host
//! platform: a folder icon may arrive as pixels or as scalable markup, and a
//! user may supply an image of their own. [`IconBaseKind`] names what a
//! customization operates on and is the one place the rules follow from.

use vstd::prelude::*;
use crate::profile::{CustomizationProfile, LayerKind, ProfileView, all_layers, duplicate_config, profile_carries};

verus! {

/// What a customization resolved to operate on.
#[derive(Debug, Clone, Copy, PartialEq, Eq, Hash, Structural)]
pub enum IconBaseKind {
    /// The system folder icon, delivered as a PNG set.
    RasterFolder,
    /// The system folder icon, delivered as scalable markup.
    VectorFolder,
    /// An image the user supplied.
    CustomImage,
}

/// Which layers the resolved base can realize.
#[derive(Debug, Clone, Copy, PartialEq, Eq, Structural)]
pub struct IconCapabilities {
    pub solid_color: bool,
    pub color_dot: bool,
    pub decal: bool,
    pub overlay: bool,
}

/// Per-layer explanations of why the resolved base can't realize a layer;
/// `None` where the layer works.
#[derive(Debug)]
pub struct LayerRejections {
    pub solid_color: Option<String>,
    pub color_dot: Option<String>,
    pub decal: Option<String>,
    pub overlay: Option<String>,
}

/// The layers a base kind can realize. Recoloring and decals shift pixels
/// against a known surface color, so they need a raster base with one: only
/// the system's raster folder icon has both. Drawing on top works anywhere.
pub open spec fn capabilities_of(kind: IconBaseKind) -> IconCapabilities {
    let surface_relative = kind == IconBaseKind::RasterFolder;
    IconCapabilities {
        solid_color: surface_relative,
        color_dot: true,
        decal: surface_relative,
        overlay: true,
    }
}

/// Whether `caps` allows `layer`.
pub open spec fn allows(caps: IconCapabilities, layer: LayerKind) -> bool {
    match layer {
        LayerKind::SolidColor => caps.solid_color,
        LayerKind::ColorDot => caps.color_dot,
        LayerKind::Decal => caps.decal,
        LayerKind::Overlay => caps.overlay,
    }
}

/// Why `kind` can't realize `layer`, phrased for end users, or `None` when
/// it can.
pub open spec fn rejection_text(kind: IconBaseKind, layer: LayerKind) -> Option<Seq<char>> {
    if allows(capabilities_of(kind), layer) {
        None
    } else if kind == IconBaseKind::VectorFolder {
        if layer == LayerKind::SolidColor {
            Some("this system's folder icon is a scalable SVG, which has no pixels to recolor"@)
        } else {
            Some("this system's folder icon is a scalable SVG, and decals are imprinted per-pixel"@)
        }
    } else if layer == LayerKind::SolidColor {
        Some("a custom image has no known surface color to recolor away from"@)
    } else {
        Some("decals are tinted against a folder's surface color, which a custom image has none of"@)
    }
}

/// The view of an optional owned string.
pub open spec fn text_model(s: Option<String>) -> Option<Seq<char>> {
    match s {
        Some(t) => Some(t@),
        None => None,
    }
}

/// The profile with every layer that `caps` does not allow removed.
pub open spec fn filtered_profile(caps: IconCapabilities, p: ProfileView) -> ProfileView {
    ProfileView {
        folder_color_target: if caps.solid_color { p.folder_color_target } else { None },
        color_dot: if caps.color_dot { p.color_dot } else { None },
        decal: if caps.decal { p.decal } else { None },
        overlay: if caps.overlay { p.overlay } else { None },
    }
}

/// The layers `p` carries that `caps` does not allow, in pipeline order.
pub open spec fn unsupported_layers(caps: IconCapabilities, p: ProfileView) -> Seq<LayerKind> {
    all_layers().filter(|l: LayerKind| profile_carries(p, l) && !allows(caps, l))
}

impl IconBaseKind {
    /// The layers this base can realize.
    pub fn capabilities(self) -> (r: IconCapabilities)
        ensures
            r == capabilities_of(self),
    {
        let surface_relative = match self {
            IconBaseKind::RasterFolder => true,
            _ => false,
        };
        IconCapabilities { solid_color: surface_relative, color_dot: true, decal: surface_relative, overlay: true }
    }

    /// Why this base can't realize `layer`, or `None` when it can.
    pub fn rejection(self, layer: LayerKind) -> (r: Option<&'static str>)
        ensures
            r is None <==> allows(capabilities_of(self), layer),
            match r {
                Some(t) => rejection_text(self, layer) == Some(t@),
                None => rejection_text(self, layer) is None,
            },
    {
        if self.capabilities().supports(layer) {
            return None;
        }
        match self {
            IconBaseKind::VectorFolder => match layer {
                LayerKind::SolidColor => Some(
                    "this system's folder icon is a scalable SVG, which has no pixels to recolor",
                ),
                _ => Some(
                    "this system's folder icon is a scalable SVG, and decals are imprinted per-pixel",
                ),
            },
            _ => match layer {
                LayerKind::SolidColor => Some(
                    "a custom image has no known surface color to recolor away from",
                ),
                _ => Some(
                    "decals are tinted against a folder's surface color, which a custom image has none of",
                ),
            },
        }
    }

    /// Why each layer this base can't realize is unavailable.
    pub fn rejections(self) -> (r: LayerRejections)
        ensures
            text_model(r.solid_color) == rejection_text(self, LayerKind::SolidColor),
            text_model(r.color_dot) == rejection_text(self, LayerKind::ColorDot),
            text_model(r.decal) == rejection_text(self, LayerKind::Decal),
            text_model(r.overlay) == rejection_text(self, LayerKind::Overlay),
    {
        LayerRejections {
            solid_color: owned(self.rejection(LayerKind::SolidColor)),
            color_dot: owned(self.rejection(LayerKind::ColorDot)),
            decal: owned(self.rejection(LayerKind::Decal)),
            overlay: owned(self.rejection(LayerKind::Overlay)),
        }
    }
}

/// An owned copy of an optional string slice.
fn owned(s: Option<&str>) -> (r: Option<String>)
    ensures
        text_model(r) == match s {
            Some(t) => Some(t@),
            None => None::<Seq<char>>,
        },
{
    match s {
        Some(t) => Some(t.to_owned()),
        None => None,
    }
}

impl IconCapabilities {
    /// Whether `layer` can be realized.
    pub fn supports(&self, layer: LayerKind) -> (r: bool)
        ensures
            r == allows(*self, layer),
    {
        match layer {
            LayerKind::SolidColor => self.solid_color,
            LayerKind::ColorDot => self.color_dot,
            LayerKind::Decal => self.decal,
            LayerKind::Overlay => self.overlay,
        }
    }

    /// The layers `profile` carries that this base can't realize, in
    /// pipeline order. Empty means the profile applies in full.
    pub fn unsupported_in(&self, profile: &CustomizationProfile) -> (r: Vec<LayerKind>)
        ensures
            r@ == unsupported_layers(*self, profile@),
    {
        let layers = LayerKind::all();
        let ghost pred = |l: LayerKind| profile_carries(profile@, l) && !allows(*self, l);
        let mut out: Vec<LayerKind> = Vec::new();
        let mut i: usize = 0;
        while i < 4
            invariant
                layers@ == all_layers(),
                i <= 4,
                pred == (|l: LayerKind| profile_carries(profile@, l) && !allows(*self, l)),
                out@ == all_layers().take(i as int).filter(pred),
            decreases 4 - i,
        {
            let layer = layers[i];
            proof {
                assert(all_layers().take(i + 1).drop_last() =~= all_layers().take(i as int));
                reveal(Seq::filter);
            }
            if profile.carries(layer) && !self.supports(layer) {
                out.push(layer);
            }
            i += 1;
        }
        assert(all_layers().take(4) =~= all_layers());
        out
    }

    /// A copy of `profile` with the intents this base can't realize removed.
    pub fn filter(&self, profile: &CustomizationProfile) -> (r: CustomizationProfile)
        ensures
            r@ == filtered_profile(*self, profile@),
    {
        CustomizationProfile {
            folder_color_target: if self.solid_color { profile.folder_color_target } else { None },
            color_dot: if self.color_dot { profile.color_dot } else { None },
            decal: if self.decal { duplicate_config(&profile.decal) } else { None },
            overlay: if self.overlay { duplicate_config(&profile.overlay) } else { None },
        }
    }
}

/// A base kind gives a reason for refusing a layer exactly when its
/// capabilities do not allow that layer.
pub proof fn lemma_rejection_iff_unsupported(kind: IconBaseKind, layer: LayerKind)
    ensures
        rejection_text(kind, layer) is None <==> allows(capabilities_of(kind), layer),
{
}

/// Filtering a profile keeps exactly the layers that are both carried and
/// allowed, and filtering again changes nothing.
pub proof fn lemma_filter_keeps_allowed(caps: IconCapabilities, p: ProfileView, layer: LayerKind)
    ensures
        profile_carries(filtered_profile(caps, p), layer) == (profile_carries(p, layer) && allows(
            caps,
            layer,
        )),
        filtered_profile(caps, filtered_profile(caps, p)) == filtered_profile(caps, p),
{
}

/// A profile applies in full exactly when nothing it carries is
/// unsupported: then filtering leaves it unchanged.
pub proof fn lemma_unsupported_empty_iff_filter_keeps(caps: IconCapabilities, p: ProfileView)
    ensures
        (unsupported_layers(caps, p).len() == 0) <==> (filtered_profile(caps, p) == p),
{
    reveal_with_fuel(Seq::filter, 5);
    let pred = |l: LayerKind| profile_carries(p, l) && !allows(caps, l);
    assert(all_layers().drop_last().drop_last().drop_last().drop_last() =~= Seq::<LayerKind>::empty());
    assert(all_layers().drop_last().drop_last().drop_last() =~= seq![LayerKind::SolidColor]);
    assert(all_layers().drop_last().drop_last() =~= seq![LayerKind::SolidColor, LayerKind::ColorDot]);
    assert(all_layers().drop_last() =~= seq![LayerKind::SolidColor, LayerKind::ColorDot, LayerKind::Decal]);
}

} // verus!
