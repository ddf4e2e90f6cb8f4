//! The window theme remembered between launches, so that the first frame
//! is painted in the right colors.

use vstd::prelude::*;
use crate::text::{str_equals, trim, trimmed};

verus! {

/// The theme the window starts in.
#[derive(Debug, Clone, Copy, PartialEq, Eq, Structural)]
pub enum StartupTheme {
    Light,
    Dark,
}

impl StartupTheme {
    /// The window background color of the theme, as RGBA.
    pub fn background_color(self) -> (r: (u8, u8, u8, u8))
        ensures
            r == match self {
                StartupTheme::Light => (255u8, 255u8, 255u8, 255u8),
                StartupTheme::Dark => (2u8, 6u8, 23u8, 255u8),
            },
    {
        match self {
            StartupTheme::Light => (255, 255, 255, 255),
            StartupTheme::Dark => (2, 6, 23, 255),
        }
    }

    /// The name under which the theme is remembered.
    pub fn as_str(self) -> (r: &'static str)
        ensures
            r@ == match self {
                StartupTheme::Light => "light"@,
                StartupTheme::Dark => "dark"@,
            },
    {
        match self {
            StartupTheme::Light => "light",
            StartupTheme::Dark => "dark",
        }
    }

    /// The theme remembered in `cached` text: dark when the text, trimmed,
    /// is `dark`; light otherwise, and when nothing could be read.
    pub fn from_cached(cached: Option<&str>) -> (r: StartupTheme)
        ensures
            r == (if cached matches Some(t) && trimmed(t@) == "dark"@ {
                StartupTheme::Dark
            } else {
                StartupTheme::Light
            }),
    {
        match cached {
            Some(text) => {
                let t = trim(text);
                if str_equals(t.as_str(), "dark") {
                    StartupTheme::Dark
                } else {
                    StartupTheme::Light
                }
            },
            None => StartupTheme::Light,
        }
    }
}

} // verus!
