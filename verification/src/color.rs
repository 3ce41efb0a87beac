//! Colours as the palette writes them: four channels in hundredths.
use vstd::prelude::*;

verus! {

/// The largest value of a channel: one hundred hundredths.
pub const CHANNEL_FULL: u8 = 100;

/// A colour with red, green, blue and opacity, each in hundredths of the full
/// channel (0 is none, 100 is full).
#[derive(Clone, Copy, Debug, PartialEq, Eq, Structural)]
pub struct Color {
    pub red: u8,
    pub green: u8,
    pub blue: u8,
    pub alpha: u8,
}

impl Color {
    /// Every channel lies between 0 and 100.
    pub open spec fn well_formed(self) -> bool {
        &&& self.red <= CHANNEL_FULL
        &&& self.green <= CHANNEL_FULL
        &&& self.blue <= CHANNEL_FULL
        &&& self.alpha <= CHANNEL_FULL
    }

    /// The opaque colour with the given channels.
    pub open spec fn spec_rgb(red: u8, green: u8, blue: u8) -> Color {
        Color { red, green, blue, alpha: CHANNEL_FULL }
    }

    /// The colour with the given channels and opacity.
    pub open spec fn spec_rgba(red: u8, green: u8, blue: u8, alpha: u8) -> Color {
        Color { red, green, blue, alpha }
    }

    /// An opaque colour from its three channels.
    pub fn rgb(red: u8, green: u8, blue: u8) -> (c: Color)
        requires
            red <= CHANNEL_FULL,
            green <= CHANNEL_FULL,
            blue <= CHANNEL_FULL,
        ensures
            c == Color::spec_rgb(red, green, blue),
            c.well_formed(),
    {
        Color { red, green, blue, alpha: CHANNEL_FULL }
    }

    /// A colour from its three channels and its opacity.
    pub fn rgba(red: u8, green: u8, blue: u8, alpha: u8) -> (c: Color)
        requires
            red <= CHANNEL_FULL,
            green <= CHANNEL_FULL,
            blue <= CHANNEL_FULL,
            alpha <= CHANNEL_FULL,
        ensures
            c == Color::spec_rgba(red, green, blue, alpha),
            c.well_formed(),
    {
        Color { red, green, blue, alpha }
    }

    /// Opaque white.
    pub open spec fn spec_white() -> Color {
        Color::spec_rgb(100, 100, 100)
    }

    /// Opaque black.
    pub open spec fn spec_black() -> Color {
        Color::spec_rgb(0, 0, 0)
    }

    /// Black with no opacity at all.
    pub open spec fn spec_transparent() -> Color {
        Color::spec_rgba(0, 0, 0, 0)
    }

    /// Opaque white.
    pub fn white() -> (c: Color)
        ensures
            c == Color::spec_white(),
    {
        Color::rgb(100, 100, 100)
    }

    /// Opaque black.
    pub fn black() -> (c: Color)
        ensures
            c == Color::spec_black(),
    {
        Color::rgb(0, 0, 0)
    }

    /// Black with no opacity at all.
    pub fn transparent() -> (c: Color)
        ensures
            c == Color::spec_transparent(),
    {
        Color::rgba(0, 0, 0, 0)
    }
}

} // verus!
