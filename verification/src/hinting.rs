//! Hinting: how outlines are fitted to the pixel grid.

use vstd::prelude::*;

verus! {

/// The hinting asked for. Where hinting is done, the point size used for
/// grid fitting is given in thousandths of a point.
#[derive(Clone, Copy, Debug, PartialEq, Eq, Structural)]
pub enum HintingOptions {
    /// No hinting, unless it is needed to assemble the glyph.
    Off,
    /// Hinting in the vertical direction only.
    Vertical(u32),
    /// Hinting in the vertical direction only, adjusted for subpixel
    /// antialiasing.
    VerticalSubpixel(u32),
    /// Hinting in both directions.
    Full(u32),
}

impl HintingOptions {
    /// The point size for grid fitting, where there is hinting.
    pub open spec fn size(self) -> Option<u32> {
        match self {
            HintingOptions::Off => None,
            HintingOptions::Vertical(size) => Some(size),
            HintingOptions::VerticalSubpixel(size) => Some(size),
            HintingOptions::Full(size) => Some(size),
        }
    }

    /// The point size for grid fitting, where there is hinting.
    pub fn grid_fitting_size(&self) -> (r: Option<u32>)
        ensures
            r == self.size(),
    {
        match *self {
            HintingOptions::Off => None,
            HintingOptions::Vertical(size) => Some(size),
            HintingOptions::VerticalSubpixel(size) => Some(size),
            HintingOptions::Full(size) => Some(size),
        }
    }

    /// Whether a font service that never hints can honour these options: it
    /// can where no hinting is asked for, and only there.
    pub fn supported_without_hinting(&self) -> (r: bool)
        ensures
            r == (self.size() is None),
    {
        match *self {
            HintingOptions::Off => true,
            HintingOptions::Vertical(_) => false,
            HintingOptions::VerticalSubpixel(_) => false,
            HintingOptions::Full(_) => false,
        }
    }
}

} // verus!
