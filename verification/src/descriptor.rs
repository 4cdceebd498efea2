//! What is asked of a font: family, style, weight and stretch.
//!
//! Weight and stretch are held in thousandths, so that the values a font
//! service derives by interpolation need no rounding to whole units: weight
//! 400 is `Weight(400_000)`, stretch 1.0 is `Stretch(1_000)`.

use vstd::prelude::*;

verus! {

/// Whether a face is upright, italic or oblique.
#[derive(Clone, Copy, Debug, PartialEq, Eq, Structural)]
pub enum Style {
    Normal,
    Italic,
    Oblique,
}

/// The degree of blackness, on the CSS scale from 1 to 1000, in thousandths.
#[derive(Clone, Copy, Debug, PartialEq, Eq, Structural)]
pub struct Weight(pub u32);

/// The width of a face relative to the normal width, in thousandths.
#[derive(Clone, Copy, Debug, PartialEq, Eq, Structural)]
pub struct Stretch(pub u32);

/// Thousandths in one unit.
pub const UNIT: u32 = 1_000;

/// Weight 100, the lightest named weight.
pub const WEIGHT_THIN: u32 = 100_000;

/// Weight 400.
pub const WEIGHT_NORMAL: u32 = 400_000;

/// The weight from which on a request near normal is served from 400 first.
pub const WEIGHT_CUTOFF: u32 = 450_000;

/// Weight 500.
pub const WEIGHT_MEDIUM: u32 = 500_000;

/// Weight 700.
pub const WEIGHT_BOLD: u32 = 700_000;

/// Weight 1000, the end of the scale.
pub const WEIGHT_MAX: u32 = 1_000_000;

/// Stretch 0.5, the narrowest on the scale.
pub const STRETCH_MIN: u32 = 500;

/// Stretch 1.0.
pub const STRETCH_NORMAL: u32 = 1_000;

/// Stretch 2.0, the widest on the scale.
pub const STRETCH_MAX: u32 = 2_000;

impl Weight {
    /// The weight lies on the CSS scale.
    pub open spec fn in_range(self) -> bool {
        UNIT <= self.0 <= WEIGHT_MAX
    }
}

impl Stretch {
    /// The stretch lies on the CSS scale.
    pub open spec fn in_range(self) -> bool {
        STRETCH_MIN <= self.0 <= STRETCH_MAX
    }
}

/// The style properties of a face, or those asked for.
#[derive(Clone, Copy, Debug, PartialEq, Eq, Structural)]
pub struct Properties {
    pub style: Style,
    pub weight: Weight,
    pub stretch: Stretch,
}

impl Properties {
    /// Upright, weight 400, stretch 1.0.
    pub fn new() -> (r: Properties)
        ensures
            r == (Properties {
                style: Style::Normal,
                weight: Weight(WEIGHT_NORMAL),
                stretch: Stretch(STRETCH_NORMAL),
            }),
    {
        Properties {
            style: Style::Normal,
            weight: Weight(WEIGHT_NORMAL),
            stretch: Stretch(STRETCH_NORMAL),
        }
    }

    /// Weight and stretch both lie on their scales.
    pub open spec fn in_range(self) -> bool {
        self.weight.in_range() && self.stretch.in_range()
    }
}

/// A family to look for: one by name, or one of the generic families.
#[derive(Clone, Debug, PartialEq, Eq)]
pub enum FamilySpec {
    Name(String),
    Serif,
    SansSerif,
    Monospace,
    Cursive,
    Fantasy,
}

/// A request for a font: the families to try, first listed first, and the
/// style properties wanted.
#[derive(Clone, Debug, PartialEq, Eq)]
pub struct Spec {
    pub families: Vec<FamilySpec>,
    pub properties: Properties,
}

/// The family names that stand for the generic families.
#[derive(Clone, Debug, PartialEq, Eq)]
pub struct DefaultFamilies {
    pub serif: String,
    pub sans_serif: String,
    pub monospace: String,
    pub cursive: String,
    pub fantasy: String,
}

} // verus!
