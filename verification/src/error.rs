//! The errors that loading, glyph access and selection report.

use vstd::prelude::*;

verus! {

/// Why a font could not be loaded.
#[derive(Clone, Copy, Debug, PartialEq, Eq, Structural)]
pub enum FontLoadingError {
    /// The data is in no format that is recognised.
    UnknownFormat,
    /// The collection holds no face with the index asked for.
    NoSuchFontInCollection,
    /// The data is malformed.
    Parse,
    /// The bytes of the font cannot be had.
    FontDataUnavailable,
    /// Reading the data failed.
    Io,
}

/// Why a glyph could not be loaded.
#[derive(Clone, Copy, Debug, PartialEq, Eq, Structural)]
pub enum GlyphLoadingError {
    /// The face has no glyph with that id.
    NoSuchGlyph,
}

/// Why no font was selected.
#[derive(Clone, Copy, Debug, PartialEq, Eq, Structural)]
pub enum SelectionError {
    /// No family or font satisfies the request.
    NotFound,
    /// The source could not be queried.
    CannotAccessSource,
}

} // verus!
