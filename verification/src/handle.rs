//! Handles: where the data of a face is, without the face being loaded.

use vstd::prelude::*;

verus! {

/// A reference to one face: a file or a buffer, and the index of the face in
/// it. A handle owns no loaded font; loading is a step of its own.
#[derive(Clone, Debug, PartialEq, Eq)]
pub enum Handle {
    /// A face in a file.
    Path { path: String, font_index: u32 },
    /// A face in a buffer.
    Memory { bytes: Vec<u8>, font_index: u32 },
}

impl Handle {
    /// The handle of face `font_index` in the file at `path`.
    pub fn from_path(path: String, font_index: u32) -> (r: Handle)
        ensures
            r == (Handle::Path { path, font_index }),
    {
        Handle::Path { path, font_index }
    }

    /// The handle of face `font_index` in `bytes`.
    pub fn from_memory(bytes: Vec<u8>, font_index: u32) -> (r: Handle)
        ensures
            r == (Handle::Memory { bytes, font_index }),
    {
        Handle::Memory { bytes, font_index }
    }

    /// The index of the face in its file or buffer.
    pub open spec fn index(self) -> u32 {
        match self {
            Handle::Path { font_index, .. } => font_index,
            Handle::Memory { font_index, .. } => font_index,
        }
    }

    /// The index of the face in its file or buffer.
    pub fn font_index(&self) -> (r: u32)
        ensures
            r == self.index(),
    {
        match self {
            Handle::Path { font_index, .. } => *font_index,
            Handle::Memory { font_index, .. } => *font_index,
        }
    }
}

/// The faces of one family, in the order in which they were enumerated.
#[derive(Clone, Debug, PartialEq, Eq)]
pub struct FamilyHandle {
    pub fonts: Vec<Handle>,
}

impl FamilyHandle {
    /// A family without faces.
    pub fn new() -> (r: FamilyHandle)
        ensures
            r.fonts@.len() == 0,
    {
        FamilyHandle { fonts: Vec::new() }
    }

    /// The family of the given faces, in their order.
    pub fn from_font_handles(fonts: Vec<Handle>) -> (r: FamilyHandle)
        ensures
            r.fonts == fonts,
    {
        FamilyHandle { fonts }
    }

    /// Adds a face at the end.
    pub fn push(&mut self, font: Handle)
        ensures
            final(self).fonts@ == old(self).fonts@.push(font),
    {
        self.fonts.push(font);
    }

    /// Whether the family has no face.
    pub fn is_empty(&self) -> (r: bool)
        ensures
            r == (self.fonts@.len() == 0),
    {
        self.fonts.len() == 0
    }

    /// The faces of the family.
    pub fn fonts(&self) -> (r: &[Handle])
        ensures
            r@ == self.fonts@,
    {
        self.fonts.as_slice()
    }
}

} // verus!
