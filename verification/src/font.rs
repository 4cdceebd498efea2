//! What a buffer of font data holds.

use vstd::prelude::*;

verus! {

/// The kind of container found in a buffer: one face, or a collection with
/// the given number of faces.
#[derive(Clone, Copy, Debug, PartialEq, Eq, Structural)]
pub enum Type {
    Single,
    Collection(u32),
}

} // verus!
