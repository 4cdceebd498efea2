//! Font identification and matching: the platform-independent core.
//!
//! - [`matching`] picks the face of a family that best fits the style, stretch
//!   and weight asked for.
//! - [`source`] decides which family to ask a source of fonts for, and when
//!   to fall back to the next one.
//! - [`collection`] sniffs font collections and unpacks one face of a
//!   collection in place.
//! - [`interpolation`] and [`native`] carry the style axes of a font service
//!   over to the CSS scale through piecewise-linear tables.
//!
//! Scalars that a font service reports as real numbers are held in
//! thousandths.

pub mod error;
pub mod font;
pub mod collection;
pub mod descriptor;
pub mod matching;
pub mod interpolation;
pub mod native;
pub mod handle;
pub mod source;
pub mod hinting;
