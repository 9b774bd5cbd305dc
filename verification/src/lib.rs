//! Verified core of a binding library for MEOS, the C library for
//! spatio-temporal ("moving object") data.
//!
//! The modules here hold the parts of the binding that are plain
//! computation: the WKB output flags, the interpolation kinds, the JSON
//! output layouts, the conversions between the MEOS and the Unix time
//! bases, the argument packing of shifts and scales, and the decoding of
//! the status numbers that MEOS returns.

pub mod collection;
pub mod errors;
pub mod interpolation;
pub mod json;
pub mod shift_scale;
pub mod status;
pub mod text;
pub mod time;
pub mod wkb_variant;

pub use collection::{BoundingBox, Collection};
pub use errors::ParseError;
pub use interpolation::TInterpolation;
pub use json::JSONCVariant;
pub use wkb_variant::WKBVariant;
