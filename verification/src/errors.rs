use vstd::prelude::*;

verus! {

/// The error returned when text cannot be read as a value of this library.
#[derive(Debug, PartialEq, Eq, Structural)]
pub struct ParseError;

} // verus!
