use vstd::prelude::*;

verus! {

/// Operations shared by all collections of this library: spans, span sets,
/// boxes and temporal values.
///
/// The positional predicates compare the extents of two collections along
/// their ordered dimension.
pub trait Collection: PartialEq + core::fmt::Debug + Clone {
    /// The type of the elements of the collection.
    type Type;

    /// Returns whether `self` is contained in `container`.
    fn is_contained_in(&self, container: &Self) -> bool;

    /// Returns whether the collection contains `content`.
    fn contains(&self, content: &Self::Type) -> bool;

    /// Returns whether `self` and `other` share at least one element.
    fn overlaps(&self, other: &Self) -> bool;

    /// Returns whether `self` ends before `other` starts.
    fn is_left(&self, other: &Self) -> bool;

    /// Returns whether `self` ends before `other` ends, or when it ends.
    fn is_over_or_left(&self, other: &Self) -> bool;

    /// Returns whether `self` starts after `other` starts, or when it starts.
    fn is_over_or_right(&self, other: &Self) -> bool;

    /// Returns whether `self` starts after `other` ends.
    fn is_right(&self, other: &Self) -> bool;

    /// Returns whether `self` starts just where `other` ends.
    fn is_adjacent(&self, other: &Self) -> bool;
}

/// A collection that can serve as the bounding box of a temporal value.
pub trait BoundingBox: Collection {
}

} // verus!
