//! The obligation marker.

use core::cmp::Ordering;
use vstd::prelude::*;
use vstd::std_specs::cmp::PartialOrdSpec;

verus! {

/// Values of this type must not be dropped: they are given up by
/// [`Relevant::dispose`] and in no other way.
///
/// A struct or enum with a field of this type inherits the obligation. Its
/// owner has to take it apart and dispose of the marker, usually by moving the
/// whole value into a method of the type that knows how to release it.
///
/// The marker is zero-sized and carries no state. Every marker that exists is
/// pending; a disposed marker no longer exists. All markers are therefore the
/// same value, and equality, ordering and hashing see no difference between
/// any two of them, so a host type can derive its own comparisons over a field
/// set that includes a marker.
///
/// The marker is `Clone` and not `Copy`: a clone is a second pending marker
/// with an obligation of its own.
///
/// The marker has no destructor of its own. A destructor must never unwind,
/// and the fatal reaction to a dropped marker does; what a destructor placed
/// over the marker has to do is decided by [`crate::policy::Policy::reaction`].
#[derive(Clone, Debug, PartialEq, Eq, Structural, Ord, Hash)]
pub struct Relevant;

impl Relevant {
    /// Dispose this value.
    ///
    /// Takes the marker by value and ends its life without any reaction: the
    /// call always succeeds, never unwinds, and calls nothing that could
    /// report anything.
    pub fn dispose(self)
        no_unwind
    {
    }
}

impl PartialOrd for Relevant {
    /// Compares two markers: they are always equal.
    fn partial_cmp(&self, other: &Relevant) -> (r: Option<Ordering>) {
        Some(Ordering::Equal)
    }
}

impl vstd::std_specs::cmp::PartialOrdSpecImpl for Relevant {
    open spec fn obeys_partial_cmp_spec() -> bool {
        true
    }

    open spec fn partial_cmp_spec(&self, other: &Relevant) -> Option<Ordering> {
        Some(Ordering::Equal)
    }
}

/// Any two markers are equal, and neither is ordered before the other.
pub proof fn lemma_markers_are_interchangeable(a: Relevant, b: Relevant)
    ensures
        a == b,
        a.partial_cmp_spec(&b) == Some(Ordering::Equal),
{
}

} // verus!
