//! The list of locations handed back by an acquisition, stored in a
//! `smallvec::SmallVec` so the common single-location case needs no heap
//! allocation. The container itself is opaque to the verifier; its
//! contents are named by `loc_list_seq`, and every access goes through
//! the trusted wrappers below.

use vstd::prelude::*;
use crate::location::Location;

verus! {

/// An ordered list of acquired locations, backed by `smallvec::SmallVec`.
#[verifier::external_body]
pub struct LocationList {
    inner: smallvec::SmallVec<[Location; 1]>,
}

/// The sequence of locations a `LocationList` holds, front to back.
pub uninterp spec fn loc_list_seq(v: LocationList) -> Seq<Location>;

/// Relies on smallvec::SmallVec::from_vec: the result holds exactly the
/// elements of the argument vector, in the same order.
#[verifier::external_body]
pub(crate) fn loc_list_from_vec(v: Vec<Location>) -> (r: LocationList)
    ensures
        loc_list_seq(r) == v@,
{
    LocationList { inner: smallvec::SmallVec::from_vec(v) }
}

impl LocationList {
    /// Relies on smallvec::SmallVec::as_slice: the slice of all elements,
    /// in order.
    #[verifier::external_body]
    pub fn as_slice(&self) -> (r: &[Location])
        ensures
            r@ == loc_list_seq(*self),
    {
        self.inner.as_slice()
    }

    /// How many locations the list holds.
    pub fn len(&self) -> (n: usize)
        ensures
            n == loc_list_seq(*self).len(),
    {
        self.as_slice().len()
    }

    /// The location at position `i`.
    pub fn get(&self, i: usize) -> (r: Location)
        requires
            i < loc_list_seq(*self).len(),
        ensures
            r == loc_list_seq(*self)[i as int],
    {
        self.as_slice()[i]
    }
}

} // verus!
