//! The list itself: an empty list, and the pair of a head and a tail list.

use vstd::prelude::*;

verus! {

/// A heterogeneous list that can hold elements of different types.
pub trait HList {
    /// The number of elements that a list of this type holds. It is fixed by
    /// the type: the nesting of `HCons` is as deep as the list is long.
    spec fn len() -> nat;

    /// Creates a new `HCons` with the given `X` value in head position.
    fn cons<X>(self, x: X) -> (list: HCons<X, Self>) where Self: Sized
        ensures
            list.0 == x,
            list.1 == self,
    {
        HCons(x, self)
    }
}

/// An empty `HList` used as the terminal element.
#[derive(Clone, Copy, Debug, Eq, Hash, Ord, PartialEq, PartialOrd)]
pub struct HNil;

impl HList for HNil {
    open spec fn len() -> nat {
        0
    }
}

/// The "cons" of a head element of type `H` and a tail `HList`.
#[derive(Clone, Copy, Debug, Eq, Hash, Ord, PartialEq, PartialOrd)]
pub struct HCons<H, T: HList>(pub H, pub T);

impl<H, T: HList> HCons<H, T> {
    /// Returns a reference to the head element of this list.
    pub fn head(&self) -> (head: &H)
        ensures
            *head == self.0,
    {
        &self.0
    }

    /// Returns a reference to the tail of this list.
    pub fn tail(&self) -> (tail: &T)
        ensures
            *tail == self.1,
    {
        &self.1
    }
}

impl<H, T: HList> HList for HCons<H, T> {
    open spec fn len() -> nat {
        T::len() + 1
    }
}

/// Putting a value in head position makes the list longer by one.
pub proof fn lemma_cons_len<X, L: HList>()
    ensures
        HCons::<X, L>::len() == L::len() + 1,
{
}

/// Allows for conversion from an `HList` to an instance of the `Self` type.
pub trait FromHList<H>: Sized where H: HList {
    fn from_hlist(hlist: H) -> Self;
}

/// Allows for copying the contents of `Self` into an `HList`.
pub trait ToHList<H> where H: HList {
    fn to_hlist(&self) -> H;
}

/// Allows for converting (and consuming) `Self` into an `HList`.
pub trait IntoHList<H> where H: HList {
    fn into_hlist(self) -> H;
}

} // verus!
