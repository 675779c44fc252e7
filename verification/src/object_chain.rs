//! Static chains of objects with different types.
//!
//! A chain starts (or ends, depending on your view) with a [`Chain`] element
//! and is built up from any number of [`Link`]s by appending. The types of
//! the chained objects may all differ; the chain's length is fixed by its
//! type. This basic structure only allows querying the number of elements.

use vstd::prelude::*;

verus! {

/// Restricts [`ChainElement`] to the chain types of this module.
pub trait Sealed {

}

/// A generic chain element.
pub trait ChainElement: Sized + Sealed {
    /// The number of objects in a chain of this type.
    spec fn length() -> nat;

    /// Return the number of objects linked to this chain element.
    fn count(&self) -> (n: usize)
        requires
            Self::length() <= usize::MAX,
        ensures
            n == Self::length(),
    ;
}

/// A piece of a chain that links one object to the rest of the chain.
pub struct Link<V, C: ChainElement> {
    /// The current object.
    pub object: V,
    /// The rest of the object chain.
    pub parent: C,
}

/// The first piece of a chain, wrapping a single object.
pub struct Chain<V> {
    /// The wrapped object.
    pub object: V,
}

impl<V> Sealed for Chain<V> {

}

impl<V, C: ChainElement> Sealed for Link<V, C> {

}

impl<V, C: ChainElement> Link<V, C> {
    /// Append an object to the chain.
    pub fn append<T>(self, item: T) -> (r: Link<T, Self>)
        ensures
            r.object == item,
            r.parent == self,
    {
        Link { object: item, parent: self }
    }
}

impl<V> Chain<V> {
    /// Create a new chain by wrapping the given object.
    pub fn new(object: V) -> (r: Self)
        ensures
            r.object == object,
    {
        Self { object }
    }

    /// Append an object to the chain.
    pub fn append<T>(self, item: T) -> (r: Link<T, Self>)
        ensures
            r.object == item,
            r.parent == self,
    {
        Link { object: item, parent: self }
    }
}

impl<V, VC: ChainElement> ChainElement for Link<V, VC> {
    open spec fn length() -> nat {
        VC::length() + 1
    }

    fn count(&self) -> usize {
        self.parent.count() + 1
    }
}

impl<V> ChainElement for Chain<V> {
    open spec fn length() -> nat {
        1
    }

    fn count(&self) -> usize {
        1
    }
}

} // verus!
