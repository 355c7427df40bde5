use vstd::prelude::*;

verus! {

/// The identity of a store that has not been initialized. No initialized
/// store carries it, so a key that carries it never resolves.
pub const NO_CONTAINER_ID: usize = 0;

/// The identity handed to the first store that is initialized; later stores
/// receive the following values.
pub const FIRST_CONTAINER_ID: usize = 1;

/// An opaque key: the identity of the issuing store and a slot index in it.
#[derive(Clone, Copy, PartialEq, Eq, Debug, Structural)]
pub struct CursedKey {
    pub(crate) container_id: usize,
    pub(crate) key: usize,
}

impl CursedKey {
    /// The identity of the store that issued this key.
    pub closed spec fn issuer(self) -> usize {
        self.container_id
    }

    /// The slot index that this key names.
    pub closed spec fn slot(self) -> usize {
        self.key
    }

    pub(crate) fn new(container_id: usize, key: usize) -> (r: CursedKey)
        ensures
            r.issuer() == container_id,
            r.slot() == key,
    {
        CursedKey { container_id, key }
    }

    /// The identity of the store that issued this key.
    pub fn container_id(&self) -> (r: usize)
        ensures
            r == self.issuer(),
    {
        self.container_id
    }

    /// The slot index that this key names.
    pub fn index(&self) -> (r: usize)
        ensures
            r == self.slot(),
    {
        self.key
    }
}

} // verus!
