use vstd::prelude::*;

use crate::key::{CursedKey, NO_CONTAINER_ID};

verus! {

/// The state of a lazily initialized, append-only store.
///
/// Before initialization the store holds nothing and carries no identity.
/// Initialization gives it an identity once; after that values are only ever
/// appended, so a slot index, once issued, names the same slot for good.
pub struct Storage<T> {
    initialized: bool,
    id: usize,
    slots: Vec<T>,
}

impl<T> Storage<T> {
    /// Whether the store has been initialized.
    pub closed spec fn is_init(&self) -> bool {
        self.initialized
    }

    /// The identity of the store: `NO_CONTAINER_ID` until it is initialized.
    pub closed spec fn ident(&self) -> usize {
        self.id
    }

    /// The values held, in the order of insertion.
    pub closed spec fn values(&self) -> Seq<T> {
        self.slots@
    }

    /// Well-formedness: an uninitialized store is empty and has no identity;
    /// an initialized one has a real identity.
    pub open spec fn wf(&self) -> bool {
        if self.is_init() {
            self.ident() != NO_CONTAINER_ID
        } else {
            self.ident() == NO_CONTAINER_ID && self.values().len() == 0
        }
    }

    /// Whether `k` names a value of this store: it was issued by a store of
    /// this identity and its index is in range.
    pub open spec fn resolves(&self, k: CursedKey) -> bool {
        &&& self.is_init()
        &&& k.issuer() == self.ident()
        &&& k.slot() < self.values().len()
    }

    /// What a lookup of `k` finds.
    pub open spec fn lookup(&self, k: CursedKey) -> Option<T> {
        if self.resolves(k) {
            Some(self.values()[k.slot() as int])
        } else {
            None
        }
    }

    /// `after` is this store once initialization was asked for with `id`: a
    /// store that was initialized already stays as it is; one that was not
    /// takes `id` and holds nothing.
    pub open spec fn initialized_by(&self, id: usize, after: Self) -> bool {
        &&& after.is_init()
        &&& if self.is_init() {
            after == *self
        } else {
            after.ident() == id && after.values() == Seq::<T>::empty()
        }
    }

    /// `after` is this store with `value` appended, and `k` the key issued
    /// for it.
    pub open spec fn appended(&self, value: T, after: Self, k: CursedKey) -> bool {
        &&& self.is_init()
        &&& after.is_init()
        &&& after.ident() == self.ident()
        &&& after.values() == self.values().push(value)
        &&& k.issuer() == self.ident()
        &&& k.slot() == self.values().len()
    }

    /// `after` is this store once the slot that `k` names has been set to `x`.
    pub open spec fn written(&self, k: CursedKey, x: T, after: Self) -> bool {
        &&& self.resolves(k)
        &&& after.is_init()
        &&& after.ident() == self.ident()
        &&& after.values() == self.values().update(k.slot() as int, x)
    }

    /// An uninitialized, empty store.
    pub fn new() -> (s: Self)
        ensures
            s.wf(),
            !s.is_init(),
            s.ident() == NO_CONTAINER_ID,
            s.values() == Seq::<T>::empty(),
    {
        Storage { initialized: false, id: NO_CONTAINER_ID, slots: Vec::new() }
    }

    /// Whether the store has been initialized.
    pub fn is_initialized(&self) -> (r: bool)
        ensures
            r == self.is_init(),
    {
        self.initialized
    }

    /// The identity of the store: `NO_CONTAINER_ID` until it is initialized.
    pub fn id(&self) -> (r: usize)
        ensures
            r == self.ident(),
    {
        self.id
    }

    /// The number of values held.
    pub fn len(&self) -> (r: usize)
        ensures
            r == self.values().len(),
    {
        self.slots.len()
    }

    /// Initializes the store with identity `id`, unless it is initialized
    /// already, in which case nothing changes.
    pub fn init(&mut self, id: usize)
        requires
            old(self).wf(),
            !old(self).is_init() ==> id != NO_CONTAINER_ID,
        ensures
            final(self).wf(),
            old(self).initialized_by(id, *final(self)),
    {
        if !self.initialized {
            self.slots = Vec::new();
            self.id = id;
            self.initialized = true;
        }
    }

    /// Appends `value` and returns the key that names it: this store's
    /// identity and the index of the new slot.
    pub fn insert(&mut self, value: T) -> (k: CursedKey)
        requires
            old(self).wf(),
            old(self).is_init(),
        ensures
            final(self).wf(),
            old(self).appended(value, *final(self), k),
    {
        self.slots.push(value);
        CursedKey::new(self.id, self.slots.len() - 1)
    }

    /// The value that `k` names, if it was issued by this store and its
    /// index is in range.
    pub fn get(&self, k: CursedKey) -> (r: Option<&T>)
        ensures
            r.is_some() <==> self.resolves(k),
            r.is_some() ==> self.lookup(k) == Some(*r.unwrap()),
    {
        let i = k.index();
        if self.initialized && k.container_id() == self.id && i < self.slots.len() {
            Some(&self.slots[i])
        } else {
            None
        }
    }

    /// A mutable reference to the value that `k` names, if it was issued by
    /// this store and its index is in range. Whatever is written through it
    /// is what later lookups of `k` find.
    pub fn get_mut(&mut self, k: CursedKey) -> (r: Option<&mut T>)
        ensures
            r.is_some() <==> old(self).resolves(k),
            r.is_some() ==> old(self).lookup(k) == Some(*r.unwrap()),
            r.is_some() ==> old(self).written(k, *final(r.unwrap()), *final(self)),
            r.is_none() ==> *final(self) == *old(self),
    {
        let i = k.index();
        if self.initialized && k.container_id() == self.id && i < self.slots.len() {
            Some(&mut self.slots[i])
        } else {
            None
        }
    }
}

} // verus!
