//! Values that live in durable storage under a key, with the value to start
//! from where nothing has been stored.

use vstd::prelude::*;
use core::marker::PhantomData;

verus! {

/// A key in durable storage and the function that gives the value to start
/// from.
#[verifier::reject_recursive_types(T)]
#[verifier::reject_recursive_types(F)]
pub struct PersistAtom<T, F: Fn() -> T> {
    key: &'static str,
    init: F,
    value: PhantomData<T>,
}

impl<T, F: Fn() -> T + Copy> Clone for PersistAtom<T, F> {
    fn clone(&self) -> (copy: PersistAtom<T, F>)
        ensures
            copy == *self,
    {
        PersistAtom { key: self.key, init: self.init, value: PhantomData }
    }
}

impl<T, F: Fn() -> T + Copy> Copy for PersistAtom<T, F> {

}

impl<T, F: Fn() -> T> PersistAtom<T, F> {
    /// The key under which the value is stored.
    pub closed spec fn spec_key(&self) -> Seq<char> {
        self.key@
    }

    /// Whether the function that gives the first value can be called.
    pub closed spec fn can_init(&self) -> bool {
        self.init.requires(())
    }

    /// Whether `value` is a value that the function may give.
    pub closed spec fn is_initial(&self, value: T) -> bool {
        self.init.ensures((), value)
    }

    pub fn new(key: &'static str, init: F) -> (atom: PersistAtom<T, F>)
        ensures
            atom.spec_key() == key@,
            atom.can_init() == init.requires(()),
            forall|value: T| atom.is_initial(value) == init.ensures((), value),
    {
        PersistAtom { key, init, value: PhantomData }
    }

    /// The value to start from.
    pub fn init(&self) -> (value: T)
        requires
            self.can_init(),
        ensures
            self.is_initial(value),
    {
        (self.init)()
    }

    /// The value of the atom, given what durable storage holds for its key:
    /// the stored value where there is one, the value to start from where
    /// there is none or it could not be read.
    pub fn value_or_init(&self, stored: Option<T>) -> (value: T)
        requires
            self.can_init(),
        ensures
            match stored {
                Some(v) => value == v,
                None => self.is_initial(value),
            },
    {
        match stored {
            Some(v) => v,
            None => self.init(),
        }
    }

    pub fn key(&self) -> (key: &'static str)
        ensures
            key@ == self.spec_key(),
    {
        self.key
    }
}

} // verus!
