use vstd::prelude::*;

verus! {

/// A value wrapped so that the crate may give it traits of its own.
pub struct W<T>(pub T);

impl<T> W<T> {
    /// The wrapped value.
    pub fn into_inner(self) -> (r: T)
        ensures
            r == self.0,
    {
        self.0
    }

    /// The wrapped value, borrowed.
    pub fn as_ref(&self) -> (r: &T)
        ensures
            *r == self.0,
    {
        &self.0
    }
}

impl<T> core::ops::Deref for W<T> {
    type Target = T;

    fn deref(&self) -> (r: &T)
        ensures
            *r == self.0,
    {
        &self.0
    }
}

} // verus!
