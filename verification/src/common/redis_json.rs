//! A value stored in redis in its JSON encoding.
use vstd::prelude::*;

verus! {

/// A value that travels through redis as JSON.
#[derive(Debug, Clone, Copy, PartialEq, Eq)]
pub struct Json<T>(pub T);

impl<T> Json<T> {
    /// The wrapped value.
    pub fn into_inner(self) -> (v: T)
        ensures
            v == self.0,
    {
        self.0
    }
}

} // verus!
