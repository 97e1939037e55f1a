//! The wrapper a request's payload arrives in once it has been parsed and
//! validated.

use vstd::prelude::*;

verus! {

/// A payload that has been parsed from the request body and has passed
/// validation.
#[derive(Clone, Copy, Debug)]
#[must_use]
pub struct ApiJsonRequest<T>(pub T);

impl<T> ApiJsonRequest<T> {
    /// Hands the validated payload back.
    pub fn into_inner(self) -> (r: T)
        ensures
            r == self.0,
    {
        self.0
    }
}

} // verus!
