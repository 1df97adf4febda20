//! An adapter that carries any displayable value to the wrap boundary.

use vstd::prelude::*;

verus! {

/// Wraps a value so that its textual rendering can serve as an error
/// description at the wrap boundary.  The chain keeps only the rendered
/// text, never the value itself.
pub struct DisplayError<M>(pub M);

impl<M> DisplayError<M> {
    /// The wrapped value.
    pub fn into_inner(self) -> (r: M)
        ensures
            r == self.0,
    {
        self.0
    }
}

} // verus!
