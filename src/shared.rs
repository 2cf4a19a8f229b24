//! Shared, read-only ownership of the candidate list.
use std::rc::Rc;
use vstd::prelude::*;

verus! {

/// Relies on `Rc::clone`: the clone is another pointer to the same value.
#[verifier::external_body]
pub(crate) fn share<T>(this: &Rc<T>) -> (r: Rc<T>)
    ensures
        r == *this,
{
    Rc::clone(this)
}

} // verus!
