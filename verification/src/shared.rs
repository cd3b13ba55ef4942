//! Shared ownership of immutable values.

use vstd::prelude::*;

verus! {

/// `Rc::clone`: a second pointer to the same allocation, so the value it
/// points to is the same.
#[verifier::external_body]
pub(crate) fn share_rc<T>(rc: &std::rc::Rc<T>) -> (r: std::rc::Rc<T>)
    ensures
        r == *rc,
{
    std::rc::Rc::clone(rc)
}

} // verus!
