use vstd::prelude::*;

use std::cell::Cell;
use std::rc::Rc;

verus! {

#[verifier::external_type_specification]
#[verifier::external_body]
#[verifier::reject_recursive_types(T)]
pub struct ExCell<T: ?Sized>(Cell<T>);

/// Reads the value held in a shared cell (`std::cell::Cell::get`).
///
/// Nothing is stated of the result: it is whatever was last stored in the
/// cell by any holder of the `Rc`, which no argument here determines.
#[verifier::external_body]
pub(crate) fn shared_get<T: Copy>(cell: &Rc<Cell<T>>) -> T {
    cell.get()
}

/// Stores a value in a shared cell (`std::cell::Cell::set`). The `Rc` itself
/// (which cell is shared) does not change; the stored value is not visible to
/// the contracts of this crate.
#[verifier::external_body]
pub(crate) fn shared_set<T>(cell: &Rc<Cell<T>>, value: T) {
    cell.set(value)
}

} // verus!
