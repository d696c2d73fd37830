//! Address equality.

use vstd::prelude::*;
use crate::address::Address;

verus! {

/// Two addresses differ.
#[derive(Debug, Clone, Copy, PartialEq, Eq, Structural)]
pub struct AddressMismatch;

/// Checks that `a` and `b` are the same address.
pub fn assert_eq_addr(a: &Address, b: &Address) -> (r: Result<(), AddressMismatch>)
    ensures
        r is Ok <==> a@ == b@,
{
    if a.same_as(b) {
        Ok(())
    } else {
        Err(AddressMismatch)
    }
}

} // verus!
