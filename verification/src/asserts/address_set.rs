//! Address membership against a list of addresses (an allowlist or holder
//! set).

use vstd::prelude::*;
use crate::address::Address;

verus! {

/// The addresses of a list, as strkeys.
pub open spec fn addresses_view(set: Seq<Address>) -> Seq<Seq<u8>> {
    set.map_values(|a: Address| a@)
}

/// Returns `true` when `addr` appears in `set`.
pub fn address_in_set(addr: &Address, set: &Vec<Address>) -> (r: bool)
    ensures
        r == addresses_view(set@).contains(addr@),
{
    let ghost s = addresses_view(set@);
    let n = set.len();
    let mut i: usize = 0;
    while i < n
        invariant
            n == set@.len(),
            s == addresses_view(set@),
            i <= n,
            forall|j: int| 0 <= j < i ==> s[j] != addr@,
        decreases n - i,
    {
        if set[i].same_as(addr) {
            assert(s[i as int] == addr@);
            return true;
        }
        i = i + 1;
    }
    false
}

/// An address was expected in a set and is absent, or expected absent and
/// is present.
#[derive(Debug, Clone, Copy, PartialEq, Eq, Structural)]
pub enum MembershipFailure {
    NotFound,
    UnexpectedlyPresent,
}

/// Checks that `addr` is present in `set`.
pub fn assert_address_in_set(addr: &Address, set: &Vec<Address>) -> (r: Result<(), MembershipFailure>)
    ensures
        r is Ok <==> addresses_view(set@).contains(addr@),
        r is Err ==> r == Err::<(), MembershipFailure>(MembershipFailure::NotFound),
{
    if address_in_set(addr, set) {
        Ok(())
    } else {
        Err(MembershipFailure::NotFound)
    }
}

/// Checks that `addr` is absent from `set`.
pub fn assert_address_not_in_set(addr: &Address, set: &Vec<Address>) -> (r: Result<(), MembershipFailure>)
    ensures
        r is Ok <==> !addresses_view(set@).contains(addr@),
        r is Err ==> r == Err::<(), MembershipFailure>(MembershipFailure::UnexpectedlyPresent),
{
    if address_in_set(addr, set) {
        Err(MembershipFailure::UnexpectedlyPresent)
    } else {
        Ok(())
    }
}

} // verus!
