//! Sortedness checks for vectors.
//!
//! Many DeFi structures (price ladders, tick arrays) must stay ordered.
//! [`is_sorted_asc`] / [`is_sorted_desc`] check non-decreasing /
//! non-increasing order: no element compares below (resp. above) its
//! predecessor.

use vstd::prelude::*;
use vstd::std_specs::cmp::{PartialOrdIs, PartialOrdSpec};

verus! {

/// No element of `s` is less than its predecessor.
pub open spec fn sorted_asc<T: PartialOrd>(s: Seq<T>) -> bool {
    forall|i: int| 1 <= i < s.len() ==> !(#[trigger] s[i]).is_lt(&s[i - 1])
}

/// No element of `s` is greater than its predecessor.
pub open spec fn sorted_desc<T: PartialOrd>(s: Seq<T>) -> bool {
    forall|i: int| 1 <= i < s.len() ==> !(#[trigger] s[i]).is_gt(&s[i - 1])
}

/// Returns `true` when `v` is non-decreasing (no element is less than its
/// predecessor). Stated for element types whose `<` follows their
/// `partial_cmp`, as the integer types' does.
pub fn is_sorted_asc<T: PartialOrd>(v: &Vec<T>) -> (r: bool)
    ensures
        T::obeys_partial_cmp_spec() ==> r == sorted_asc(v@),
{
    let n = v.len();
    let mut i: usize = 1;
    while i < n
        invariant
            n == v@.len(),
            1 <= i,
            T::obeys_partial_cmp_spec() ==> forall|j: int| 1 <= j < i && j < n ==> !(
            #[trigger] v@[j]).is_lt(&v@[j - 1]),
        decreases n - i,
    {
        if v[i] < v[i - 1] {
            return false;
        }
        i = i + 1;
    }
    true
}

/// Returns `true` when `v` is non-increasing (no element is greater than its
/// predecessor). Stated for element types whose `>` follows their
/// `partial_cmp`, as the integer types' does.
pub fn is_sorted_desc<T: PartialOrd>(v: &Vec<T>) -> (r: bool)
    ensures
        T::obeys_partial_cmp_spec() ==> r == sorted_desc(v@),
{
    let n = v.len();
    let mut i: usize = 1;
    while i < n
        invariant
            n == v@.len(),
            1 <= i,
            T::obeys_partial_cmp_spec() ==> forall|j: int| 1 <= j < i && j < n ==> !(
            #[trigger] v@[j]).is_gt(&v@[j - 1]),
        decreases n - i,
    {
        if v[i] > v[i - 1] {
            return false;
        }
        i = i + 1;
    }
    true
}

/// A vector was not in the expected order.
#[derive(Debug, Clone, Copy, PartialEq, Eq, Structural)]
pub struct NotSorted;

/// Checks that `v` is sorted in non-decreasing (ascending) order.
pub fn assert_sorted<T: PartialOrd>(v: &Vec<T>) -> (r: Result<(), NotSorted>)
    ensures
        T::obeys_partial_cmp_spec() ==> (r is Ok <==> sorted_asc(v@)),
{
    if is_sorted_asc(v) {
        Ok(())
    } else {
        Err(NotSorted)
    }
}

/// Checks that `v` is sorted in non-increasing (descending) order.
pub fn assert_sorted_desc<T: PartialOrd>(v: &Vec<T>) -> (r: Result<(), NotSorted>)
    ensures
        T::obeys_partial_cmp_spec() ==> (r is Ok <==> sorted_desc(v@)),
{
    if is_sorted_desc(v) {
        Ok(())
    } else {
        Err(NotSorted)
    }
}

} // verus!
