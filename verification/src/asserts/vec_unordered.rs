//! Order-insensitive vector equality.
//!
//! [`vec_eq_unordered`] decides whether two vectors contain the same
//! *multiset* of elements (same elements with the same multiplicities),
//! ignoring order. It matches each element of `a`, in order, with the first
//! not-yet-matched equal element of `b`.

use vstd::prelude::*;
use vstd::laws_eq::{obeys_concrete_eq, obeys_eq, obeys_eq_spec_properties};
use vstd::multiset::Multiset;
use vstd::std_specs::cmp::PartialEqSpec;

verus! {

broadcast use vstd::multiset::group_multiset_axioms;

/// The elements of `b` (among its first `b.len()` positions) whose flag in
/// `used` equals `flag`.
pub open spec fn picked<T>(b: Seq<T>, used: Seq<bool>, flag: bool) -> Multiset<T>
    decreases b.len(),
{
    if b.len() == 0 {
        Multiset::empty()
    } else {
        let rest = picked(b.drop_last(), used, flag);
        if used[b.len() - 1] == flag {
            rest.insert(b.last())
        } else {
            rest
        }
    }
}

/// Only the flags of positions below `b.len()` matter.
proof fn lemma_picked_frame<T>(b: Seq<T>, u1: Seq<bool>, u2: Seq<bool>, flag: bool)
    requires
        forall|k: int| 0 <= k < b.len() ==> u1[k] == u2[k],
    ensures
        picked(b, u1, flag) == picked(b, u2, flag),
    decreases b.len(),
{
    if b.len() > 0 {
        lemma_picked_frame(b.drop_last(), u1, u2, flag);
    }
}

/// The matched and unmatched elements together are all of `b`.
proof fn lemma_picked_split<T>(b: Seq<T>, used: Seq<bool>)
    ensures
        picked(b, used, true).add(picked(b, used, false)) =~= b.to_multiset(),
    decreases b.len(),
{
    broadcast use vstd::seq_lib::group_to_multiset_ensures;

    if b.len() > 0 {
        lemma_picked_split(b.drop_last(), used);
        assert(b =~= b.drop_last().push(b.last()));
    } else {
        assert(b.to_multiset() =~= Multiset::empty());
    }
}

/// Marking position `j` as matched moves `b[j]` from the unmatched to the
/// matched elements.
proof fn lemma_picked_flip<T>(b: Seq<T>, used: Seq<bool>, j: int)
    requires
        0 <= j < b.len() <= used.len(),
        !used[j],
    ensures
        picked(b, used.update(j, true), true) =~= picked(b, used, true).insert(b[j]),
        picked(b, used.update(j, true), false) =~= picked(b, used, false).remove(b[j]),
        picked(b, used, false).count(b[j]) > 0,
    decreases b.len(),
{
    broadcast use vstd::multiset::group_multiset_properties;

    let u2 = used.update(j, true);
    if j == b.len() - 1 {
        lemma_picked_frame(b.drop_last(), used, u2, true);
        lemma_picked_frame(b.drop_last(), used, u2, false);
    } else {
        lemma_picked_flip(b.drop_last(), used, j);
    }
}

/// An element that no unmatched position holds is not among the unmatched
/// elements.
proof fn lemma_picked_absent<T>(b: Seq<T>, used: Seq<bool>, x: T)
    requires
        forall|k: int| 0 <= k < b.len() && !used[k] ==> b[k] != x,
    ensures
        picked(b, used, false).count(x) == 0,
    decreases b.len(),
{
    if b.len() > 0 {
        lemma_picked_absent(b.drop_last(), used, x);
    }
}

/// `==` on `T` is an equivalence relation: reflexive, symmetric and
/// transitive.
pub open spec fn eq_is_equivalence<T: PartialEq>() -> bool {
    &&& obeys_eq::<T>()
    &&& forall|x: T| #[trigger] x.eq_spec(&x)
}

/// The number of elements of `s` that `==` equates with `x`.
pub open spec fn count_like<T: PartialEq>(s: Seq<T>, x: T) -> nat
    decreases s.len(),
{
    if s.len() == 0 {
        0
    } else {
        count_like(s.drop_last(), x) + if x.eq_spec(&s.last()) {
            1nat
        } else {
            0nat
        }
    }
}

/// `a` and `b` have the same length and hold the same number of elements of
/// every class of `==`.
pub open spec fn same_classes<T: PartialEq>(a: Seq<T>, b: Seq<T>) -> bool {
    &&& a.len() == b.len()
    &&& forall|x: T| #[trigger] count_like(a, x) == count_like(b, x)
}

/// The number of positions of `b` whose flag in `used` equals `flag` and
/// whose element `==` equates with `x`.
pub open spec fn count_picked_like<T: PartialEq>(b: Seq<T>, used: Seq<bool>, flag: bool, x: T) -> nat
    decreases b.len(),
{
    if b.len() == 0 {
        0
    } else {
        count_picked_like(b.drop_last(), used, flag, x) + if used[b.len() - 1] == flag && x.eq_spec(
            &b.last(),
        ) {
            1nat
        } else {
            0nat
        }
    }
}

/// Only the flags of positions below `b.len()` matter to the class counts.
proof fn lemma_count_picked_frame<T: PartialEq>(
    b: Seq<T>,
    u1: Seq<bool>,
    u2: Seq<bool>,
    flag: bool,
    x: T,
)
    requires
        forall|k: int| 0 <= k < b.len() ==> u1[k] == u2[k],
    ensures
        count_picked_like(b, u1, flag, x) == count_picked_like(b, u2, flag, x),
    decreases b.len(),
{
    if b.len() > 0 {
        lemma_count_picked_frame(b.drop_last(), u1, u2, flag, x);
    }
}

/// The matched and unmatched positions together count every element of `b`
/// like `x`.
proof fn lemma_count_picked_split<T: PartialEq>(b: Seq<T>, used: Seq<bool>, x: T)
    ensures
        count_picked_like(b, used, true, x) + count_picked_like(b, used, false, x) == count_like(b, x),
    decreases b.len(),
{
    if b.len() > 0 {
        lemma_count_picked_split(b.drop_last(), used, x);
    }
}

/// Marking position `j` as matched moves it from the unmatched to the
/// matched count of every class it belongs to.
proof fn lemma_count_picked_flip<T: PartialEq>(b: Seq<T>, used: Seq<bool>, j: int, x: T)
    requires
        0 <= j < b.len() <= used.len(),
        !used[j],
    ensures
        count_picked_like(b, used.update(j, true), true, x) == count_picked_like(b, used, true, x)
            + if x.eq_spec(&b[j]) {
            1nat
        } else {
            0nat
        },
    decreases b.len(),
{
    let u2 = used.update(j, true);
    if j == b.len() - 1 {
        lemma_count_picked_frame(b.drop_last(), used, u2, true, x);
    } else {
        lemma_count_picked_flip(b.drop_last(), used, j, x);
    }
}

/// With no unmatched position like `x`, the unmatched count of `x` is zero.
proof fn lemma_count_picked_absent<T: PartialEq>(b: Seq<T>, used: Seq<bool>, flag: bool, x: T)
    requires
        forall|k: int| 0 <= k < b.len() && used[k] == flag ==> !x.eq_spec(&b[k]),
    ensures
        count_picked_like(b, used, flag, x) == 0,
    decreases b.len(),
{
    if b.len() > 0 {
        lemma_count_picked_absent(b.drop_last(), used, flag, x);
    }
}

/// Counting over a prefix one longer adds the next element.
proof fn lemma_count_like_take<T: PartialEq>(s: Seq<T>, i: int, x: T)
    requires
        0 <= i < s.len(),
    ensures
        count_like(s.take(i + 1), x) == count_like(s.take(i), x) + if x.eq_spec(&s[i]) {
            1nat
        } else {
            0nat
        },
{
    assert(s.take(i + 1).drop_last() =~= s.take(i));
}

/// A prefix holds no more elements like `x` than the whole sequence.
proof fn lemma_count_like_prefix<T: PartialEq>(s: Seq<T>, m: int, x: T)
    requires
        0 <= m <= s.len(),
    ensures
        count_like(s.take(m), x) <= count_like(s, x),
    decreases s.len(),
{
    if m == s.len() {
        assert(s.take(m) =~= s);
    } else {
        assert(s.drop_last().take(m) =~= s.take(m));
        lemma_count_like_prefix(s.drop_last(), m, x);
    }
}

/// The position of the first unmatched element of `b` equal to `item`.
fn first_unmatched<T: PartialEq>(b: &Vec<T>, used: &Vec<bool>, item: &T) -> (r: Option<usize>)
    requires
        used@.len() == b@.len(),
    ensures
        match r {
            Some(j) => j < b@.len() && !used@[j as int] && (T::obeys_eq_spec() ==> item.eq_spec(
                &b@[j as int],
            )),
            None => T::obeys_eq_spec() ==> forall|k: int|
                0 <= k < b@.len() && !used@[k] ==> !item.eq_spec(&b@[k]),
        },
{
    let n = b.len();
    let mut j: usize = 0;
    while j < n
        invariant
            n == b@.len(),
            used@.len() == n,
            j <= n,
            T::obeys_eq_spec() ==> forall|k: int|
                0 <= k < j && !used@[k] ==> !item.eq_spec(&b@[k]),
        decreases n - j,
    {
        if !used[j] && *item == b[j] {
            return Some(j);
        }
        j = j + 1;
    }
    None
}

/// Returns `true` when `a` and `b` contain the same multiset of elements.
///
/// Stated for element types whose `==` is equality of values, as the
/// integer types' is (the same multiset), and for element types whose `==`
/// is an equivalence relation (the same number of elements of each class);
/// for every element type, `true` implies equal lengths.
pub fn vec_eq_unordered<T: PartialEq>(a: &Vec<T>, b: &Vec<T>) -> (r: bool)
    ensures
        obeys_concrete_eq::<T>() ==> (r <==> a@.to_multiset() == b@.to_multiset()),
        eq_is_equivalence::<T>() ==> (r <==> same_classes(a@, b@)),
        r ==> a@.len() == b@.len(),
{
    broadcast use vstd::seq_lib::group_to_multiset_ensures;

    if a.len() != b.len() {
        proof {
            assert(a@.to_multiset().len() != b@.to_multiset().len());
        }
        return false;
    }
    let n = a.len();
    let mut used: Vec<bool> = Vec::new();
    let mut k: usize = 0;
    while k < n
        invariant
            k <= n,
            used@.len() == k,
            forall|m: int| 0 <= m < k ==> !used@[m],
        decreases n - k,
    {
        used.push(false);
        k = k + 1;
    }
    proof {
        reveal(obeys_concrete_eq);
        lemma_picked_split(b@, used@);
        assert(picked(b@, used@, true) =~= Multiset::empty()) by {
            lemma_picked_none_used(b@, used@);
        }
        assert forall|x: T| #[trigger] count_picked_like(b@, used@, true, x) == count_like(
            a@.take(0),
            x,
        ) by {
            lemma_count_picked_absent(b@, used@, true, x);
        }
    }
    let mut i: usize = 0;
    while i < n
        invariant
            n == a@.len(),
            n == b@.len(),
            used@.len() == n,
            i <= n,
            picked(b@, used@, true).len() == i,
            obeys_concrete_eq::<T>() ==> picked(b@, used@, true) =~= a@.take(i as int).to_multiset(),
            eq_is_equivalence::<T>() ==> forall|x: T| #[trigger]
                count_picked_like(b@, used@, true, x) == count_like(a@.take(i as int), x),
        decreases n - i,
    {
        match first_unmatched(b, &used, &a[i]) {
            Some(j) => {
                proof {
                    reveal(obeys_concrete_eq);
                    lemma_picked_flip(b@, used@, j as int);
                    assert(a@.take(i + 1) =~= a@.take(i as int).push(a@[i as int]));
                    if obeys_concrete_eq::<T>() {
                        assert(a@[i as int].eq_spec(&b@[j as int]));
                        assert(a@[i as int] == b@[j as int]);
                        vstd::seq_lib::to_multiset_build(a@.take(i as int), a@[i as int]);
                        assert(a@.take(i + 1).to_multiset() =~= a@.take(i as int).to_multiset().insert(
                            a@[i as int],
                        ));
                    }
                    if eq_is_equivalence::<T>() {
                        reveal(obeys_eq_spec_properties);
                        let ai = a@[i as int];
                        let bj = b@[j as int];
                        assert(ai.eq_spec(&bj));
                        assert forall|x: T| #[trigger]
                            count_picked_like(b@, used@.update(j as int, true), true, x)
                                == count_like(a@.take(i + 1), x) by {
                            lemma_count_picked_flip(b@, used@, j as int, x);
                            lemma_count_like_take(a@, i as int, x);
                            if x.eq_spec(&bj) {
                                assert(bj.eq_spec(&ai));
                                assert(x.eq_spec(&ai));
                            }
                            if x.eq_spec(&ai) {
                                assert(x.eq_spec(&bj));
                            }
                        }
                    }
                }
                used.set(j, true);
            },
            None => {
                proof {
                    reveal(obeys_concrete_eq);
                    if obeys_concrete_eq::<T>() {
                        let x = a@[i as int];
                        assert forall|k: int| 0 <= k < b@.len() && !used@[k] implies b@[k] != x by {
                            assert(!a@[i as int].eq_spec(&b@[k]));
                        }
                        lemma_picked_absent(b@, used@, x);
                        lemma_picked_split(b@, used@);
                        assert(a@ =~= a@.take(i as int) + a@.skip(i as int));
                        vstd::seq_lib::lemma_multiset_commutative(
                            a@.take(i as int),
                            a@.skip(i as int),
                        );
                        assert(a@.skip(i as int)[0] == x);
                        assert(a@.skip(i as int).contains(x));
                        a@.skip(i as int).to_multiset_ensures();
                        assert(a@.skip(i as int).to_multiset().count(x) > 0);
                        assert(a@.to_multiset().count(x) == a@.take(i as int).to_multiset().count(x)
                            + a@.skip(i as int).to_multiset().count(x));
                        assert(b@.to_multiset().count(x) == picked(b@, used@, true).count(x) + picked(
                            b@,
                            used@,
                            false,
                        ).count(x));
                        assert(a@.to_multiset().count(x) > b@.to_multiset().count(x));
                    }
                    if eq_is_equivalence::<T>() {
                        let x = a@[i as int];
                        assert(x.eq_spec(&x));
                        lemma_count_picked_absent(b@, used@, false, x);
                        lemma_count_picked_split(b@, used@, x);
                        lemma_count_like_take(a@, i as int, x);
                        lemma_count_like_prefix(a@, i + 1, x);
                        assert(count_like(a@, x) != count_like(b@, x));
                    }
                }
                return false;
            },
        }
        i = i + 1;
    }
    proof {
        reveal(obeys_concrete_eq);
        lemma_picked_split(b@, used@);
        b@.to_multiset_ensures();
        assert(b@.to_multiset().len() == n);
        assert(picked(b@, used@, false).len() == 0);
        assert(picked(b@, used@, false) =~= Multiset::empty());
        assert(a@.take(n as int) =~= a@);
        if obeys_concrete_eq::<T>() {
            a@.to_multiset_ensures();
            assert(a@.to_multiset() =~= b@.to_multiset());
        }
        if eq_is_equivalence::<T>() {
            assert forall|k: int| 0 <= k < n implies used@[k] by {
                if !used@[k] {
                    lemma_picked_flip(b@, used@, k);
                }
            }
            assert forall|x: T| #[trigger] count_like(a@, x) == count_like(b@, x) by {
                lemma_count_picked_absent(b@, used@, false, x);
                lemma_count_picked_split(b@, used@, x);
            }
        }
    }
    true
}

/// With no position matched, nothing is matched.
proof fn lemma_picked_none_used<T>(b: Seq<T>, used: Seq<bool>)
    requires
        forall|k: int| 0 <= k < b.len() ==> !used[k],
    ensures
        picked(b, used, true) =~= Multiset::empty(),
    decreases b.len(),
{
    if b.len() > 0 {
        lemma_picked_none_used(b.drop_last(), used);
    }
}

/// Two vectors do not hold the same multiset of elements.
#[derive(Debug, Clone, Copy, PartialEq, Eq, Structural)]
pub struct MultisetMismatch;

/// Checks that `a` and `b` hold the same multiset of elements, ignoring
/// order.
pub fn assert_vec_eq_unordered<T: PartialEq>(a: &Vec<T>, b: &Vec<T>) -> (r: Result<(), MultisetMismatch>)
    ensures
        obeys_concrete_eq::<T>() ==> (r is Ok <==> a@.to_multiset() == b@.to_multiset()),
        eq_is_equivalence::<T>() ==> (r is Ok <==> same_classes(a@, b@)),
        r is Ok ==> a@.len() == b@.len(),
{
    if vec_eq_unordered(a, b) {
        Ok(())
    } else {
        Err(MultisetMismatch)
    }
}

/// Law: for element types whose `==` is an equivalence relation, unordered
/// equality is itself an equivalence: every vector equals itself, the order
/// of the two arguments does not matter, and two vectors equal to a third
/// are equal to each other.
pub proof fn law_unordered_equality_is_an_equivalence<T: PartialEq>(a: Seq<T>, b: Seq<T>, c: Seq<T>)
    requires
        eq_is_equivalence::<T>(),
    ensures
        same_classes(a, a),
        same_classes(a, b) == same_classes(b, a),
        same_classes(a, b) && same_classes(b, c) ==> same_classes(a, c),
{
    if same_classes(a, b) && same_classes(b, c) {
        assert forall|x: T| #[trigger] count_like(a, x) == count_like(c, x) by {
            assert(count_like(a, x) == count_like(b, x));
            assert(count_like(b, x) == count_like(c, x));
        }
    }
}

} // verus!
