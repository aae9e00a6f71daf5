//! The total order on single-precision values, and a sortedness test.

use crate::float::bits_total_key;
use crate::float::total_key;
use core::cmp::Ordering;
use vstd::prelude::*;
use vstd::std_specs::cmp::PartialOrdSpec;
use vstd::std_specs::cmp::PartialOrdSpecImpl;

verus! {

/// A single-precision value, held by its bit pattern, that is ordered by the
/// IEEE 754 total order: every pattern has its place, NaNs included, and two
/// values are equal only if their patterns are.
#[derive(Clone, Copy, Debug, PartialEq, Eq, Structural)]
pub struct TotalF32(pub u32);

impl TotalF32 {
    /// How `self` stands to `other` in the total order.
    pub open spec fn order(&self, other: &TotalF32) -> Ordering {
        if total_key(self.0) < total_key(other.0) {
            Ordering::Less
        } else if total_key(self.0) == total_key(other.0) {
            Ordering::Equal
        } else {
            Ordering::Greater
        }
    }

    /// Compares two values in the total order.
    pub fn total_cmp(&self, other: &TotalF32) -> (r: Ordering)
        ensures
            r == self.order(other),
            r == Ordering::Equal <==> self.0 == other.0,
    {
        let a: i64 = bits_total_key(self.0);
        let b: i64 = bits_total_key(other.0);
        if a < b {
            Ordering::Less
        } else if a == b {
            Ordering::Equal
        } else {
            Ordering::Greater
        }
    }
}

impl PartialOrd for TotalF32 {
    fn partial_cmp(&self, other: &TotalF32) -> (r: Option<Ordering>) {
        Some(self.total_cmp(other))
    }
}

impl PartialOrdSpecImpl for TotalF32 {
    open spec fn obeys_partial_cmp_spec() -> bool {
        true
    }

    open spec fn partial_cmp_spec(&self, other: &TotalF32) -> Option<Ordering> {
        Some(self.order(other))
    }
}

/// Whether `a` may stand directly before `b` in a sorted sequence: `a` is not
/// greater than `b`.
pub open spec fn in_order<T: PartialOrd>(a: &T, b: &T) -> bool {
    a.partial_cmp_spec(b) != Some(Ordering::Greater)
}

/// Whether the element of `s` at `i` may stand before the one that follows it.
pub open spec fn step_in_order<T: PartialOrd>(s: Seq<T>, i: int) -> bool {
    in_order(&s[i], &s[i + 1])
}

/// Whether no element of `s` is greater than the one that follows it.
pub open spec fn sorted<T: PartialOrd>(s: Seq<T>) -> bool {
    forall|i: int| 0 <= i && i + 1 < s.len() ==> #[trigger] step_in_order(s, i)
}

/// Whether `what` is in ascending order. An empty sequence and a sequence of
/// one element are sorted.
pub fn is_sorted<T: PartialOrd>(what: &[T]) -> (r: bool)
    ensures
        T::obeys_partial_cmp_spec() ==> r == sorted(what@),
{
    let n: usize = what.len();
    if n == 0 {
        return true;
    }
    let mut i: usize = 1;
    while i < n
        invariant
            1 <= i <= n,
            n == what@.len(),
            T::obeys_partial_cmp_spec() ==> forall|j: int|
                0 <= j && j + 1 < i ==> #[trigger] step_in_order(what@, j),
        decreases n - i,
    {
        if what[i - 1] > what[i] {
            proof {
                if T::obeys_partial_cmp_spec() {
                    assert(!step_in_order(what@, i - 1));
                }
            }
            return false;
        }
        i += 1;
    }
    true
}

} // verus!
