//! The order of identifiers: the order of their bytes, first byte first.

use std::cmp::Ordering;
use vstd::prelude::*;
use vstd::std_specs::cmp::PartialOrdSpecImpl;

use crate::guid::ShortGuid;

verus! {

/// Whether `a` and `b` hold the same bytes at every position before `i`.
pub open spec fn agree_before(a: Seq<u8>, b: Seq<u8>, i: int) -> bool {
    forall|j: int| 0 <= j < i ==> a[j] == b[j]
}

/// Whether `a` comes before `b`: at the first position where they differ,
/// `a` holds the smaller byte.
pub open spec fn precedes(a: Seq<u8>, b: Seq<u8>) -> bool {
    exists|i: int| 0 <= i < 16 && #[trigger] agree_before(a, b, i) && a[i] < b[i]
}

/// How `a` stands to `b` in the order of their bytes.
pub open spec fn byte_order(a: Seq<u8>, b: Seq<u8>) -> Ordering {
    if a == b {
        Ordering::Equal
    } else if precedes(a, b) {
        Ordering::Less
    } else {
        Ordering::Greater
    }
}

/// Of two sequences, at most one comes before the other, and then they
/// differ.
pub proof fn precedes_is_asymmetric(a: Seq<u8>, b: Seq<u8>)
    requires
        precedes(a, b),
    ensures
        !precedes(b, a),
        a != b,
{
    let i = choose|i: int| 0 <= i < 16 && #[trigger] agree_before(a, b, i) && a[i] < b[i];
    if precedes(b, a) {
        let j = choose|j: int| 0 <= j < 16 && #[trigger] agree_before(b, a, j) && b[j] < a[j];
        if i < j {
            assert(b[i] == a[i]);
        } else if j < i {
            assert(a[j] == b[j]);
        }
    }
}

/// Two different sequences of sixteen bytes are ordered one way or the other.
pub proof fn precedes_is_total(a: Seq<u8>, b: Seq<u8>)
    requires
        a.len() == 16,
        b.len() == 16,
        a != b,
    ensures
        precedes(a, b) || precedes(b, a),
{
    first_difference_decides(a, b, 0);
}

/// If `a` and `b` agree before `i` and are not equal, the first position at
/// or after `i` where they differ orders them.
proof fn first_difference_decides(a: Seq<u8>, b: Seq<u8>, i: int)
    requires
        a.len() == 16,
        b.len() == 16,
        0 <= i <= 16,
        agree_before(a, b, i),
        a != b,
    ensures
        precedes(a, b) || precedes(b, a),
    decreases 16 - i,
{
    if i == 16 {
        assert(a =~= b);
    } else if a[i] < b[i] {
        assert(agree_before(a, b, i));
    } else if b[i] < a[i] {
        assert(agree_before(b, a, i));
    } else {
        first_difference_decides(a, b, i + 1);
    }
}

/// The order is transitive.
pub proof fn precedes_is_transitive(a: Seq<u8>, b: Seq<u8>, c: Seq<u8>)
    requires
        precedes(a, b),
        precedes(b, c),
    ensures
        precedes(a, c),
{
    let i = choose|i: int| 0 <= i < 16 && #[trigger] agree_before(a, b, i) && a[i] < b[i];
    let j = choose|j: int| 0 <= j < 16 && #[trigger] agree_before(b, c, j) && b[j] < c[j];
    if i <= j {
        assert(agree_before(a, c, i));
        assert(a[i] < c[i]);
    } else {
        assert(agree_before(a, c, j));
        assert(a[j] < c[j]);
    }
}

/// Two sequences are ordered as equal exactly if they are equal.
pub proof fn equal_in_order_iff_equal(a: Seq<u8>, b: Seq<u8>)
    ensures
        byte_order(a, b) == Ordering::Equal <==> a == b,
        byte_order(a, b) == Ordering::Less <==> precedes(a, b),
{
    if precedes(a, b) {
        precedes_is_asymmetric(a, b);
    }
}

/// Whether `i` is the first position at which `a` and `b` differ, or 16 if
/// they differ nowhere.
spec fn first_difference_is(a: Seq<u8>, b: Seq<u8>, i: usize) -> bool {
    &&& i <= 16
    &&& agree_before(a, b, i as int)
    &&& i < 16 ==> a[i as int] != b[i as int]
}

/// The first position at which the two arrays differ, or 16.
fn first_difference(a: &[u8; 16], b: &[u8; 16]) -> (i: usize)
    ensures
        first_difference_is(a@, b@, i),
{
    let mut i: usize = 0;
    while i < 16
        invariant
            i <= 16,
            agree_before(a@, b@, i as int),
        decreases 16 - i,
    {
        if a[i] != b[i] {
            return i;
        }
        i += 1;
    }
    i
}

/// The byte at the first difference orders the two sequences; without a
/// difference they are equal.
proof fn first_difference_orders(a: Seq<u8>, b: Seq<u8>, i: usize)
    requires
        a.len() == 16,
        b.len() == 16,
        first_difference_is(a, b, i),
    ensures
        i == 16 ==> a == b,
        i < 16 ==> a != b && (precedes(a, b) <==> a[i as int] < b[i as int]),
{
    if i == 16 {
        assert(a =~= b);
    } else if a[i as int] < b[i as int] {
        assert(agree_before(a, b, i as int));
    } else {
        assert(agree_before(b, a, i as int));
        assert(precedes(b, a));
        precedes_is_asymmetric(b, a);
    }
}

impl PartialOrd for ShortGuid {
    /// Compares the bytes, first byte first.
    fn partial_cmp(&self, other: &ShortGuid) -> (order: Option<Ordering>) {
        let a = self.as_bytes();
        let b = other.as_bytes();
        let i = first_difference(a, b);
        proof {
            first_difference_orders(a@, b@, i);
        }
        if i == 16 {
            Some(Ordering::Equal)
        } else if a[i] < b[i] {
            Some(Ordering::Less)
        } else {
            Some(Ordering::Greater)
        }
    }
}

impl PartialOrdSpecImpl for ShortGuid {
    open spec fn obeys_partial_cmp_spec() -> bool {
        true
    }

    open spec fn partial_cmp_spec(&self, other: &ShortGuid) -> Option<Ordering> {
        Some(byte_order(self@, other@))
    }
}

} // verus!
