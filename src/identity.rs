//! Account identities and their byte-wise order.

use vstd::prelude::*;

verus! {

/// An account identity: 32 bytes, ordered byte by byte from the first.
#[derive(Clone, Copy, Debug, PartialEq, Eq, Hash)]
pub struct Identity(pub [u8; 32]);

/// `a` and `b` agree before byte `k`, and at `k` the byte of `a` is smaller.
pub open spec fn differs_first_at(a: Seq<u8>, b: Seq<u8>, k: int) -> bool {
    &&& 0 <= k < a.len()
    &&& k < b.len()
    &&& a[k] < b[k]
    &&& forall|j: int| 0 <= j < k ==> a[j] == b[j]
}

/// The strict order of identities: the first byte where they differ decides.
pub open spec fn id_lt(a: Identity, b: Identity) -> bool {
    exists|k: int| #[trigger] differs_first_at(a.0@, b.0@, k)
}

/// The identity whose bytes are all zero: "no account".
pub open spec fn is_null(a: Identity) -> bool {
    forall|i: int| 0 <= i < 32 ==> a.0@[i] == 0
}

/// The identity whose bytes are all zero.
pub open spec fn null_identity() -> Identity {
    Identity(vstd::array::spec_array_fill_for_copy_type::<u8, 32>(0u8))
}

/// No identity sorts before itself, and two identities are never each
/// before the other.
pub proof fn lemma_lt_asymmetric(a: Identity, b: Identity)
    requires
        id_lt(a, b),
    ensures
        !id_lt(b, a),
        a != b,
{
    let k1 = choose|k: int| differs_first_at(a.0@, b.0@, k);
    if id_lt(b, a) {
        let k2 = choose|k: int| differs_first_at(b.0@, a.0@, k);
        if k1 < k2 {
            assert(b.0@[k1] == a.0@[k1]);
        } else if k2 < k1 {
            assert(a.0@[k2] == b.0@[k2]);
        }
    }
}

/// The order of identities is transitive.
pub proof fn lemma_lt_transitive(a: Identity, b: Identity, c: Identity)
    requires
        id_lt(a, b),
        id_lt(b, c),
    ensures
        id_lt(a, c),
{
    let k1 = choose|k: int| differs_first_at(a.0@, b.0@, k);
    let k2 = choose|k: int| differs_first_at(b.0@, c.0@, k);
    let k = if k1 <= k2 {
        k1
    } else {
        k2
    };
    assert(differs_first_at(a.0@, c.0@, k));
}

impl Identity {
    /// The null identity, all bytes zero.
    pub fn zero() -> (r: Identity)
        ensures
            r == null_identity(),
            is_null(r),
    {
        Identity([0u8; 32])
    }

    /// Whether every byte is zero.
    pub fn is_zero(&self) -> (r: bool)
        ensures
            r == is_null(*self),
    {
        let mut i: usize = 0;
        while i < 32
            invariant
                0 <= i <= 32,
                forall|j: int| 0 <= j < i ==> self.0@[j] == 0,
            decreases 32 - i,
        {
            if self.0[i] != 0 {
                return false;
            }
            i = i + 1;
        }
        true
    }

    /// Whether the two identities are the same account.
    pub fn same_as(&self, other: &Identity) -> (r: bool)
        ensures
            r == (*self == *other),
    {
        match self.compare(other) {
            core::cmp::Ordering::Equal => true,
            _ => false,
        }
    }

    /// Compares two identities byte by byte.
    pub fn compare(&self, other: &Identity) -> (r: core::cmp::Ordering)
        ensures
            (r == core::cmp::Ordering::Less) == id_lt(*self, *other),
            (r == core::cmp::Ordering::Equal) == (*self == *other),
            (r == core::cmp::Ordering::Greater) == id_lt(*other, *self),
    {
        let mut i: usize = 0;
        while i < 32
            invariant
                0 <= i <= 32,
                forall|j: int| 0 <= j < i ==> self.0@[j] == other.0@[j],
            decreases 32 - i,
        {
            if self.0[i] < other.0[i] {
                assert(differs_first_at(self.0@, other.0@, i as int));
                proof {
                    lemma_lt_asymmetric(*self, *other);
                }
                return core::cmp::Ordering::Less;
            }
            if self.0[i] > other.0[i] {
                assert(differs_first_at(other.0@, self.0@, i as int));
                proof {
                    lemma_lt_asymmetric(*other, *self);
                }
                return core::cmp::Ordering::Greater;
            }
            i = i + 1;
        }
        assert(self.0 =~= other.0);
        core::cmp::Ordering::Equal
    }
}

} // verus!
