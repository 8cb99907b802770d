//! Account addresses: 32 opaque bytes that name an investor, an admin, a bot,
//! a token or a program.

use vstd::prelude::*;
use vstd::std_specs::cmp::PartialEqSpecImpl;
use crate::solana::{decoded_pubkey, pubkey_from_str};

verus! {

/// A 32-byte account address.
///
/// Two addresses are equal exactly when their bytes are equal; the all-zero
/// address stands for "no address".
#[derive(Clone, Copy, Debug)]
pub struct Address {
    pub bytes: [u8; 32],
}

impl View for Address {
    type V = Seq<u8>;

    open spec fn view(&self) -> Seq<u8> {
        self.bytes@
    }
}

/// The bytes of the null address: 32 zeros.
pub open spec fn null_bytes() -> Seq<u8> {
    Seq::new(32, |i: int| 0u8)
}

/// `a` comes before `b` in the byte-wise lexicographic order: at the first
/// position where the two differ, `a` holds the smaller byte.
pub open spec fn address_lt(a: Address, b: Address) -> bool {
    exists|k: int|
        0 <= k < 32 && #[trigger] a@[k] < b@[k] && forall|j: int| 0 <= j < k ==> a@[j] == b@[j]
}

/// Two addresses with the same bytes are the same address.
pub proof fn lemma_address_ext(a: Address, b: Address)
    requires
        forall|i: int| 0 <= i < 32 ==> a@[i] == b@[i],
    ensures
        a == b,
{
    assert(a@ == a.bytes@ && b@ == b.bytes@);
    assert(a.bytes =~= b.bytes);
}

/// Two addresses that agree on their first `k` bytes are equal, or one comes
/// before the other.
proof fn lemma_order_total_from(a: Address, b: Address, k: int)
    requires
        0 <= k <= 32,
        forall|j: int| 0 <= j < k ==> a@[j] == b@[j],
    ensures
        a == b || address_lt(a, b) || address_lt(b, a),
    decreases 32 - k,
{
    if k == 32 {
        lemma_address_ext(a, b);
    } else if a@[k] < b@[k] {
    } else if b@[k] < a@[k] {
        assert forall|j: int| 0 <= j < k implies b@[j] == a@[j] by {}
    } else {
        lemma_order_total_from(a, b, k + 1);
    }
}

/// The order on addresses is a strict total order: of two different
/// addresses exactly one comes before the other, and none comes before
/// itself.
pub proof fn lemma_address_order(a: Address, b: Address)
    ensures
        a == b || address_lt(a, b) || address_lt(b, a),
        !(address_lt(a, b) && address_lt(b, a)),
        !address_lt(a, a),
{
    lemma_order_total_from(a, b, 0);
    if address_lt(a, b) && address_lt(b, a) {
        let k = choose|k: int|
            0 <= k < 32 && #[trigger] a@[k] < b@[k] && forall|j: int| 0 <= j < k ==> a@[j] == b@[j];
        let m = choose|m: int|
            0 <= m < 32 && #[trigger] b@[m] < a@[m] && forall|j: int| 0 <= j < m ==> b@[j] == a@[j];
        if k < m {
            assert(b@[k] == a@[k]);
        } else if m < k {
            assert(a@[m] == b@[m]);
        }
    }
}

impl Address {
    /// Wraps 32 raw bytes.
    pub fn new(bytes: [u8; 32]) -> (address: Address)
        ensures
            address.bytes == bytes,
    {
        Address { bytes }
    }

    /// Decodes a base58 address. `None` for a text that is not the base58
    /// form of exactly 32 bytes.
    pub fn from_base58(text: &str) -> (parsed: Option<Address>)
        ensures
            parsed matches Some(address) ==> decoded_pubkey(text@) == Some(address@),
            parsed is None ==> decoded_pubkey(text@) is None,
    {
        match pubkey_from_str(text) {
            Some(bytes) => Some(Address { bytes }),
            None => None,
        }
    }

    /// Whether every byte is zero: the address that stands for "no address".
    pub open spec fn spec_is_null(&self) -> bool {
        forall|i: int| 0 <= i < 32 ==> self@[i] == 0
    }

    /// Whether this is the all-zero address.
    #[verifier::when_used_as_spec(spec_is_null)]
    pub fn is_null(&self) -> (null: bool)
        ensures
            null == self.spec_is_null(),
    {
        let mut i: usize = 0;
        while i < 32
            invariant
                i <= 32,
                forall|j: int| 0 <= j < i ==> self@[j] == 0,
            decreases 32 - i,
        {
            if self.bytes[i] != 0 {
                assert(self@[i as int] != 0);
                return false;
            }
            i += 1;
        }
        true
    }

    /// Whether `self` comes strictly before `other` in lexicographic byte order.
    pub fn precedes(&self, other: &Address) -> (before: bool)
        ensures
            before == address_lt(*self, *other),
    {
        let mut i: usize = 0;
        while i < 32
            invariant
                i <= 32,
                forall|j: int| 0 <= j < i ==> self@[j] == other@[j],
            decreases 32 - i,
        {
            if self.bytes[i] < other.bytes[i] {
                assert(self@[i as int] < other@[i as int]);
                return true;
            }
            if self.bytes[i] > other.bytes[i] {
                assert(self@[i as int] > other@[i as int]);
                return false;
            }
            i += 1;
        }
        false
    }
}

impl Default for Address {
    fn default() -> (address: Address)
        ensures
            address.is_null(),
    {
        Address { bytes: [0u8; 32] }
    }
}

impl PartialEq for Address {
    fn eq(&self, other: &Address) -> (same: bool) {
        let mut i: usize = 0;
        while i < 32
            invariant
                i <= 32,
                forall|j: int| 0 <= j < i ==> self@[j] == other@[j],
            decreases 32 - i,
        {
            if self.bytes[i] != other.bytes[i] {
                assert(self@[i as int] != other@[i as int]);
                return false;
            }
            i += 1;
        }
        proof {
            lemma_address_ext(*self, *other);
        }
        true
    }
}

impl Eq for Address {

}

impl PartialEqSpecImpl for Address {
    open spec fn obeys_eq_spec() -> bool {
        true
    }

    open spec fn eq_spec(&self, other: &Address) -> bool {
        *self == *other
    }
}

} // verus!
