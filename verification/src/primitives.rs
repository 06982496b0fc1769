//! Plain values that every other module is written over.
use vstd::prelude::*;

verus! {

/// The twenty bytes of an account address.
pub type AccountAddress = [u8; 20];

/// A thirty-two byte word: a hash, a storage key or a storage value.
pub type Word = [u8; 32];

/// The word of thirty-two zero bytes, which a storage slot reads that was never written.
pub const ZERO_WORD: Word = [
    0, 0, 0, 0, 0, 0, 0, 0, 0, 0, 0, 0, 0, 0, 0, 0, 0, 0, 0, 0, 0, 0, 0, 0, 0, 0, 0, 0, 0, 0, 0, 0,
];

/// Whether two words are equal.
pub(crate) fn same_word(a: &Word, b: &Word) -> (r: bool)
    ensures
        r == (*a == *b),
{
    let mut i: usize = 0;
    while i < 32
        invariant
            i <= 32,
            forall|j: int| 0 <= j < i ==> a@[j] == b@[j],
        decreases 32 - i,
    {
        if a[i] != b[i] {
            return false;
        }
        i = i + 1;
    }
    assert(*a =~= *b);
    true
}

/// A 256-bit unsigned integer, least significant limb first.
#[derive(Clone, Copy, Debug, PartialEq, Eq)]
pub struct U256 {
    pub limbs: [u64; 4],
}

/// Two to the power of sixty-four: the weight of a limb over the one before it.
pub open spec fn limb_base() -> nat {
    0x1_0000_0000_0000_0000nat
}

/// Two to the power of 256: one more than the largest `U256`.
pub open spec fn u256_modulus() -> nat {
    limb_base() * limb_base() * limb_base() * limb_base()
}

impl View for U256 {
    type V = nat;

    /// The number that the limbs denote.
    open spec fn view(&self) -> nat {
        self.limbs@[0] as nat + limb_base() * (self.limbs@[1] as nat + limb_base() * (
        self.limbs@[2] as nat + limb_base() * (self.limbs@[3] as nat)))
    }
}

impl U256 {
    /// Widens a 64-bit number.
    pub fn from_u64(value: u64) -> (r: U256)
        ensures
            r@ == value,
            r == u256_of(value),
    {
        let r = U256 { limbs: [value, 0, 0, 0] };
        assert(r.limbs@ =~= u256_of(value).limbs@);
        r
    }
}

/// The `U256` whose lowest limb is `value` and whose other limbs are zero.
pub open spec fn u256_of(value: u64) -> U256 {
    U256 { limbs: [value, 0, 0, 0] }
}

/// Sum of two 256-bit numbers, computed by `alloy_primitives::U256::wrapping_add`, which is what
/// `+` on that type calls. The contract claims that the sum is reduced modulo two to the power of
/// 256 and that no operand makes the call panic.
#[verifier::external_body]
pub(crate) fn wrapping_add(a: U256, b: U256) -> (r: U256)
    ensures
        r@ == (a@ + b@) % u256_modulus(),
{
    let left = alloy_primitives::U256::from_limbs(a.limbs);
    let right = alloy_primitives::U256::from_limbs(b.limbs);
    U256 { limbs: left.wrapping_add(right).into_limbs() }
}

/// A `U256` is the number that its limbs denote, the first limb counting least; no other `U256` is
/// the same number.
pub proof fn law_limbs_denote_the_number(a: U256, b: U256)
    ensures
        a@ == a.limbs@[0] + 0x1_0000_0000_0000_0000 * a.limbs@[1]
            + 0x1_0000_0000_0000_0000_0000_0000_0000_0000 * a.limbs@[2]
            + 0x1_0000_0000_0000_0000_0000_0000_0000_0000_0000_0000_0000_0000 * a.limbs@[3],
        a@ < 0x1_0000_0000_0000_0000_0000_0000_0000_0000_0000_0000_0000_0000_0000_0000_0000_0000,
        u256_modulus()
            == 0x1_0000_0000_0000_0000_0000_0000_0000_0000_0000_0000_0000_0000_0000_0000_0000_0000,
        a@ == b@ ==> a == b,
{
    if a@ == b@ {
        assert(a.limbs@ =~= b.limbs@);
        assert(a.limbs =~= b.limbs);
    }
}

/// Widening keeps the number: it stands in the first limb alone.
pub proof fn law_widening_keeps_the_number(value: u64, r: U256)
    requires
        call_ensures(U256::from_u64, (value,), r),
    ensures
        r@ == value,
        r.limbs@ == seq![value, 0u64, 0u64, 0u64],
{
}

} // verus!
