//! Plain values that state reads and block environments are made of.

use vstd::prelude::*;

verus! {

/// The number of a block.
pub type BlockNumber = u64;

/// The key under which a provider looks up a storage slot.
pub type StorageKey = B256;

/// The value of a storage slot.
pub type StorageValue = U256;

/// A 20-byte account address.
#[derive(Debug, Clone, Copy, PartialEq, Eq, Hash)]
pub struct Address(pub [u8; 20]);

impl View for Address {
    type V = Seq<u8>;

    open spec fn view(&self) -> Seq<u8> {
        self.0@
    }
}

/// A 32-byte word: a hash, a storage key or a randomness value.
#[derive(Debug, Clone, Copy, Eq, Hash)]
pub struct B256(pub [u8; 32]);

impl View for B256 {
    type V = Seq<u8>;

    open spec fn view(&self) -> Seq<u8> {
        self.0@
    }
}

impl PartialEq for B256 {
    fn eq(&self, other: &Self) -> (same: bool) {
        for i in 0..32
            invariant
                forall|j: int| 0 <= j < i ==> self@[j] == other@[j],
        {
            if self.0[i] != other.0[i] {
                return false;
            }
        }
        assert(self@ =~= other@);
        true
    }
}

impl vstd::std_specs::cmp::PartialEqSpecImpl for B256 {
    open spec fn obeys_eq_spec() -> bool {
        true
    }

    open spec fn eq_spec(&self, other: &Self) -> bool {
        self@ == other@
    }
}

impl B256 {
    /// The word whose bytes are all zero.
    pub open spec fn spec_zero() -> Self {
        B256(vstd::array::spec_array_fill_for_copy_type::<u8, 32>(0u8))
    }

    /// The word whose bytes are all zero.
    pub fn zero() -> (word: Self)
        ensures
            word == Self::spec_zero(),
            word@ == Seq::new(32, |i: int| 0u8),
    {
        let word = B256([0u8; 32]);
        assert(word@ =~= Seq::new(32, |i: int| 0u8));
        word
    }
}

/// How many values one limb of a [`U256`] has.
pub open spec fn limb() -> nat {
    0x1_0000_0000_0000_0000
}

/// A 256-bit unsigned integer in four 64-bit limbs, least significant first.
#[derive(Debug, Clone, Copy, PartialEq, Eq, Hash, Structural)]
pub struct U256 {
    /// Bits 0 to 63.
    pub l0: u64,
    /// Bits 64 to 127.
    pub l1: u64,
    /// Bits 128 to 191.
    pub l2: u64,
    /// Bits 192 to 255.
    pub l3: u64,
}

impl View for U256 {
    type V = nat;

    /// The integer that the limbs stand for.
    open spec fn view(&self) -> nat {
        self.l0 as nat + limb() * (self.l1 as nat + limb() * (self.l2 as nat + limb()
            * self.l3 as nat))
    }
}

impl U256 {
    /// The integer in 64 bits, if it fits.
    pub fn to_u64(self) -> (narrow: Option<u64>)
        ensures
            narrow is Some <==> self@ <= u64::MAX,
            narrow matches Some(n) ==> n == self@,
    {
        if self.l1 == 0 && self.l2 == 0 && self.l3 == 0 {
            Some(self.l0)
        } else {
            None
        }
    }
}

impl From<u64> for U256 {
    fn from(value: u64) -> Self {
        U256 { l0: value, l1: 0, l2: 0, l3: 0 }
    }
}

impl vstd::std_specs::convert::FromSpecImpl<u64> for U256 {
    open spec fn obeys_from_spec() -> bool {
        true
    }

    open spec fn from_spec(value: u64) -> Self {
        U256 { l0: value, l1: 0, l2: 0, l3: 0 }
    }
}

/// The integer that `bytes` spell with the most significant byte first.
pub open spec fn be_value(bytes: Seq<u8>) -> nat
    decreases bytes.len(),
{
    if bytes.len() == 0 {
        0
    } else {
        be_value(bytes.drop_last()) * 256 + bytes.last() as nat
    }
}

/// What the pending diff records of an account.
#[derive(Debug, Clone, Copy, PartialEq, Eq)]
pub struct AccountInfo {
    /// Balance in wei.
    pub balance: U256,
    /// Number of transactions sent.
    pub nonce: u64,
    /// Hash of the account's code; the hash of the empty string where it has none.
    pub code_hash: B256,
}

/// An account as a state provider reports it.
#[derive(Debug, Clone, Copy, PartialEq, Eq)]
pub struct Account {
    /// Number of transactions sent.
    pub nonce: u64,
    /// Balance in wei.
    pub balance: U256,
    /// Hash of the account's code, absent where it has none.
    pub bytecode_hash: Option<B256>,
}

/// Two 256-bit integers with the same value have the same limbs.
pub proof fn u256_value_determines_limbs(a: U256, b: U256)
    requires
        a@ == b@,
    ensures
        a == b,
{
}

/// Byte strings of one length that spell the same integer are the same: no two storage keys share
/// a slot.
pub proof fn be_value_is_injective(a: Seq<u8>, b: Seq<u8>)
    requires
        a.len() == b.len(),
        be_value(a) == be_value(b),
    ensures
        a == b,
    decreases a.len(),
{
    if a.len() > 0 {
        be_value_is_injective(a.drop_last(), b.drop_last());
        assert(a =~= a.drop_last().push(a.last()));
        assert(b =~= b.drop_last().push(b.last()));
    } else {
        assert(a =~= b);
    }
}

} // verus!
