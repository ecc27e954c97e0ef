//! The fixed-width values that travel through the generation state: 256-bit
//! words, 32-byte hashes and 20-byte account addresses.

use ethereum_types::BigEndianHash;
use vstd::prelude::*;

verus! {

/// A 256-bit unsigned word, held as four 64-bit limbs, least significant first.
#[derive(Clone, Copy, Debug, PartialEq, Eq)]
pub struct U256 {
    pub limbs: [u64; 4],
}

/// A 32-byte hash. A state key is the hash of an account address.
#[derive(Clone, Copy, Debug, PartialEq, Eq)]
pub struct H256 {
    pub bytes: [u8; 32],
}

/// A 20-byte account address.
#[derive(Clone, Copy, Debug, PartialEq, Eq)]
pub struct Address {
    pub bytes: [u8; 20],
}

/// The divisor that moves byte `j` of a 64-bit limb (byte 0 is the least
/// significant) down to the lowest position.
pub open spec fn byte_divisor(j: int) -> int {
    if j == 0 {
        0x1
    } else if j == 1 {
        0x100
    } else if j == 2 {
        0x1_0000
    } else if j == 3 {
        0x100_0000
    } else if j == 4 {
        0x1_0000_0000
    } else if j == 5 {
        0x100_0000_0000
    } else if j == 6 {
        0x1_0000_0000_0000
    } else {
        0x100_0000_0000_0000
    }
}

/// Byte `j` of a 64-bit limb, byte 0 being the least significant.
pub open spec fn limb_byte(limb: u64, j: int) -> u8 {
    ((limb as int / byte_divisor(j)) % 256) as u8
}

impl U256 {
    /// The word whose four limbs are zero.
    pub fn zero() -> (word: U256)
        ensures
            word.limbs@ == seq![0u64, 0u64, 0u64, 0u64],
            word == U256::spec_zero(),
    {
        let word = U256 { limbs: [0, 0, 0, 0] };
        assert(word.limbs@ =~= seq![0u64, 0u64, 0u64, 0u64]);
        assert(word.limbs =~= U256::spec_zero().limbs);
        word
    }

    /// The zero word, as a specification value.
    pub open spec fn spec_zero() -> U256 {
        U256 { limbs: [0u64, 0u64, 0u64, 0u64] }
    }

    /// The word whose value is `low`, as a specification value.
    pub open spec fn spec_from_u64(low: u64) -> U256 {
        U256 { limbs: [low, 0u64, 0u64, 0u64] }
    }

    /// The word whose value is `low`.
    pub fn from_u64(low: u64) -> (word: U256)
        ensures
            word.limbs@ == seq![low, 0u64, 0u64, 0u64],
            word == U256::spec_from_u64(low),
    {
        let word = U256 { limbs: [low, 0, 0, 0] };
        assert(word.limbs@ =~= seq![low, 0u64, 0u64, 0u64]);
        assert(word.limbs =~= U256::spec_from_u64(low).limbs);
        word
    }

    /// The 32 bytes of the word, most significant first: byte `k` is byte
    /// `7 - k % 8` of limb `3 - k / 8`.
    pub open spec fn be_bytes(self) -> Seq<u8> {
        Seq::new(32, |k: int| limb_byte(self.limbs@[3 - k / 8], 7 - k % 8))
    }
}

impl View for H256 {
    type V = Seq<u8>;

    open spec fn view(&self) -> Seq<u8> {
        self.bytes@
    }
}

impl View for Address {
    type V = Seq<u8>;

    open spec fn view(&self) -> Seq<u8> {
        self.bytes@
    }
}

/// The Keccak-256 digest of a byte string.
pub uninterp spec fn keccak256(input: Seq<u8>) -> Seq<u8>;

/// `H256::from_uint` of `ethereum_types`: writes the word into 32 bytes in
/// big-endian order, limb 3 first and each limb most significant byte first.
#[verifier::external_body]
fn hash_from_uint(word: &U256) -> (hash: H256)
    ensures
        hash@ == word.be_bytes(),
{
    H256 { bytes: ethereum_types::H256::from_uint(&ethereum_types::U256(word.limbs)).0 }
}

/// `H160::from(H256)` of `ethereum_types`: keeps the last 20 of the hash's 32
/// bytes.
#[verifier::external_body]
fn address_from_hash(hash: &H256) -> (address: Address)
    ensures
        address@ == hash@.subrange(12, 32),
{
    Address { bytes: ethereum_types::H160::from(ethereum_types::H256(hash.bytes)).0 }
}

/// `keccak` of `keccak_hash`: the Keccak-256 digest of the address's 20 bytes.
/// The digest is not defined here; the contract only gives it its name.
#[verifier::external_body]
fn keccak_of_address(address: &Address) -> (key: H256)
    ensures
        key@ == keccak256(address@),
{
    H256 { bytes: keccak_hash::keccak(address.bytes).0 }
}

impl H256 {
    /// Whether two hashes hold the same 32 bytes.
    pub fn same_bytes(&self, other: &H256) -> (same: bool)
        ensures
            same == (self@ == other@),
    {
        let mut i: usize = 0;
        while i < 32
            invariant
                i <= 32,
                forall|j: int| 0 <= j < i ==> self.bytes@[j] == other.bytes@[j],
            decreases 32 - i,
        {
            if self.bytes[i] != other.bytes[i] {
                return false;
            }
            i += 1;
        }
        assert(self@ =~= other@);
        true
    }
}

impl Address {
    /// The address that a 256-bit word stands for: the low 160 bits, that is
    /// the last 20 bytes of the word written big-endian.
    pub fn from_word(word: &U256) -> (address: Address)
        ensures
            address@ == word.be_bytes().subrange(12, 32),
    {
        let hash = hash_from_uint(word);
        address_from_hash(&hash)
    }

    /// The state key of the address: the Keccak-256 digest of its 20 bytes.
    pub fn state_key(&self) -> (key: H256)
        ensures
            key@ == keccak256(self@),
    {
        keccak_of_address(self)
    }
}

} // verus!
