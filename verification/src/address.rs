//! 32-byte identities of owners, vaults and assets.

use vstd::prelude::*;

verus! {

/// The identity of an owner, a vault, an account or an asset: 32 bytes,
/// compared byte by byte.
#[derive(Debug, Clone, Copy, Eq, Hash)]
pub struct Address {
    pub bytes: [u8; 32],
}

impl View for Address {
    type V = Seq<u8>;

    open spec fn view(&self) -> Seq<u8> {
        self.bytes@
    }
}

impl Address {
    /// Whether every byte of this address is zero. A record that carries such
    /// an address in its owner field has not been bound to an owner yet.
    pub open spec fn is_zero_spec(&self) -> bool {
        forall|i: int| 0 <= i < 32 ==> self.bytes[i] == 0u8
    }

    /// Returns the address made of the given bytes.
    pub fn new(bytes: [u8; 32]) -> (address: Address)
        ensures
            address.bytes == bytes,
    {
        Address { bytes }
    }

    /// Returns the bytes of this address.
    pub fn to_bytes(&self) -> (bytes: [u8; 32])
        ensures
            bytes == self.bytes,
    {
        self.bytes
    }

    /// Tells whether every byte of this address is zero.
    #[verifier::when_used_as_spec(is_zero_spec)]
    pub fn is_zero(&self) -> (zero: bool)
        ensures
            zero == self.is_zero(),
    {
        let mut i: usize = 0;
        while i < 32
            invariant
                i <= 32,
                forall|j: int| 0 <= j < i ==> self.bytes[j] == 0u8,
            decreases 32 - i,
        {
            if self.bytes[i] != 0 {
                return false;
            }
            i = i + 1;
        }
        true
    }
}

impl PartialEq for Address {
    fn eq(&self, other: &Address) -> (equal: bool)
    {
        let mut i: usize = 0;
        while i < 32
            invariant
                i <= 32,
                forall|j: int| 0 <= j < i ==> self.bytes[j] == other.bytes[j],
            decreases 32 - i,
        {
            if self.bytes[i] != other.bytes[i] {
                return false;
            }
            i = i + 1;
        }
        assert(self.bytes =~= other.bytes);
        true
    }
}

impl vstd::std_specs::cmp::PartialEqSpecImpl for Address {
    open spec fn obeys_eq_spec() -> bool {
        true
    }

    open spec fn eq_spec(&self, other: &Address) -> bool {
        *self == *other
    }
}

impl Default for Address {
    fn default() -> (address: Address)
        ensures
            address.is_zero(),
    {
        Address { bytes: [0u8; 32] }
    }
}

/// The reference stable asset. A stable vault is accepted in a swap only if it
/// holds this asset.
pub open spec fn usdc_mint_spec() -> Address {
    Address {
        bytes: [
            198u8, 250u8, 122u8, 243u8, 190u8, 219u8, 173u8, 58u8,
            61u8, 101u8, 243u8, 106u8, 171u8, 201u8, 116u8, 49u8,
            177u8, 187u8, 228u8, 194u8, 210u8, 246u8, 224u8, 228u8,
            124u8, 166u8, 2u8, 3u8, 69u8, 47u8, 93u8, 97u8,
        ],
    }
}

/// Returns the address of the reference stable asset.
#[verifier::when_used_as_spec(usdc_mint_spec)]
pub fn usdc_mint() -> (mint: Address)
    ensures
        mint == usdc_mint(),
{
    Address {
        bytes: [
            198, 250, 122, 243, 190, 219, 173, 58,
            61, 101, 243, 106, 171, 201, 116, 49,
            177, 187, 228, 194, 210, 246, 224, 228,
            124, 166, 2, 3, 69, 47, 93, 97,
        ],
    }
}

} // verus!
