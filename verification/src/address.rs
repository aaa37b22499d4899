//! Account addresses: opaque identifiers of 32 bytes.

use crate::error::AmmError;
use vstd::prelude::*;

verus! {

/// The program that executes swaps against a fund.
pub const SYMMETRY_PROGRAM_ADDRESS: [u8; 32] = [
    19, 162, 196, 157, 226, 150, 107, 27, 130, 85, 139, 174, 58, 3, 78, 171,
    47, 210, 62, 227, 98, 44, 44, 192, 142, 1, 62, 17, 31, 211, 66, 83,
];

/// The account that holds the token catalog.
pub const TOKEN_LIST_ADDRESS: [u8; 32] = [
    36, 82, 81, 223, 52, 135, 247, 124, 251, 218, 14, 212, 87, 21, 229, 47,
    156, 188, 86, 27, 160, 50, 181, 143, 131, 157, 212, 246, 244, 249, 81, 119,
];

/// The account that holds the shared curve dataset.
pub const CURVE_DATA_ADDRESS: [u8; 32] = [
    50, 142, 220, 89, 220, 102, 211, 28, 74, 15, 90, 91, 215, 196, 176, 134,
    202, 204, 171, 26, 251, 233, 87, 134, 163, 17, 222, 207, 54, 97, 41, 14,
];

/// The authority that owns every custody account of the funds.
pub const PDA_ADDRESS: [u8; 32] = [
    153, 126, 212, 127, 168, 211, 194, 168, 20, 88, 28, 41, 92, 3, 95, 199,
    59, 21, 216, 5, 170, 131, 12, 133, 166, 16, 183, 170, 18, 52, 168, 61,
];

/// The recipient of the protocol's share of swap fees.
pub const SWAP_FEE_ADDRESS: [u8; 32] = [
    141, 82, 236, 1, 178, 98, 75, 220, 248, 91, 113, 191, 175, 169, 251, 2,
    112, 52, 118, 22, 205, 125, 197, 185, 38, 14, 225, 22, 83, 82, 201, 135,
];

/// The program under which associated token accounts are derived.
pub const ASSOCIATED_TOKEN_PROGRAM_ADDRESS: [u8; 32] = [
    140, 151, 37, 143, 78, 36, 137, 241, 187, 61, 16, 41, 20, 142, 13, 131,
    11, 90, 19, 153, 218, 255, 16, 132, 4, 142, 123, 216, 219, 233, 248, 89,
];

/// The token program.
pub const SPL_TOKEN_PROGRAM_ADDRESS: [u8; 32] = [
    6, 221, 246, 225, 215, 101, 161, 147, 217, 203, 225, 70, 206, 235, 121, 172,
    28, 180, 133, 237, 95, 91, 55, 145, 58, 140, 245, 133, 126, 255, 0, 169,
];

/// An account address.
#[derive(Clone, Copy, Debug, PartialEq, Eq, Hash)]
pub struct Address {
    pub bytes: [u8; 32],
}

impl View for Address {
    type V = Seq<u8>;

    open spec fn view(&self) -> Seq<u8> {
        self.bytes@
    }
}

/// Two addresses with the same bytes are the same address.
pub proof fn lemma_address_equal(a: Address, b: Address)
    ensures
        a@.len() == 32,
        (a@ == b@) <==> (a == b),
{
    if a@ == b@ {
        assert(a.bytes =~= b.bytes);
    }
}

impl Address {
    /// The address whose bytes are all zero: the mark of an unused slot.
    pub open spec fn is_default(self) -> bool {
        forall|i: int| 0 <= i < 32 ==> self@[i] == 0
    }

    /// The address with the given bytes.
    pub fn new(bytes: [u8; 32]) -> (a: Address)
        ensures
            a@ == bytes@,
            a.bytes == bytes,
    {
        Address { bytes }
    }

    /// The address whose bytes are all zero.
    pub fn zero() -> (a: Address)
        ensures
            a.is_default(),
    {
        Address { bytes: [0u8; 32] }
    }

    /// The bytes of the address.
    pub fn to_bytes(&self) -> (bytes: [u8; 32])
        ensures
            bytes@ == self@,
    {
        self.bytes
    }

    /// Whether both addresses have the same bytes.
    pub fn equals(&self, other: &Address) -> (r: bool)
        ensures
            r == (self@ == other@),
            r == (*self == *other),
    {
        let mut i: usize = 0;
        while i < 32
            invariant
                i <= 32,
                forall|j: int| 0 <= j < i ==> self.bytes[j] == other.bytes[j],
            decreases 32 - i,
        {
            if self.bytes[i] != other.bytes[i] {
                return false;
            }
            i += 1;
        }
        assert(self@ =~= other@);
        assert(self.bytes =~= other.bytes);
        true
    }

    /// Whether all bytes of the address are zero.
    pub fn is_zero(&self) -> (r: bool)
        ensures
            r == self.is_default(),
    {
        let mut i: usize = 0;
        while i < 32
            invariant
                i <= 32,
                forall|j: int| 0 <= j < i ==> self.bytes[j] == 0,
            decreases 32 - i,
        {
            if self.bytes[i] != 0 {
                assert(self@[i as int] != 0);
                return false;
            }
            i += 1;
        }
        true
    }

    /// Reads the address stored in the 32 bytes that start at `offset`.
    pub fn read(data: &Vec<u8>, offset: usize) -> (r: Result<Address, AmmError>)
        ensures
            match r {
                Ok(a) => offset + 32 <= data.len() && a@ == data@.subrange(
                    offset as int,
                    offset + 32,
                ),
                Err(e) => offset + 32 > data.len() && e == AmmError::BlobTooShort,
            },
    {
        if data.len() < 32 || offset > data.len() - 32 {
            return Err(AmmError::BlobTooShort);
        }
        let mut bytes: [u8; 32] = [0u8; 32];
        let mut i: usize = 0;
        while i < 32
            invariant
                i <= 32,
                offset + 32 <= data.len(),
                forall|j: int| 0 <= j < i ==> bytes[j] == data@[offset + j],
            decreases 32 - i,
        {
            bytes[i] = data[offset + i];
            i += 1;
        }
        assert(bytes@ =~= data@.subrange(offset as int, offset + 32));
        Ok(Address { bytes })
    }

    /// The program that executes swaps against a fund.
    pub open spec fn symmetry_program_spec() -> Address {
        Address { bytes: SYMMETRY_PROGRAM_ADDRESS }
    }

    /// The account that holds the token catalog.
    pub open spec fn token_list_spec() -> Address {
        Address { bytes: TOKEN_LIST_ADDRESS }
    }

    /// The account that holds the shared curve dataset.
    pub open spec fn curve_data_spec() -> Address {
        Address { bytes: CURVE_DATA_ADDRESS }
    }

    /// The authority that owns every custody account of the funds.
    pub open spec fn fund_authority_spec() -> Address {
        Address { bytes: PDA_ADDRESS }
    }

    /// The recipient of the protocol's share of swap fees.
    pub open spec fn swap_fee_recipient_spec() -> Address {
        Address { bytes: SWAP_FEE_ADDRESS }
    }

    /// The program under which associated token accounts are derived.
    pub open spec fn associated_token_program_spec() -> Address {
        Address { bytes: ASSOCIATED_TOKEN_PROGRAM_ADDRESS }
    }

    /// The token program.
    pub open spec fn spl_token_program_spec() -> Address {
        Address { bytes: SPL_TOKEN_PROGRAM_ADDRESS }
    }

    /// The program that executes swaps against a fund.
    #[verifier::when_used_as_spec(symmetry_program_spec)]
    pub fn symmetry_program() -> (a: Address)
        ensures
            a == Self::symmetry_program_spec(),
    {
        Address { bytes: SYMMETRY_PROGRAM_ADDRESS }
    }

    /// The account that holds the token catalog.
    #[verifier::when_used_as_spec(token_list_spec)]
    pub fn token_list() -> (a: Address)
        ensures
            a == Self::token_list_spec(),
    {
        Address { bytes: TOKEN_LIST_ADDRESS }
    }

    /// The account that holds the shared curve dataset.
    #[verifier::when_used_as_spec(curve_data_spec)]
    pub fn curve_data() -> (a: Address)
        ensures
            a == Self::curve_data_spec(),
    {
        Address { bytes: CURVE_DATA_ADDRESS }
    }

    /// The authority that owns every custody account of the funds.
    #[verifier::when_used_as_spec(fund_authority_spec)]
    pub fn fund_authority() -> (a: Address)
        ensures
            a == Self::fund_authority_spec(),
    {
        Address { bytes: PDA_ADDRESS }
    }

    /// The recipient of the protocol's share of swap fees.
    #[verifier::when_used_as_spec(swap_fee_recipient_spec)]
    pub fn swap_fee_recipient() -> (a: Address)
        ensures
            a == Self::swap_fee_recipient_spec(),
    {
        Address { bytes: SWAP_FEE_ADDRESS }
    }

    /// The program under which associated token accounts are derived.
    #[verifier::when_used_as_spec(associated_token_program_spec)]
    pub fn associated_token_program() -> (a: Address)
        ensures
            a == Self::associated_token_program_spec(),
    {
        Address { bytes: ASSOCIATED_TOKEN_PROGRAM_ADDRESS }
    }

    /// The token program.
    #[verifier::when_used_as_spec(spl_token_program_spec)]
    pub fn spl_token_program() -> (a: Address)
        ensures
            a == Self::spl_token_program_spec(),
    {
        Address { bytes: SPL_TOKEN_PROGRAM_ADDRESS }
    }
}

} // verus!
