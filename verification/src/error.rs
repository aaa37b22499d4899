//! Failures that the adapter reports to its host.

use vstd::prelude::*;

verus! {

/// Why a decode, a quote or an instruction plan could not be produced.
#[derive(Clone, Copy, Debug, PartialEq, Eq, Structural)]
pub enum AmmError {
    /// An account payload ends before a field that has to be read.
    BlobTooShort,
    /// A decoded number cannot be used where it is needed: a count above its
    /// capacity, an index outside its table, a positive price exponent.
    NumericConversion,
    /// A tag names no known variant.
    UnknownVariant,
    /// The host supplied no payload for an account that has to be refreshed.
    MissingAccount,
    /// A mint is absent from the catalog or from the fund's composition.
    UnresolvableMint,
    /// The oracle of a token held by the fund is stale or flagged.
    OracleNotLive,
    /// An exact result does not fit the 64-bit range.
    ArithmeticOverflow,
    /// No program-derived address exists for the given seeds.
    AddressDerivation,
}

impl AmmError {
    /// Whether the failure stems from the shape or content of an account payload.
    pub open spec fn is_decode(self) -> bool {
        self == AmmError::BlobTooShort || self == AmmError::NumericConversion || self
            == AmmError::UnknownVariant || self == AmmError::MissingAccount
    }

    /// Whether the failure stems from the shape or content of an account payload.
    pub fn is_decode_error(&self) -> (r: bool)
        ensures
            r == self.is_decode(),
    {
        match self {
            AmmError::BlobTooShort => true,
            AmmError::NumericConversion => true,
            AmmError::UnknownVariant => true,
            AmmError::MissingAccount => true,
            _ => false,
        }
    }

    /// A short description of the failure.
    pub fn message(&self) -> (r: String)
        ensures
            r@ == Self::message_of(*self),
    {
        match self {
            AmmError::BlobTooShort => "account data is too short".to_owned(),
            AmmError::NumericConversion => "decoded number is out of range".to_owned(),
            AmmError::UnknownVariant => "unknown variant tag".to_owned(),
            AmmError::MissingAccount => "account data was not supplied".to_owned(),
            AmmError::UnresolvableMint => "mint cannot be resolved in this fund".to_owned(),
            AmmError::OracleNotLive => "oracle is not live".to_owned(),
            AmmError::ArithmeticOverflow => "arithmetic overflow".to_owned(),
            AmmError::AddressDerivation => "no program address for these seeds".to_owned(),
        }
    }

    /// The text that `message` returns for each failure.
    pub open spec fn message_of(e: AmmError) -> Seq<char> {
        match e {
            AmmError::BlobTooShort => "account data is too short"@,
            AmmError::NumericConversion => "decoded number is out of range"@,
            AmmError::UnknownVariant => "unknown variant tag"@,
            AmmError::MissingAccount => "account data was not supplied"@,
            AmmError::UnresolvableMint => "mint cannot be resolved in this fund"@,
            AmmError::OracleNotLive => "oracle is not live"@,
            AmmError::ArithmeticOverflow => "arithmetic overflow"@,
            AmmError::AddressDerivation => "no program address for these seeds"@,
        }
    }
}

} // verus!
