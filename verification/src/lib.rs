//! A swap venue backed by a multi-asset index fund.
//!
//! Given a fund's state, the token catalog, the shared curve dataset and the
//! prices of the oracles, the adapter says how much of one token the fund
//! gives for an amount of another and what the swap costs, and lists the
//! accounts that the swap instruction takes.
//!
//! - [`wire`], [`address`]: little-endian fields and addresses in payloads.
//! - [`accounts`], [`oracle`]: the records and their decoders.
//! - [`fixed_point`]: multiply-divide on wide intermediates.
//! - [`curve`]: pricing one leg of a swap against a token's curve.
//! - [`quote`]: the quote and the weight band.
//! - [`instruction`]: the accounts and the payload of the swap instruction.
//! - [`symmetry_token_swap`]: the adapter that holds the snapshot.
//! - [`v2`]: records and arithmetic of the second layout generation.
//! - [`decode_laws`], [`curve_laws`], [`laws`]: what holds of all of these.

pub mod accounts;
pub mod address;
pub mod amm;
pub mod curve;
pub mod curve_laws;
pub mod decode_laws;
pub mod error;
pub mod fixed_point;
pub mod instruction;
pub mod laws;
pub mod oracle;
pub mod quote;
pub mod symmetry_token_swap;
pub mod v2;
pub mod wire;
