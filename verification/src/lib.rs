//! Verified decision logic of a family of Solana programs: a constant-product
//! AMM, a two-party token escrow, an NFT staking program, and the error of a
//! SOL vault.
//!
//! Every instruction is expressed as a function from the accounts' values it
//! reads (and its arguments) to the new values of the accounts it owns and the
//! cross-program invocations it asks the runtime to perform.
pub mod address;
pub mod cpi;
pub mod seeds;
pub mod text;
pub mod amm;
pub mod staking;
pub mod escrow;
pub mod vault;
