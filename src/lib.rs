//! Builds and signs ledger transactions for compressed-asset operations:
//! tree configuration, minting and transfer, with the error texts and the
//! expiring cache that the host runtime sees.
pub mod boundary;
pub mod cache;
pub mod error;
pub mod instructions;
pub mod keys;
pub mod transaction;
