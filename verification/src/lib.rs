//! Trade-finance contracts with machine-checked accounting.
//!
//! `pool` holds the liquidity pool that buys listed invoices with the deposits
//! of its liquidity providers, `registry` the directory of verified issuers and
//! buyers that the pool consults. Both are plain state machines: a call takes
//! the addresses that authorised it and either changes the state and lists the
//! ledger actions to perform, or names the one reason for which the whole call
//! is undone.
pub mod address;
pub mod auth;
pub mod errors;
pub mod ledger;
pub mod metadata;
pub mod pool;
pub mod registry;
pub mod sums;
pub mod table;
