//! The liquidity pool: deposits, withdrawals, invoice funding, repayment and
//! default.
pub mod arithmetic;
pub mod books;
pub mod contract;
pub mod effects;
pub mod funding;
pub mod laws;
pub mod meaning;
pub mod model;
pub mod outcomes;
