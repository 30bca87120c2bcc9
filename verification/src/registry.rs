//! The registry: who is an issuer, who is a buyer, and who is verified.
pub mod contract;
pub mod effects;
pub mod laws;
pub mod meaning;
pub mod model;
pub mod outcomes;
