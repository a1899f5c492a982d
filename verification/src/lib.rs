//! The failure values of a client that drives a hardware wallet: one error
//! type for every layer that can fail while a transaction is being signed.

pub mod apdu;
pub mod error;
pub mod interpreter;
pub mod laws;
