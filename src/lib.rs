//! Diffie–Hellman key agreement over arbitrary-precision natural numbers.
pub mod bignat;
pub mod dhp;

pub use bignat::BigNat;
pub use dhp::DHP;
