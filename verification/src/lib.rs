//! The arithmetic core and the asset registry of an exchange.
//!
//! A [`decimal::Decimal`] is a non-negative magnitude together with a count of
//! implied decimal digits. Every operation on it is exact integer arithmetic
//! with an explicit rounding rule, and reports overflow instead of wrapping.
//! The registry in [`manager`] keeps the list of assets and their prices.

pub mod address;
pub mod decimal;
pub mod laws;
pub mod manager;
pub mod ops;
pub mod pow10;
pub mod power;
