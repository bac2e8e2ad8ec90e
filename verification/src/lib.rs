//! A minimal capability contract for field-like numeric types.
//!
//! Generic numeric code can be written once against the [`field::Field`]
//! trait and instantiated over any conforming type. A conforming type
//! supplies the four arithmetic operations, unary negation, and the two
//! distinguished identity elements ([`arithmetic::Zero`] and
//! [`arithmetic::One`]), and must prove the algebraic identity laws that
//! the contract promises. [`wrap64::Wrap64`], exact arithmetic modulo
//! `2^64`, is the built-in conforming type.

pub mod arithmetic;
pub mod field;
pub mod wrap64;
