//! Invariant curves, the fee schedule and the swap curve that composes them.

pub mod arith;
pub mod base;
pub mod calculator;
pub mod constant_product;
pub mod fees;
pub mod precise_number;
