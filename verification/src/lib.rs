//! Bounded 8-bit arithmetic helpers together with a few small datatype
//! examples: an order-stage enum, an even-halving operation, and a person
//! record.

pub mod calc_with_1;
pub mod halving;
pub mod orders;
pub mod people;
