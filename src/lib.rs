//! A perpetual-futures margin engine over a virtual constant-product price curve.
//!
//! Amounts are fixed-point integers scaled by a decimal base; signed amounts
//! are `i128`, unsigned ones `u128`. Every arithmetic step is checked and an
//! overflow or a division by zero surfaces as `EngineError::Arithmetic`.
//!
//! - `math`: checked fixed-point arithmetic.
//! - `vamm`: the price curve, its pricing, swaps and funding premium.
//! - `position`: positions and the margin, funding and PnL arithmetic.
//! - `engine`: position actions, their completions, liquidation, funding
//!   settlement and queries.
//! - `registry`: the insurance fund's curve registry and the fee pool's tokens.
//! - `laws`: properties that relate several operations.

pub mod engine;
pub mod error;
pub mod laws;
pub mod math;
pub mod position;
pub mod registry;
pub mod vamm;
