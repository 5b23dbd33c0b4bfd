//! Quantitative risk core of a collateralised lending protocol.
//!
//! The crate decides how much may be borrowed against volatile collateral,
//! tracks the health of positions, and computes what a stop-loss swaps and
//! what a liquidation seizes. Every function works on the state it is given
//! and keeps none of its own.
//!
//! Amounts are 128-bit signed fixed-point integers; prices and USD values
//! have 14 decimals. Ratios are in basis points: 10000 stands for 1.0.
//! Division rounds toward zero. A function whose arithmetic could leave its
//! integer type says so in its `requires`. Beside each stands a function
//! that tests the condition: a `try_` form that gives `None` where the
//! function may not be called, or a form that tells whether it may.

pub mod host;
pub mod math;

pub mod oracle;
pub mod volatility;

pub mod borrow;
pub mod collateral;
pub mod health;
pub mod pool;

pub mod liquidation;
pub mod stop_loss;
pub mod risk;

pub mod blend;
pub mod policy;
