//! Accounting core of a multi-asset liquidity pool.
//!
//! Every amount is a 128-bit unsigned integer in the native precision of its
//! token; amounts of different tokens meet only at the canonical scale of 18
//! decimals. Nothing here rounds up, wraps or saturates: a result that cannot
//! be represented is reported as an error.

pub mod contract;
pub mod decimal;
pub mod error;
pub mod liquidity;
pub mod msg;
pub mod querier;
pub mod registry;
pub mod response;
pub mod state;
pub mod swap;
pub mod wide;
