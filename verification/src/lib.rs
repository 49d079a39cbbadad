//! Verified coordination core for a CoinSwap: contract-script construction,
//! per-leg swap-coin lifecycle, wallet coin classification and selection, and
//! the Taker/Maker negotiation state machines.

pub mod contract;
pub mod crypto;
pub mod error;
pub mod maker;
pub mod parse;
pub mod registry;
pub mod session;
pub mod swapcoin;
pub mod taker;
