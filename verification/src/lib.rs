//! Bridging layer between an EVM execution environment and a native
//! multi-asset ledger: a deterministic currency-id/address codec, a
//! system-contract classifier, a static cost model, caller/pause access
//! gates, a selector-style precompile dispatcher, and the symmetrical
//! native-to-EVM bridge capability.

pub mod bridge;
pub mod currency;
pub mod errors;
pub mod evm;
pub mod ledger;
pub mod limits;
pub mod precompile;
pub mod registry;
pub mod support;
