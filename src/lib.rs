//! A mint orchestrator for a NEAR NFT registry: fee splitting, the
//! registry's minter gate, owner-gated configuration and the continuation
//! steps of the mint saga, each with its contract.

pub mod error;
pub mod fee;
pub mod gate;
pub mod proxy;
pub mod saga;
pub mod token;
