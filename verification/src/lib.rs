//! Proof-of-work consensus rules for an Ethash-sealed chain: seal formats,
//! seal verification, difficulty retargeting and the mining coordinator.

pub mod codec;
pub mod error;
pub mod h256;
pub mod helpers;
pub mod mining;
pub mod oracle;
pub mod pow;
pub mod types;
pub mod u256;
pub mod worker;
