//! A cross-chain NFT transceiver: it locks or burns tokens on one chain, carries an encrypted
//! packet to the transceiver of another, and mints or releases the tokens there, routed
//! through a hub and, where needed, a retranslation outpost.

pub mod error;
pub mod types;
pub mod address;
pub mod text;
pub mod escape;
pub mod decimal;
pub mod codec;
pub mod topology;
pub mod ibc;
pub mod registry;
pub mod transfer;
pub mod admin;
pub mod laws;
