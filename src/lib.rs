//! A per-participant driver for FROST threshold key generation and signing
//! over secp256k1, with the command framing for a smart-card signer.

mod crypto;

pub mod apdu;
pub mod codec;
pub mod command;
pub mod error;
pub mod index;
pub mod keygen;
pub mod protocol;
pub mod response;
pub mod sign;
pub mod snapshot;
