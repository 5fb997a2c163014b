//! Passkey-authenticated smart wallet engine: secp256r1 verification records,
//! replay and expiry protection, derived addresses, the action dispatcher and
//! the two bundled rule modules.
pub mod address;
pub mod authority;
pub mod bytes;
pub mod contract;
pub mod cpi;
pub mod default_rule;
pub mod engine;
pub mod error;
pub mod registry;
pub mod secp;
pub mod state;
pub mod transfer_limit;
