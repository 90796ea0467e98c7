//! A custodial wallet front-end: per-caller key derivation, request
//! assembly for a threshold-signing service, and the sign-and-broadcast
//! pipeline for transactions, with an explicitly owned state container.

pub mod principal;
pub mod text;
pub mod ecdsa;
pub mod transaction;
pub mod state;
pub mod wallet;
pub mod weburl;
pub mod cluster;
