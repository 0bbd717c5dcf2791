//! Hashed-timelock escrow for the destination leg of a cross-chain swap: resolvers
//! lock tokens per order; the recipient claims them with the secret behind the
//! hashlock, or the resolver reclaims them once the timelock has passed.

pub mod codec;
pub mod contract;
pub mod error;
pub mod escrow;
pub mod laws;
pub mod whitelist;

pub use contract::{Contract, TransferRequest};
pub use error::EscrowError;
pub use escrow::{Escrow, EscrowCreateMsg};
