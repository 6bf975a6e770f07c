//! A virtual economy of people and objects with a fungible coin: minting,
//! ownership-gated updates, rent and mortgage status, and resale through a
//! two-phase escrow whose settlement reads the holding vault.
pub mod amount;
pub mod error;
pub mod events;
pub mod laws;
pub mod life;
pub mod names;
pub mod records;
pub mod state;
pub mod tokens;
