//! Gateway core for a ledger node: request types, key derivation, transaction
//! composition and the correlation of ledger events with the request that
//! caused them.

pub mod account;
pub mod command;
pub mod crypto;
pub mod era;
pub mod error;
pub mod event;
pub mod extrinsic;
pub mod hexcode;
pub mod nft;
pub mod request;
pub mod scale;
