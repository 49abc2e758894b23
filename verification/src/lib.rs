//! Conversion between cryptocurrencies and fiat or quote currencies, planned
//! against the CoinGecko price service.
//!
//! The library decides everything that does not need the network: which
//! coin a text stands for, which currencies are accepted, which prices a
//! conversion asks for and how they combine, when the cached coin list is
//! still usable, and when a failed request is retried.

pub mod alias;
pub mod asset;
pub mod cache;
pub mod client;
pub mod error;
pub mod prices;
pub mod resolve;
pub mod retry;
pub mod text;
pub mod urls;

pub use alias::alias_coin_id;
pub use asset::{ensure_vs, AssetKind};
pub use error::CoinexError;
