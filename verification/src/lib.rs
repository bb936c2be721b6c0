//! Core of a constant-product automated market maker.
//!
//! A pool record ([`pool::Exchange`]) tracks the identities of its two reserve
//! assets, the identity of its liquidity-share asset, and the outstanding
//! share supply. Reserve balances live in externally owned accounts and are
//! read fresh for every operation; the asset transfers themselves are carried
//! out by the hosting ledger, which the caller drives with the amounts this
//! library computes.
//!
//! The verified logic covers:
//! - the validation guard (deadlines and asset-identity checks, [`guard`]),
//! - the pricing engine (constant-product quotes with a fixed-point fee,
//!   [`price`]),
//! - the liquidity manager (seeding, proportional mint and burn, [`manager`]),
//! - a keyed store of pool records ([`registry`]).

pub mod accounts;
pub mod error;
pub mod guard;
pub mod pool;
pub mod manager;
pub mod price;
pub mod registry;

pub use error::ErrorCode;
pub use pool::AssetId;
pub use pool::Exchange;
pub use pool::create;
