//! Client-side core for a decentralized prediction-market exchange.
//!
//! The crate covers three areas:
//! - typed-data (EIP-712 style) encoding and signing of orders and
//!   authentication challenges, with the byte layout of every hash preimage
//!   verified against its specification;
//! - conversion of decimal order parameters into integer base-unit amounts;
//! - reconstruction of per-instrument positions and profit/loss from a trade
//!   history feed.
//!
//! Network transport, pagination and display formatting live outside this
//! crate; the functions here are pure computations over plain values.

use vstd::prelude::*;

pub mod account;
pub mod auth;
pub mod constants;
pub mod crypto;
pub mod eip712;
pub mod encoding;
pub mod entropy;
pub mod error;
pub mod fixed_point;
pub mod orders;
pub mod positions;
pub mod provider;
pub mod realtime;
pub mod search;
pub mod types;
pub mod uint256;

verus! {

/// The canonical plugin identifier used to refer to this plugin.
pub const PLUGIN_NAME: &'static str = "polymarket";

} // verus!
