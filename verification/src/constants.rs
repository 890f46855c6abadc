//! Network and protocol constants.

use vstd::prelude::*;

verus! {

/// Chain id of the Polygon network, where the exchange contracts live.
pub const POLYGON_CHAIN_ID: u64 = 137;

/// Name of the Polygon network.
pub const POLYGON_CHAIN_NAME: &'static str = "polygon";

/// Default base URL of the central limit order book API.
pub const DEFAULT_CLOB_API_URL: &'static str = "https://clob.polymarket.com";

/// Default websocket endpoint for market subscriptions.
pub const DEFAULT_CLOB_WS_URL: &'static str = "wss://ws-subscriptions-clob.polymarket.com/ws/";

/// Base URL of the Gamma search API.
pub const GAMMA_API_URL: &'static str = "https://gamma-api.polymarket.com";

/// Service identifier.
pub const POLYMARKET_SERVICE_NAME: &'static str = "polymarket";

/// Default fee rate, in basis points.
pub const DEFAULT_FEE_RATE_BPS: u32 = 0;

/// Number of decimal places of the collateral asset (USDC).
pub const USDC_DECIMALS: u8 = 6;

/// Scale factor shared by the collateral asset and the conditional outcome
/// tokens: both carry six decimal places.
pub const BASE_UNIT_SCALE: u64 = 1_000_000;

/// Collateral (USDC) contract address on Polygon.
pub const USDC_ADDRESS: &'static str = "0x2791Bca1f2de4661ED88A30C99A7a9449Aa84174";

/// Standard exchange contract address, in checksummed hex.
pub const CTF_EXCHANGE_ADDRESS: &'static str = "0x4bFb41d5B3570DeFd03C39a9A4D8dE6Bd8B8982E";

/// Exchange contract address for negative-risk markets, in checksummed hex.
pub const NEG_RISK_CTF_EXCHANGE_ADDRESS: &'static str = "0xC5d563A36AE78145C45a50134d48A1215220f80a";

/// Adapter contract address for negative-risk markets.
pub const NEG_RISK_ADAPTER_ADDRESS: &'static str = "0xd91E80cF2E7be2e162c6513ceD06f1dD0dA35296";

/// Default number of records per page when paginating.
pub const DEFAULT_PAGE_LIMIT: u32 = 100;

/// Largest number of records per page the API accepts.
pub const MAX_PAGE_LIMIT: u32 = 500;

/// Cursor value that marks the end of a paginated listing.
pub const END_CURSOR: &'static str = "LTE=";

/// The 20 bytes of the standard exchange contract address.
pub open spec fn spec_ctf_exchange_address() -> Seq<u8> {
    seq![
        0x4bu8, 0xfb, 0x41, 0xd5, 0xb3, 0x57, 0x0d, 0xef, 0xd0, 0x3c,
        0x39, 0xa9, 0xa4, 0xd8, 0xde, 0x6b, 0xd8, 0xb8, 0x98, 0x2e,
    ]
}

/// The 20 bytes of the negative-risk exchange contract address.
pub open spec fn spec_neg_risk_exchange_address() -> Seq<u8> {
    seq![
        0xc5u8, 0xd5, 0x63, 0xa3, 0x6a, 0xe7, 0x81, 0x45, 0xc4, 0x5a,
        0x50, 0x13, 0x4d, 0x48, 0xa1, 0x21, 0x52, 0x20, 0xf8, 0x0a,
    ]
}

/// The 20 bytes of the standard exchange contract address, as a value.
pub fn ctf_exchange_address_bytes() -> (r: Vec<u8>)
    ensures
        r@ == spec_ctf_exchange_address(),
{
    let r: Vec<u8> = vec![
        0x4bu8, 0xfb, 0x41, 0xd5, 0xb3, 0x57, 0x0d, 0xef, 0xd0, 0x3c,
        0x39, 0xa9, 0xa4, 0xd8, 0xde, 0x6b, 0xd8, 0xb8, 0x98, 0x2e,
    ];
    proof {
        assert(r@ =~= spec_ctf_exchange_address());
    }
    r
}

/// The 20 bytes of the negative-risk exchange contract address, as a value.
pub fn neg_risk_exchange_address_bytes() -> (r: Vec<u8>)
    ensures
        r@ == spec_neg_risk_exchange_address(),
{
    let r: Vec<u8> = vec![
        0xc5u8, 0xd5, 0x63, 0xa3, 0x6a, 0xe7, 0x81, 0x45, 0xc4, 0x5a,
        0x50, 0x13, 0x4d, 0x48, 0xa1, 0x21, 0x52, 0x20, 0xf8, 0x0a,
    ];
    proof {
        assert(r@ =~= spec_neg_risk_exchange_address());
    }
    r
}

/// The 20 zero bytes of the null address.
pub open spec fn spec_zero_address() -> Seq<u8> {
    Seq::new(20, |i: int| 0u8)
}

/// The 20 zero bytes of the null address, used as the taker of an open order
/// and as the verifying contract of the authentication domain.
pub fn zero_address_bytes() -> (r: Vec<u8>)
    ensures
        r@ == spec_zero_address(),
{
    let r: Vec<u8> = vec![0u8; 20];
    proof {
        assert(r@ =~= spec_zero_address());
    }
    r
}

} // verus!
