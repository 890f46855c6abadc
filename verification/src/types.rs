//! Plain data types of the library: order parameters, order book entries,
//! trades, balances and API-key records. Decimal quantities that the wire
//! carries as strings are held here either as those strings or, where the
//! library computes with them, as integer counts of millionths (six-decimal
//! fixed point).

use vstd::prelude::*;

verus! {

/// One outcome token of a market.
#[derive(Debug, Clone, PartialEq)]
pub struct Token {
    pub token_id: String,
    pub outcome: String,
}

/// Side of an order or trade.
#[derive(Debug, Clone, Copy, PartialEq, Eq, Structural)]
pub enum OrderSide {
    Buy,
    Sell,
}

impl OrderSide {
    /// The wire label of the side.
    pub fn label(&self) -> (r: &'static str)
        ensures
            *self is Buy ==> r@ == "BUY"@,
            *self is Sell ==> r@ == "SELL"@,
    {
        match self {
            OrderSide::Buy => "BUY",
            OrderSide::Sell => "SELL",
        }
    }

    /// The byte that encodes the side in a signed order: 0 buys, 1 sells.
    pub fn as_byte(&self) -> (r: u8)
        ensures
            r == self.spec_byte(),
    {
        match self {
            OrderSide::Buy => 0,
            OrderSide::Sell => 1,
        }
    }

    /// The byte that encodes the side in a signed order.
    pub open spec fn spec_byte(&self) -> u8 {
        match self {
            OrderSide::Buy => 0,
            OrderSide::Sell => 1,
        }
    }
}

/// Time-in-force of an order.
#[derive(Debug, Clone, Copy, PartialEq, Eq, Structural, Default)]
pub enum OrderType {
    #[default]
    Gtc,
    Fok,
    Gtd,
    Fak,
}

impl OrderType {
    /// The wire label of the order type.
    pub fn label(&self) -> (r: &'static str)
        ensures
            *self is Gtc ==> r@ == "GTC"@,
            *self is Fok ==> r@ == "FOK"@,
            *self is Gtd ==> r@ == "GTD"@,
            *self is Fak ==> r@ == "FAK"@,
    {
        match self {
            OrderType::Gtc => "GTC",
            OrderType::Fok => "FOK",
            OrderType::Gtd => "GTD",
            OrderType::Fak => "FAK",
        }
    }
}

/// Lifecycle state of an order.
#[derive(Debug, Clone, Copy, PartialEq, Eq, Structural)]
pub enum OrderStatus {
    Pending,
    Open,
    Filled,
    PartiallyFilled,
    Cancelled,
    Expired,
    Rejected,
}

/// Parameters of an order to build and sign. Price and size are six-decimal
/// fixed point: a price of 0.45 is 450_000 millionths, and must lie in
/// (0, 1_000_000]; size must be positive.
#[derive(Debug, Clone)]
pub struct OrderParams {
    /// Token (instrument) id as a decimal numeral of up to 256 bits.
    pub token_id: String,
    pub side: OrderSide,
    /// Price in millionths; the valid domain is (0, 1_000_000].
    pub price_micros: u64,
    /// Size in millionths of a share; must be positive.
    pub size_micros: u64,
    pub order_type: OrderType,
    /// Fee rate in basis points.
    pub fee_rate_bps: u32,
    /// Expiration as Unix seconds; defaults to thirty days from now.
    pub expiration: Option<u64>,
    /// Nonce; defaults to a fresh unpredictable value.
    pub nonce: Option<u64>,
}

/// Response of the order submission endpoint.
#[derive(Debug, Clone)]
pub struct OrderResponse {
    pub success: bool,
    pub error_msg: Option<String>,
    pub order_id: Option<String>,
    pub order_hashes: Option<Vec<String>>,
    pub status: Option<String>,
}

/// An open order as the API reports it.
#[derive(Debug, Clone)]
pub struct OpenOrder {
    pub order_id: String,
    pub user_id: String,
    pub market_id: String,
    pub token_id: String,
    pub side: OrderSide,
    pub order_type: String,
    pub status: String,
    pub price: String,
    pub size: String,
    pub filled_size: String,
    pub fees_paid: String,
    pub created_at: String,
    pub updated_at: String,
}

/// One price level of an order book.
#[derive(Debug, Clone)]
pub struct BookEntry {
    pub price: String,
    pub size: String,
}

/// An order book snapshot.
#[derive(Debug, Clone)]
pub struct OrderBook {
    pub market: String,
    pub asset_id: String,
    pub bids: Vec<BookEntry>,
    pub asks: Vec<BookEntry>,
}

/// Settlement state of a trade.
#[derive(Debug, Clone, Copy, PartialEq, Eq, Structural)]
pub enum TradeStatus {
    Matched,
    Mined,
    Confirmed,
    Retrying,
    Failed,
}

/// A trade as the public feed reports it.
#[derive(Debug, Clone)]
pub struct Trade {
    pub id: String,
    pub market: String,
    pub asset_id: String,
    pub side: OrderSide,
    pub price: String,
    pub size: String,
    pub timestamp: String,
    pub status: TradeStatus,
}

/// A record of the authenticated user's trade history. Price and size are
/// decimal numerals; the reconciler reads them and degrades a malformed
/// field to a zero contribution rather than failing the batch.
#[derive(Debug, Clone)]
pub struct TradeEntry {
    pub trade_id: String,
    pub order_id: String,
    pub user_id: String,
    pub market_id: String,
    pub token_id: String,
    pub side: OrderSide,
    pub trade_type: String,
    pub price: String,
    pub size: String,
    pub fees_paid: String,
    pub timestamp: String,
    pub tx_hash: String,
}

/// A reconstructed position: net size, average entry price and realized and
/// unrealized profit, all rendered as fixed-point decimal strings.
#[derive(Debug, Clone)]
pub struct Position {
    pub market: String,
    pub asset_id: String,
    pub size: String,
    pub average_price: String,
    pub realized_pnl: String,
    pub unrealized_pnl: String,
}

/// A balance of one asset.
#[derive(Debug, Clone)]
pub struct Balance {
    pub asset: String,
    pub balance: String,
    pub symbol: String,
    pub decimals: u8,
}

/// Balance and allowance of one asset, as decimal strings.
#[derive(Debug, Clone)]
pub struct BalanceAllowance {
    pub balance: String,
    pub allowance: String,
}

/// API credentials returned by the credential-issuance endpoint.
#[derive(Debug, Clone)]
pub struct ApiKeyCreds {
    pub key: String,
    pub secret: String,
    pub passphrase: String,
}

/// Access level of an API key.
#[derive(Debug, Clone, Copy, PartialEq, Eq, Structural)]
pub enum ApiKeyType {
    ReadOnly,
    ReadWrite,
}

/// Lifecycle state of an API key.
#[derive(Debug, Clone, Copy, PartialEq, Eq, Structural)]
pub enum ApiKeyStatus {
    Active,
    Revoked,
}

/// An API key record.
#[derive(Debug, Clone)]
pub struct ApiKey {
    pub key_id: String,
    pub label: String,
    pub key_type: ApiKeyType,
    pub status: ApiKeyStatus,
    pub created_at: String,
    pub last_used_at: Option<String>,
    pub is_cert_whitelisted: bool,
}

/// One page of trade history.
#[derive(Debug, Clone)]
pub struct TradesResponse {
    pub data: Vec<TradeEntry>,
    pub next_cursor: String,
}

/// Filters for market listings.
#[derive(Debug, Clone, Default)]
pub struct MarketFilters {
    pub category: Option<String>,
    pub active: Option<bool>,
    pub limit: Option<u32>,
    pub next_cursor: Option<String>,
}

/// Filters for trade-history queries.
#[derive(Debug, Clone, Default)]
pub struct GetTradesParams {
    pub user_address: Option<String>,
    pub market_id: Option<String>,
    pub token_id: Option<String>,
    pub from_timestamp: Option<u64>,
    pub to_timestamp: Option<u64>,
    pub limit: Option<u32>,
    pub next_cursor: Option<String>,
}

/// A spot price of one token.
#[derive(Debug, Clone)]
pub struct TokenPrice {
    pub token_id: String,
    pub price: String,
}

/// One sample of a token's price history.
#[derive(Debug, Clone)]
pub struct PriceHistoryEntry {
    pub timestamp: String,
    pub price: String,
    pub volume: Option<String>,
}

} // verus!
