//! Error taxonomy of the library.
//!
//! Validation failures (`InvalidOrder`, `InvalidToken`) are never retried;
//! `ConfigError` is fatal at construction; `ApiError` and `NetworkError` are
//! surfaced verbatim so the caller owns the retry decision; `AuthError` is
//! raised before any network or cryptographic work.

use vstd::prelude::*;

verus! {

/// Machine-readable error category.
#[derive(Debug, Clone, Copy, PartialEq, Eq, Structural, Hash)]
pub enum PolymarketErrorCode {
    InvalidMarket,
    InvalidToken,
    InvalidOrder,
    InsufficientFunds,
    MarketClosed,
    ApiError,
    WebSocketError,
    AuthError,
    ConfigError,
    ClientNotInitialized,
    ParseError,
    NetworkError,
}

/// The upper-case label of each error category.
pub open spec fn spec_label(code: PolymarketErrorCode) -> Seq<char> {
    match code {
        PolymarketErrorCode::InvalidMarket => "INVALID_MARKET"@,
        PolymarketErrorCode::InvalidToken => "INVALID_TOKEN"@,
        PolymarketErrorCode::InvalidOrder => "INVALID_ORDER"@,
        PolymarketErrorCode::InsufficientFunds => "INSUFFICIENT_FUNDS"@,
        PolymarketErrorCode::MarketClosed => "MARKET_CLOSED"@,
        PolymarketErrorCode::ApiError => "API_ERROR"@,
        PolymarketErrorCode::WebSocketError => "WEBSOCKET_ERROR"@,
        PolymarketErrorCode::AuthError => "AUTH_ERROR"@,
        PolymarketErrorCode::ConfigError => "CONFIG_ERROR"@,
        PolymarketErrorCode::ClientNotInitialized => "CLIENT_NOT_INITIALIZED"@,
        PolymarketErrorCode::ParseError => "PARSE_ERROR"@,
        PolymarketErrorCode::NetworkError => "NETWORK_ERROR"@,
    }
}

impl PolymarketErrorCode {
    /// Stable upper-case label of the category.
    pub fn label(&self) -> (r: &'static str)
        ensures
            r@ == spec_label(*self),
    {
        match self {
            PolymarketErrorCode::InvalidMarket => "INVALID_MARKET",
            PolymarketErrorCode::InvalidToken => "INVALID_TOKEN",
            PolymarketErrorCode::InvalidOrder => "INVALID_ORDER",
            PolymarketErrorCode::InsufficientFunds => "INSUFFICIENT_FUNDS",
            PolymarketErrorCode::MarketClosed => "MARKET_CLOSED",
            PolymarketErrorCode::ApiError => "API_ERROR",
            PolymarketErrorCode::WebSocketError => "WEBSOCKET_ERROR",
            PolymarketErrorCode::AuthError => "AUTH_ERROR",
            PolymarketErrorCode::ConfigError => "CONFIG_ERROR",
            PolymarketErrorCode::ClientNotInitialized => "CLIENT_NOT_INITIALIZED",
            PolymarketErrorCode::ParseError => "PARSE_ERROR",
            PolymarketErrorCode::NetworkError => "NETWORK_ERROR",
        }
    }
}

/// An error with its category, a human-readable message, and optionally the
/// text of an underlying cause.
#[derive(Debug, Clone)]
pub struct PolymarketError {
    pub code: PolymarketErrorCode,
    pub message: String,
    pub cause: Option<String>,
}

impl PolymarketError {
    /// Build an error from a category and a message.
    pub fn new(code: PolymarketErrorCode, message: String) -> (r: Self)
        ensures
            r.code == code,
            r.message@ == message@,
            r.cause is None,
    {
        PolymarketError { code, message, cause: None }
    }

    /// Build an error that records the text of an underlying cause.
    pub fn with_cause(code: PolymarketErrorCode, message: String, cause: String) -> (r: Self)
        ensures
            r.code == code,
            r.message@ == message@,
            r.cause matches Some(c) && c@ == cause@,
    {
        PolymarketError { code, message, cause: Some(cause) }
    }

    /// An `InvalidMarket` error.
    pub fn invalid_market(message: String) -> (r: Self)
        ensures
            r.code is InvalidMarket,
            r.message@ == message@,
            r.cause is None,
    {
        Self::new(PolymarketErrorCode::InvalidMarket, message)
    }

    /// An `InvalidToken` error.
    pub fn invalid_token(message: String) -> (r: Self)
        ensures
            r.code is InvalidToken,
            r.message@ == message@,
            r.cause is None,
    {
        Self::new(PolymarketErrorCode::InvalidToken, message)
    }

    /// An `InvalidOrder` error.
    pub fn invalid_order(message: String) -> (r: Self)
        ensures
            r.code is InvalidOrder,
            r.message@ == message@,
            r.cause is None,
    {
        Self::new(PolymarketErrorCode::InvalidOrder, message)
    }

    /// An `ApiError` error.
    pub fn api_error(message: String) -> (r: Self)
        ensures
            r.code is ApiError,
            r.message@ == message@,
            r.cause is None,
    {
        Self::new(PolymarketErrorCode::ApiError, message)
    }

    /// A `ConfigError` error.
    pub fn config_error(message: String) -> (r: Self)
        ensures
            r.code is ConfigError,
            r.message@ == message@,
            r.cause is None,
    {
        Self::new(PolymarketErrorCode::ConfigError, message)
    }

    /// A `NetworkError` error.
    pub fn network_error(message: String) -> (r: Self)
        ensures
            r.code is NetworkError,
            r.message@ == message@,
            r.cause is None,
    {
        Self::new(PolymarketErrorCode::NetworkError, message)
    }

    /// An `AuthError` error.
    pub fn auth_error(message: String) -> (r: Self)
        ensures
            r.code is AuthError,
            r.message@ == message@,
            r.cause is None,
    {
        Self::new(PolymarketErrorCode::AuthError, message)
    }

    /// Renders the error as `[CODE] message`.
    pub fn display_text(&self) -> (r: String)
        ensures
            r@ == "["@ + spec_label(self.code) + "] "@ + self.message@,
    {
        let mut s = String::new();
        s.append("[");
        s.append(self.code.label());
        s.append("] ");
        s.append(self.message.as_str());
        s
    }
}

} // verus!
