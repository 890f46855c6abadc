//! Tests of the plain data types: labels, defaults and the error display.

use polymarket::constants::POLYGON_CHAIN_ID;
use polymarket::entropy::{expiration_after, THIRTY_DAYS_SECS};
use polymarket::error::{PolymarketError, PolymarketErrorCode};
use polymarket::types::{GetTradesParams, MarketFilters, OrderSide, OrderType};

#[test]
fn test_client_address_parsing() {
    assert_eq!(POLYGON_CHAIN_ID, 137);
}

#[test]
fn test_order_side_display() {
    assert_eq!(OrderSide::Buy.label(), "BUY");
    assert_eq!(OrderSide::Sell.label(), "SELL");
}

#[test]
fn test_order_type_default() {
    let order_type = OrderType::default();
    assert_eq!(order_type, OrderType::Gtc);
}

#[test]
fn test_order_type_display() {
    assert_eq!(OrderType::Gtc.label(), "GTC");
    assert_eq!(OrderType::Fok.label(), "FOK");
    assert_eq!(OrderType::Gtd.label(), "GTD");
    assert_eq!(OrderType::Fak.label(), "FAK");
}

#[test]
fn markets_test_market_filters_default() {
    let filters = MarketFilters::default();
    assert!(filters.category.is_none());
    assert!(filters.active.is_none());
    assert!(filters.limit.is_none());
}

#[test]
fn integration_tests_test_market_filters_default() {
    let filters = MarketFilters::default();
    assert!(filters.category.is_none());
    assert!(filters.active.is_none());
    assert!(filters.limit.is_none());
}

#[test]
fn test_get_trades_params_default() {
    let params = GetTradesParams::default();
    assert!(params.user_address.is_none());
    assert!(params.market_id.is_none());
    assert!(params.limit.is_none());
}

#[test]
fn test_provider_metadata() {
    let provider = polymarket::provider::PolymarketProvider;
    assert_eq!(provider.name(), "POLYMARKET_PROVIDER");
    assert!(provider.description().contains("Polymarket"));
}

#[test]
fn test_provider_features() {
    let base = polymarket::provider::features_available(false, false);
    assert_eq!(base, vec!["market_data", "price_feeds", "order_book"]);
    let full = polymarket::provider::features_available(true, true);
    assert_eq!(
        full,
        vec![
            "market_data",
            "price_feeds",
            "order_book",
            "wallet_operations",
            "authenticated_requests"
        ]
    );
}

#[test]
fn test_expiration_after() {
    assert_eq!(THIRTY_DAYS_SECS, 2_592_000);
    assert_eq!(expiration_after(0), 2_592_000);
    assert_eq!(expiration_after(1_700_000_000), 1_702_592_000);
    assert_eq!(expiration_after(u64::MAX - 2_592_000), u64::MAX);
    assert_eq!(expiration_after(u64::MAX - 2_591_999), u64::MAX);
    assert_eq!(expiration_after(u64::MAX), u64::MAX);
}

#[test]
fn test_error_display_text() {
    let e = PolymarketError::invalid_order("Price must be between 0 and 1".to_string());
    assert_eq!(e.code, PolymarketErrorCode::InvalidOrder);
    assert_eq!(e.display_text(), "[INVALID_ORDER] Price must be between 0 and 1");
    let e = PolymarketError::auth_error("missing credentials".to_string());
    assert_eq!(e.display_text(), "[AUTH_ERROR] missing credentials");
}

#[test]
fn test_authentication_status() {
    assert_eq!(
        polymarket::account::authentication_status(true, false),
        (true, false, false, false, false)
    );
    assert_eq!(
        polymarket::account::authentication_status(true, true),
        (true, true, true, true, true)
    );
    let status = polymarket::account::get_account_access_status();
    assert!(status.cert_required.is_none());
    assert!(status.api_keys.is_empty());
    assert!(status.active_session_key_id.is_none());
}
