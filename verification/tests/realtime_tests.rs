//! Tests of websocket request validation and of query-string encoding.

use polymarket::error::PolymarketErrorCode;
use polymarket::realtime::{handle_realtime_updates, setup_websocket, SubscriptionStatus};
use polymarket::search::url_encode;

#[test]
fn test_setup_websocket_empty_url() {
    let channels: Vec<String> = vec![];
    let asset_ids: Vec<String> = vec![];
    let err = setup_websocket("", &channels, &asset_ids, false).unwrap_err();
    assert!(err.display_text().contains("WebSocket URL is required"));
}

#[test]
fn test_setup_websocket_invalid_channel() {
    let channels = vec!["nope".to_string()];
    let asset_ids: Vec<String> = vec![];
    let err = setup_websocket("wss://example.com/ws", &channels, &asset_ids, false).unwrap_err();
    assert!(err.display_text().contains("Invalid channel"));
}

#[test]
fn test_setup_websocket_valid() {
    let channels = vec!["book".to_string(), "price".to_string()];
    let asset_ids = vec!["123".to_string()];
    let config = setup_websocket("wss://example.com/ws", &channels, &asset_ids, true).unwrap();
    assert_eq!(config.url, "wss://example.com/ws");
    assert_eq!(config.channels, channels);
    assert_eq!(config.asset_ids, asset_ids);
    assert!(config.authenticated);
    assert_eq!(config.status, SubscriptionStatus::Disconnected);
    let no_channels: Vec<String> = vec![];
    let err = setup_websocket("wss://example.com/ws", &no_channels, &asset_ids, false).unwrap_err();
    assert_eq!(err.code, PolymarketErrorCode::ConfigError);
}

#[test]
fn test_handle_realtime_updates_invalid_action() {
    let err = handle_realtime_updates("nope", None, None).unwrap_err();
    assert!(err.display_text().contains("Invalid action"));
}

#[test]
fn test_handle_realtime_updates_messages() {
    let ids = vec!["a".to_string(), "b".to_string()];
    let m = handle_realtime_updates("subscribe", Some("book"), Some(&ids)).unwrap();
    assert_eq!(m, "Subscribed to book channel for assets: a, b");
    let m = handle_realtime_updates("unsubscribe", Some("price"), None).unwrap();
    assert_eq!(m, "Unsubscribed from price channel");
    let m = handle_realtime_updates("status", None, None).unwrap();
    assert!(m.contains("WebSocket status"));
    let empty: Vec<String> = vec![];
    let err = handle_realtime_updates("subscribe", Some("book"), Some(&empty)).unwrap_err();
    assert_eq!(err.code, PolymarketErrorCode::ConfigError);
    let err = handle_realtime_updates("subscribe", None, Some(&ids)).unwrap_err();
    assert_eq!(err.code, PolymarketErrorCode::ConfigError);
    let err = handle_realtime_updates("subscribe", Some("book"), None).unwrap_err();
    assert_eq!(err.code, PolymarketErrorCode::ConfigError);
    let err = handle_realtime_updates("unsubscribe", None, None).unwrap_err();
    assert_eq!(err.code, PolymarketErrorCode::ConfigError);
}

#[test]
fn test_url_encode() {
    assert_eq!(url_encode("miami heat"), "miami%20heat");
    assert_eq!(url_encode("a&b=c?d#e+f"), "a%26b%3Dc%3Fd%23e%2Bf");
    assert_eq!(url_encode("safe-chars_.~123abcXYZ"), "safe-chars_.~123abcXYZ");
    assert_eq!(url_encode("caf\u{e9}"), "caf%E9");
    assert_eq!(url_encode("\u{7}"), "%07");
}
