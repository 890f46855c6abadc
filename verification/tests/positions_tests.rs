//! Tests of the position reconciler: the accounting fold, the dust
//! threshold, robustness to malformed records, and oracle isolation.

use polymarket::fixed_point::{parse_micros, price_micros, signed_fixed6_string, size_micros};
use polymarket::positions::{position_from_figures, reconcile, reconcile_positions};
use polymarket::types::{OrderSide, TradeEntry};

fn trade(token: &str, market: &str, side: OrderSide, price: &str, size: &str) -> TradeEntry {
    TradeEntry {
        trade_id: "t".to_string(),
        order_id: "o".to_string(),
        user_id: "u".to_string(),
        market_id: market.to_string(),
        token_id: token.to_string(),
        side,
        trade_type: "TAKER".to_string(),
        price: price.to_string(),
        size: size.to_string(),
        fees_paid: "0".to_string(),
        timestamp: "0".to_string(),
        tx_hash: "0x0".to_string(),
    }
}

#[test]
fn test_reconcile_buys_and_sell() {
    // buy 10 @ 0.40, buy 10 @ 0.60, sell 15 @ 0.70 on one instrument:
    // net 5, average 0.50, realized 15*0.70 - 15*0.50 = 3.00
    let trades = vec![
        trade("tok", "mkt", OrderSide::Buy, "0.40", "10"),
        trade("tok", "mkt", OrderSide::Buy, "0.60", "10"),
        trade("tok", "mkt", OrderSide::Sell, "0.70", "15"),
    ];
    let figures = reconcile(&trades);
    assert_eq!(figures.len(), 1);
    assert_eq!(figures[0].asset_id, "tok");
    assert_eq!(figures[0].market, "mkt");
    assert_eq!(figures[0].net_micros, 5_000_000);
    assert_eq!(figures[0].avg_price_micros, 500_000);
    assert_eq!(figures[0].realized_pnl_pico, 3_000_000_000_000);

    let positions = reconcile_positions(&trades);
    assert_eq!(positions.len(), 1);
    assert_eq!(positions[0].size, "5.000000");
    assert_eq!(positions[0].average_price, "0.5000");
    assert_eq!(positions[0].realized_pnl, "3.0000");
    assert_eq!(positions[0].unrealized_pnl, "0.0000");
}

#[test]
fn test_reconcile_prunes_flat_positions() {
    // buy 10 @ 0.5 then sell 10 @ 0.6 nets to zero: nothing is emitted
    let trades = vec![
        trade("tok", "mkt", OrderSide::Buy, "0.5", "10"),
        trade("tok", "mkt", OrderSide::Sell, "0.6", "10"),
    ];
    assert!(reconcile(&trades).is_empty());
    assert!(reconcile_positions(&trades).is_empty());
}

#[test]
fn test_dust_threshold_boundary() {
    // exactly one ten-thousandth is emitted; just below is pruned
    let at = vec![trade("tok", "mkt", OrderSide::Buy, "0.5", "0.0001")];
    assert_eq!(reconcile(&at).len(), 1);
    let below = vec![trade("tok", "mkt", OrderSide::Buy, "0.5", "0.000099")];
    assert!(reconcile(&below).is_empty());
    // a short position is emitted too
    let short = vec![trade("tok", "mkt", OrderSide::Sell, "0.5", "2")];
    let figures = reconcile(&short);
    assert_eq!(figures.len(), 1);
    assert_eq!(figures[0].net_micros, -2_000_000);
    let positions = reconcile_positions(&short);
    assert_eq!(positions[0].size, "-2.000000");
    // no prior buys: zero cost basis, realized equals the proceeds
    assert_eq!(figures[0].avg_price_micros, 0);
    assert_eq!(positions[0].realized_pnl, "1.0000");
}

#[test]
fn test_malformed_record_degrades_to_zero() {
    // an unparsable price contributes nothing but the batch goes on
    let trades = vec![
        trade("tok", "mkt", OrderSide::Buy, "garbage", "10"),
        trade("tok", "mkt", OrderSide::Sell, "0.5", "5"),
    ];
    let figures = reconcile(&trades);
    assert_eq!(figures.len(), 1);
    assert_eq!(figures[0].net_micros, 5_000_000);
    assert_eq!(figures[0].avg_price_micros, 0);
    assert_eq!(figures[0].realized_pnl_pico, 2_500_000_000_000);
    // a price outside [0, 1] contributes nothing either
    let trades = vec![
        trade("tok", "mkt", OrderSide::Buy, "1.5", "10"),
        trade("tok", "mkt", OrderSide::Buy, "0.5", "10"),
    ];
    let figures = reconcile(&trades);
    assert_eq!(figures[0].avg_price_micros, 250_000);
}

#[test]
fn test_instruments_in_first_seen_order() {
    let trades = vec![
        trade("b", "mb", OrderSide::Buy, "0.5", "1"),
        trade("a", "ma", OrderSide::Buy, "0.5", "2"),
        trade("b", "mb2", OrderSide::Buy, "0.5", "3"),
    ];
    let figures = reconcile(&trades);
    assert_eq!(figures.len(), 2);
    assert_eq!(figures[0].asset_id, "b");
    assert_eq!(figures[0].market, "mb");
    assert_eq!(figures[0].net_micros, 4_000_000);
    assert_eq!(figures[1].asset_id, "a");
    assert_eq!(figures[1].market, "ma");
}

#[test]
fn test_oracle_failure_isolated_per_instrument() {
    // one instrument's oracle fails; the other is marked; realized figures
    // are reported for both
    let trades = vec![
        trade("one", "m1", OrderSide::Buy, "0.40", "10"),
        trade("one", "m1", OrderSide::Buy, "0.60", "10"),
        trade("one", "m1", OrderSide::Sell, "0.70", "15"),
        trade("two", "m2", OrderSide::Buy, "0.25", "4"),
    ];
    let figures = reconcile(&trades);
    assert_eq!(figures.len(), 2);
    let marked = position_from_figures(&figures[0], Some("0.70"));
    let unmarked = position_from_figures(&figures[1], None);
    assert_eq!(marked.realized_pnl, "3.0000");
    assert_eq!(marked.unrealized_pnl, "1.0000");
    assert_eq!(unmarked.realized_pnl, "0.0000");
    assert_eq!(unmarked.unrealized_pnl, "0.0000");
    assert_eq!(unmarked.average_price, "0.2500");
    assert_eq!(unmarked.size, "4.000000");
}

#[test]
fn test_marking_rules() {
    let trades = vec![
        trade("one", "m1", OrderSide::Buy, "0.40", "10"),
        trade("two", "m2", OrderSide::Sell, "0.40", "10"),
    ];
    let figures = reconcile(&trades);
    // a long position marked below its entry carries a negative unrealized
    let long = position_from_figures(&figures[0], Some("0.30"));
    assert_eq!(long.unrealized_pnl, "-1.0000");
    // a short position is never marked
    let short = position_from_figures(&figures[1], Some("0.30"));
    assert_eq!(short.unrealized_pnl, "0.0000");
    // an unparsable mid counts as a zero price
    let zeroed = position_from_figures(&figures[0], Some("n/a"));
    assert_eq!(zeroed.unrealized_pnl, "-4.0000");
}

#[test]
fn test_parse_micros_grammar() {
    assert_eq!(parse_micros("0.45"), Some(450_000));
    assert_eq!(parse_micros("100"), Some(100_000_000));
    assert_eq!(parse_micros("5."), Some(5_000_000));
    assert_eq!(parse_micros("0.1234567"), Some(123_456));
    assert_eq!(parse_micros("0"), Some(0));
    assert_eq!(parse_micros(".5"), None);
    assert_eq!(parse_micros(""), None);
    assert_eq!(parse_micros("1.2.3"), None);
    assert_eq!(parse_micros("1e3"), None);
    assert_eq!(parse_micros("-1"), None);
    assert_eq!(parse_micros("99999999999999999999999999"), None);
    assert_eq!(price_micros("1.5"), 0);
    assert_eq!(price_micros("1.000000"), 1_000_000);
    assert_eq!(size_micros("garbage"), 0);
    assert_eq!(size_micros("2.5"), 2_500_000);
}

#[test]
fn test_fixed_point_rendering() {
    assert_eq!(signed_fixed6_string(-5_000_000), "-5.000000");
    assert_eq!(signed_fixed6_string(0), "0.000000");
    assert_eq!(signed_fixed6_string(1), "0.000001");
    assert_eq!(signed_fixed6_string(1_234_567), "1.234567");
}
