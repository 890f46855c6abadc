//! Tests of order validation, amount conversion, and end-to-end order
//! signing with signature recovery against the real backend.

use alloy::primitives::B256;
use polymarket::constants::ctf_exchange_address_bytes;
use polymarket::eip712::{order_struct_hash, typed_digest, OrderMessage, SigningDomain};
use polymarket::error::PolymarketErrorCode;
use polymarket::orders::{order_amounts, validate_order_params, OrderBuilder};
use polymarket::types::{OrderParams, OrderSide, OrderType};
use polymarket::uint256::{parse_u256_dec, u256_to_be_bytes};

const TEST_KEY: &str = "0x0000000000000000000000000000000000000000000000000000000000000001";

fn params(side: OrderSide, price_micros: u64, size_micros: u64) -> OrderParams {
    OrderParams {
        token_id: "123".to_string(),
        side,
        price_micros,
        size_micros,
        order_type: OrderType::Gtc,
        fee_rate_bps: 0,
        expiration: Some(1_700_000_000),
        nonce: Some(9),
    }
}

#[test]
fn test_buy_amounts() {
    // price 0.45, size 100
    let (maker, taker) = order_amounts(OrderSide::Buy, 450_000, 100_000_000);
    assert_eq!(maker, 45_000_000);
    assert_eq!(taker, 100_000_000);
}

#[test]
fn test_sell_amounts() {
    let (maker, taker) = order_amounts(OrderSide::Sell, 450_000, 100_000_000);
    assert_eq!(maker, 100_000_000);
    assert_eq!(taker, 45_000_000);
}

#[test]
fn test_amount_truncation() {
    // price 0.333333, size 0.000001: collateral truncates toward zero
    let (maker, taker) = order_amounts(OrderSide::Buy, 333_333, 1);
    assert_eq!(maker, 0);
    assert_eq!(taker, 1);
}

#[test]
fn test_signed_order_amount_strings() {
    let builder = OrderBuilder::new(TEST_KEY, false).expect("valid key");
    let buy = builder
        .sign_order_with(&params(OrderSide::Buy, 450_000, 100_000_000), 1, 1_700_000_000, 9)
        .expect("signed");
    assert_eq!(buy.maker_amount, "45000000");
    assert_eq!(buy.taker_amount, "100000000");
    assert_eq!(buy.side, "0");
    let sell = builder
        .sign_order_with(&params(OrderSide::Sell, 450_000, 100_000_000), 1, 1_700_000_000, 9)
        .expect("signed");
    assert_eq!(sell.maker_amount, "100000000");
    assert_eq!(sell.taker_amount, "45000000");
    assert_eq!(sell.side, "1");
}

#[test]
fn test_invalid_price_and_size_rejected() {
    let builder = OrderBuilder::new(TEST_KEY, false).expect("valid key");
    // price 0
    let e = builder
        .sign_order_with(&params(OrderSide::Buy, 0, 100_000_000), 1, 1_700_000_000, 9)
        .unwrap_err();
    assert_eq!(e.code, PolymarketErrorCode::InvalidOrder);
    // price 1.5
    let e = builder
        .sign_order_with(&params(OrderSide::Buy, 1_500_000, 100_000_000), 1, 1_700_000_000, 9)
        .unwrap_err();
    assert_eq!(e.code, PolymarketErrorCode::InvalidOrder);
    // size 0
    let e = builder
        .sign_order_with(&params(OrderSide::Buy, 450_000, 0), 1, 1_700_000_000, 9)
        .unwrap_err();
    assert_eq!(e.code, PolymarketErrorCode::InvalidOrder);
    // price exactly 1 is allowed
    assert!(validate_order_params(&params(OrderSide::Buy, 1_000_000, 1)).is_ok());
}

#[test]
fn test_invalid_token_rejected() {
    let builder = OrderBuilder::new(TEST_KEY, false).expect("valid key");
    let mut p = params(OrderSide::Buy, 450_000, 100_000_000);
    p.token_id = "not-a-number".to_string();
    let e = builder.sign_order_with(&p, 1, 1_700_000_000, 9).unwrap_err();
    assert_eq!(e.code, PolymarketErrorCode::InvalidToken);
    // validation precedes the token check
    let mut p = params(OrderSide::Buy, 0, 100_000_000);
    p.token_id = "not-a-number".to_string();
    let e = builder.sign_order_with(&p, 1, 1_700_000_000, 9).unwrap_err();
    assert_eq!(e.code, PolymarketErrorCode::InvalidOrder);
}

#[test]
fn test_invalid_key_rejected_at_construction() {
    let e = match OrderBuilder::new("0xnope", false) {
        Ok(_) => panic!("malformed key accepted"),
        Err(e) => e,
    };
    assert_eq!(e.code, PolymarketErrorCode::ConfigError);
}

#[test]
fn test_signed_order_wire_fields() {
    let builder = OrderBuilder::new(TEST_KEY, false).expect("valid key");
    let p = params(OrderSide::Buy, 450_000, 100_000_000);
    let so = builder.sign_order_with(&p, 5, 1_700_000_000, 9).expect("signed");
    assert_eq!(so.salt, "5");
    assert_eq!(so.maker, "0x7e5f4552091a69125d5dfcb7b8c2659029395bdf");
    assert_eq!(so.signer, so.maker);
    assert_eq!(so.taker, "0x0000000000000000000000000000000000000000");
    assert_eq!(so.token_id, "123");
    assert_eq!(so.expiration, "1700000000");
    assert_eq!(so.nonce, "9");
    assert_eq!(so.fee_rate_bps, "0");
    assert_eq!(so.signature_type, 0);
    assert!(so.signature.starts_with("0x"));
    assert_eq!(so.signature.len(), 2 + 130);
}

#[test]
fn test_distinct_salts_distinct_signatures_same_maker() {
    let builder = OrderBuilder::new(TEST_KEY, false).expect("valid key");
    let p = params(OrderSide::Buy, 450_000, 100_000_000);
    let o1 = builder.sign_order_with(&p, 1, 1_700_000_000, 9).expect("signed");
    let o2 = builder.sign_order_with(&p, 2, 1_700_000_000, 9).expect("signed");
    assert_ne!(o1.signature, o2.signature);
    assert_ne!(o1.salt, o2.salt);
    assert_eq!(o1.maker, o2.maker);
    assert_eq!(o1.signer, o2.signer);

    // both signatures recover to the same maker address
    for order in [&o1, &o2] {
        let salt: u64 = order.salt.parse().unwrap();
        let message = OrderMessage {
            salt,
            maker: hex::decode(&order.maker[2..]).unwrap(),
            signer: hex::decode(&order.signer[2..]).unwrap(),
            taker: hex::decode(&order.taker[2..]).unwrap(),
            token_id: u256_to_be_bytes(&parse_u256_dec(&order.token_id).unwrap()),
            maker_amount: order.maker_amount.parse().unwrap(),
            taker_amount: order.taker_amount.parse().unwrap(),
            expiration: order.expiration.parse().unwrap(),
            nonce: order.nonce.parse().unwrap(),
            fee_rate_bps: order.fee_rate_bps.parse().unwrap(),
            side: order.side.parse().unwrap(),
            signature_type: order.signature_type,
        };
        let sh = order_struct_hash(&message);
        let domain = SigningDomain {
            name: "Polymarket CTF Exchange".to_string(),
            version: "1".to_string(),
            chain_id: 137,
            verifying_contract: ctf_exchange_address_bytes(),
        };
        let digest = typed_digest(&domain, &sh);
        let sig_bytes = hex::decode(&order.signature[2..]).unwrap();
        let signature = alloy::primitives::Signature::from_raw(&sig_bytes).unwrap();
        let recovered = signature
            .recover_address_from_prehash(&B256::from_slice(&digest))
            .unwrap();
        assert_eq!(format!("{:?}", recovered).to_lowercase(), order.maker);
    }
}

#[test]
fn test_create_and_sign_order_defaults() {
    let builder = OrderBuilder::new(TEST_KEY, true).expect("valid key");
    let mut p = params(OrderSide::Sell, 500_000, 2_000_000);
    p.expiration = None;
    p.nonce = None;
    let so = builder.create_and_sign_order(&p).expect("signed");
    assert_eq!(so.maker_amount, "2000000");
    assert_eq!(so.taker_amount, "1000000");
    assert_eq!(so.side, "1");
    assert_eq!(so.signature_type, 0);
    let expiration: u64 = so.expiration.parse().unwrap();
    assert!(expiration > 1_700_000_000);
}

#[test]
fn test_exchange_address_by_risk_flavor() {
    let standard = OrderBuilder::new(TEST_KEY, false).unwrap();
    let neg_risk = OrderBuilder::new(TEST_KEY, true).unwrap();
    assert_ne!(standard.exchange_address(), neg_risk.exchange_address());
    assert_ne!(standard.domain_separator(), neg_risk.domain_separator());
    let p = params(OrderSide::Buy, 450_000, 100_000_000);
    let o1 = standard.sign_order_with(&p, 1, 1_700_000_000, 9).unwrap();
    let o2 = neg_risk.sign_order_with(&p, 1, 1_700_000_000, 9).unwrap();
    assert_ne!(o1.signature, o2.signature);
}
