//! Tests of the typed-data hashing and signing pipeline, run against the
//! real Keccak and secp256k1 backends.

use alloy::primitives::B256;
use alloy::signers::local::PrivateKeySigner;
use polymarket::account::derive_address_hex;
use polymarket::auth::ApiKeyCreator;
use polymarket::constants::{ctf_exchange_address_bytes, zero_address_bytes, POLYGON_CHAIN_ID};
use polymarket::eip712::{
    auth_struct_hash, domain_separator, order_struct_hash, type_hash, typed_digest, AuthMessage,
    OrderMessage, SigningDomain,
};
use polymarket::encoding::hex_0x;
use polymarket::uint256::{parse_u256_dec, u256_to_be_bytes};

/// A throwaway test key: the scalar 1.
const TEST_KEY: &str = "0x0000000000000000000000000000000000000000000000000000000000000001";

fn test_message() -> OrderMessage {
    OrderMessage {
        salt: 7,
        maker: vec![0x11; 20],
        signer: vec![0x11; 20],
        taker: vec![0; 20],
        token_id: vec![0x22; 32],
        maker_amount: 45_000_000,
        taker_amount: 100_000_000,
        expiration: 1_700_000_000,
        nonce: 3,
        fee_rate_bps: 0,
        side: 0,
        signature_type: 0,
    }
}

#[test]
fn test_keccak_empty_is_known_constant() {
    let digest = type_hash("");
    assert_eq!(
        hex_0x(&digest),
        "0xc5d2460186f7233c927e7db2dcc703c0e500b653ca82273b7bfad8045d85a470"
    );
}

#[test]
fn test_keccak_matches_backend() {
    let ours = type_hash("typed data");
    let theirs = alloy::primitives::keccak256(b"typed data");
    assert_eq!(ours.as_slice(), theirs.as_slice());
}

#[test]
fn test_digest_deterministic() {
    let domain = || SigningDomain {
        name: "Polymarket CTF Exchange".to_string(),
        version: "1".to_string(),
        chain_id: POLYGON_CHAIN_ID,
        verifying_contract: ctf_exchange_address_bytes(),
    };
    let h1 = order_struct_hash(&test_message());
    let h2 = order_struct_hash(&test_message());
    assert_eq!(h1, h2);
    let d1 = typed_digest(&domain(), &h1);
    let d2 = typed_digest(&domain(), &h2);
    assert_eq!(d1, d2);
    assert_eq!(d1.len(), 32);
}

#[test]
fn test_struct_hash_changes_with_every_field() {
    let base = order_struct_hash(&test_message());
    let variants: Vec<OrderMessage> = vec![
        OrderMessage { salt: 8, ..test_message() },
        OrderMessage { maker: vec![0x12; 20], ..test_message() },
        OrderMessage { signer: vec![0x12; 20], ..test_message() },
        OrderMessage { taker: vec![0x01; 20], ..test_message() },
        OrderMessage { token_id: vec![0x23; 32], ..test_message() },
        OrderMessage { maker_amount: 45_000_001, ..test_message() },
        OrderMessage { taker_amount: 100_000_001, ..test_message() },
        OrderMessage { expiration: 1_700_000_001, ..test_message() },
        OrderMessage { nonce: 4, ..test_message() },
        OrderMessage { fee_rate_bps: 1, ..test_message() },
        OrderMessage { side: 1, ..test_message() },
        OrderMessage { signature_type: 1, ..test_message() },
    ];
    for variant in &variants {
        assert_ne!(order_struct_hash(variant), base);
    }
}

#[test]
fn test_padding_direction_of_enum_fields() {
    // the side byte sits in the lowest byte of its word: flipping it must
    // not collide with flipping the high bytes of a neighbouring field
    let m_side = OrderMessage { side: 1, ..test_message() };
    let m_fee = OrderMessage { fee_rate_bps: 256, ..test_message() };
    assert_ne!(order_struct_hash(&m_side), order_struct_hash(&m_fee));
}

#[test]
fn test_domain_separator_differs_by_contract() {
    let standard = SigningDomain {
        name: "Polymarket CTF Exchange".to_string(),
        version: "1".to_string(),
        chain_id: POLYGON_CHAIN_ID,
        verifying_contract: ctf_exchange_address_bytes(),
    };
    let null = SigningDomain {
        name: "Polymarket CTF Exchange".to_string(),
        version: "1".to_string(),
        chain_id: POLYGON_CHAIN_ID,
        verifying_contract: zero_address_bytes(),
    };
    assert_ne!(domain_separator(&standard), domain_separator(&null));
}

#[test]
fn test_derive_address_matches_backend() {
    let ours = derive_address_hex(TEST_KEY).expect("valid key");
    let signer: PrivateKeySigner = TEST_KEY.parse().expect("valid key");
    let theirs = format!("{:?}", signer.address());
    assert_eq!(ours, theirs.to_lowercase());
    assert_eq!(ours, "0x7e5f4552091a69125d5dfcb7b8c2659029395bdf");
}

#[test]
fn test_derive_address_rejects_malformed_key() {
    assert!(derive_address_hex("0x1234").is_err());
    assert!(derive_address_hex("not hex").is_err());
    let e = derive_address_hex("").unwrap_err();
    assert_eq!(e.code, polymarket::error::PolymarketErrorCode::ConfigError);
}

#[test]
fn test_auth_payload_fields_and_recovery() {
    let creator = ApiKeyCreator::new(TEST_KEY, None).expect("valid key");
    assert_eq!(creator.base_url(), "https://clob.polymarket.com");
    let payload = creator.build_auth_payload(1_700_000_000, 42).expect("signed");
    assert_eq!(payload.address, "0x7e5f4552091a69125d5dfcb7b8c2659029395bdf");
    assert_eq!(payload.timestamp, "1700000000");
    assert_eq!(payload.nonce, "42");
    assert!(payload.signature.starts_with("0x"));
    assert_eq!(payload.signature.len(), 2 + 130);

    // recover the signer from the challenge digest
    let message = AuthMessage {
        address: hex::decode(&payload.address[2..]).unwrap(),
        timestamp: 1_700_000_000,
        nonce: 42,
    };
    let sh = auth_struct_hash(&message);
    let domain = SigningDomain {
        name: "ClobAuthDomain".to_string(),
        version: "1".to_string(),
        chain_id: POLYGON_CHAIN_ID,
        verifying_contract: zero_address_bytes(),
    };
    let digest = typed_digest(&domain, &sh);
    let sig_bytes = hex::decode(&payload.signature[2..]).unwrap();
    let signature = alloy::primitives::Signature::from_raw(&sig_bytes).unwrap();
    let recovered = signature
        .recover_address_from_prehash(&B256::from_slice(&digest))
        .unwrap();
    assert_eq!(format!("{:?}", recovered).to_lowercase(), payload.address);
}

#[test]
fn test_auth_base_url_trimmed() {
    let creator = ApiKeyCreator::new(TEST_KEY, Some("https://clob.example.com///")).unwrap();
    assert_eq!(creator.base_url(), "https://clob.example.com");
}

#[test]
fn test_token_word_roundtrip() {
    let max = "115792089237316195423570985008687907853269984665640564039457584007913129639935";
    let w = parse_u256_dec(max).expect("fits in 256 bits");
    let bytes = u256_to_be_bytes(&w);
    assert_eq!(bytes, vec![0xffu8; 32]);
    assert_eq!(polymarket::uint256::u256_to_dec_string(&w), max);

    let over = "115792089237316195423570985008687907853269984665640564039457584007913129639936";
    assert!(parse_u256_dec(over).is_none());

    let w7 = parse_u256_dec("007").expect("leading zeros accepted");
    assert_eq!(polymarket::uint256::u256_to_dec_string(&w7), "7");
    let mut word7 = vec![0u8; 32];
    word7[31] = 7;
    assert_eq!(u256_to_be_bytes(&w7), word7);

    assert!(parse_u256_dec("").is_none());
    assert!(parse_u256_dec("12a").is_none());
    assert!(parse_u256_dec("0x12").is_none());
}

#[test]
fn test_token_word_matches_backend() {
    let numeral = "98765432109876543210987654321098765432109876543210";
    let w = parse_u256_dec(numeral).expect("fits in 256 bits");
    let ours = u256_to_be_bytes(&w);
    let theirs =
        alloy::primitives::U256::from_str_radix(numeral, 10).unwrap().to_be_bytes::<32>();
    assert_eq!(ours.as_slice(), theirs.as_slice());
}
