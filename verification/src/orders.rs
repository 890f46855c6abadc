//! Order construction and signing: parameter validation, conversion of
//! decimal price and size into integer base-unit amounts, assembly of the
//! order message, and the typed-data signature over it.

use vstd::prelude::*;
use vstd::slice::slice_to_vec;
use crate::constants::{
    spec_ctf_exchange_address, spec_neg_risk_exchange_address, spec_zero_address,
    ctf_exchange_address_bytes, neg_risk_exchange_address_bytes, zero_address_bytes,
    POLYGON_CHAIN_ID,
};
use crate::crypto::{
    spec_ecdsa_sign, spec_key_address, spec_keccak256, spec_valid_signing_key, parse_key_address,
    sign_digest,
};
use crate::eip712::{
    spec_domain_preimage_parts, spec_order_fields_parts, spec_order_schema, spec_type_hash,
    spec_typed_digest_parts, OrderMessage, SigningDomain, order_struct_hash, typed_digest,
};
use crate::encoding::{spec_dec_digits, spec_hex, hex_0x, u64_to_dec_string, pow256};
use crate::entropy::{default_expiration, rand_salt};
use crate::error::PolymarketError;
use crate::types::{OrderParams, OrderSide};
use crate::uint256::{parse_u256_dec, spec_all_digits, spec_dec_value, u256_to_be_bytes,
    u256_to_dec_string};

verus! {

/// A signed order, ready for submission. Every numeric field is rendered as
/// a decimal string; addresses and the signature are `0x`-prefixed hex.
#[derive(Debug, Clone)]
pub struct SignedOrder {
    pub salt: String,
    pub maker: String,
    pub signer: String,
    pub taker: String,
    pub token_id: String,
    pub maker_amount: String,
    pub taker_amount: String,
    pub expiration: String,
    pub nonce: String,
    pub fee_rate_bps: String,
    pub side: String,
    pub signature_type: u8,
    pub signature: String,
}

/// Whether a token id names a value the exchange accepts: a non-empty
/// decimal numeral of fewer than 2^256.
pub open spec fn spec_valid_token_id(s: Seq<char>) -> bool {
    s.len() > 0 && spec_all_digits(s) && spec_dec_value(s) < pow256(32)
}

/// Whether order parameters lie in the valid domain: price in
/// (0, 1_000_000] millionths — that is, in (0, 1] — and a positive size.
pub open spec fn spec_valid_price_size(price_micros: u64, size_micros: u64) -> bool {
    0 < price_micros <= 1_000_000 && size_micros > 0
}

/// The collateral amount of an order: price times size, scaled to base
/// units, truncated toward zero.
pub open spec fn spec_collateral_amount(price_micros: u64, size_micros: u64) -> nat {
    (price_micros * size_micros / 1_000_000) as nat
}

/// The domain separator under which orders are signed: the exchange domain
/// on the given chain, with the standard or the negative-risk exchange
/// contract as verifying contract.
pub open spec fn spec_order_domain_separator(neg_risk: bool, chain_id: u64) -> Seq<u8> {
    spec_keccak256(
        spec_domain_preimage_parts(
            "Polymarket CTF Exchange"@,
            "1"@,
            chain_id,
            if neg_risk {
                spec_neg_risk_exchange_address()
            } else {
                spec_ctf_exchange_address()
            },
        ),
    )
}

/// The digest that an order signature covers, as a function of the signing
/// key, the exchange flavor, the chain, and the order's fields.
pub open spec fn spec_order_digest(
    key: Seq<char>,
    neg_risk: bool,
    chain_id: u64,
    salt: u64,
    token_word: Seq<u8>,
    maker_amount: u64,
    taker_amount: u64,
    expiration: u64,
    nonce: u64,
    fee_rate_bps: u32,
    side: u8,
) -> Seq<u8> {
    spec_typed_digest_parts(
        spec_order_domain_separator(neg_risk, chain_id),
        spec_keccak256(
            spec_type_hash(spec_order_schema()) + spec_order_fields_parts(
                salt,
                spec_key_address(key),
                spec_key_address(key),
                spec_zero_address(),
                token_word,
                maker_amount,
                taker_amount,
                expiration,
                nonce,
                fee_rate_bps,
                side,
                0,
            ),
        ),
    )
}

/// Converts price and size into the two base-unit amounts of an order.
/// A buyer pays collateral (`price * size`, scaled) and receives outcome
/// tokens (`size`, scaled); a seller is the mirror image. Truncation is
/// toward zero.
pub fn order_amounts(side: OrderSide, price_micros: u64, size_micros: u64) -> (r: (u64, u64))
    requires
        price_micros <= 1_000_000,
    ensures
        side is Buy ==> r.0 == spec_collateral_amount(price_micros, size_micros)
            && r.1 == size_micros,
        side is Sell ==> r.0 == size_micros && r.1 == spec_collateral_amount(
            price_micros,
            size_micros,
        ),
{
    proof {
        assert((price_micros as int) * (size_micros as int) <= 1_000_000 * 0xffff_ffff_ffff_ffff)
            by (nonlinear_arith)
            requires
                price_micros <= 1_000_000,
                size_micros <= 0xffff_ffff_ffff_ffffu64,
        ;
    }
    let wide: u128 = (price_micros as u128) * (size_micros as u128) / 1_000_000;
    proof {
        assert(wide <= size_micros) by (nonlinear_arith)
            requires
                price_micros <= 1_000_000,
                wide == (price_micros as u128) * (size_micros as u128) / 1_000_000,
        ;
    }
    let quote: u64 = wide as u64;
    match side {
        OrderSide::Buy => (quote, size_micros),
        OrderSide::Sell => (size_micros, quote),
    }
}

/// Checks that order parameters lie in the valid domain, returning the
/// `InvalidOrder` rejection otherwise.
pub fn validate_order_params(params: &OrderParams) -> (r: Result<(), PolymarketError>)
    ensures
        r is Ok <==> spec_valid_price_size(params.price_micros, params.size_micros),
        r matches Err(e) ==> e.code is InvalidOrder,
{
    if params.price_micros == 0 || params.price_micros > 1_000_000 {
        return Err(PolymarketError::invalid_order("Price must be between 0 and 1".to_owned()));
    }
    if params.size_micros == 0 {
        return Err(PolymarketError::invalid_order("Size must be positive".to_owned()));
    }
    Ok(())
}

/// Builds and signs orders for one signing key against one exchange flavor.
pub struct OrderBuilder {
    key: String,
    address: Vec<u8>,
    chain_id: u64,
    neg_risk: bool,
}

impl OrderBuilder {
    /// The held key parses as a signing key and the cached address is the
    /// one the key derives.
    #[verifier::type_invariant]
    spec fn type_inv(&self) -> bool {
        &&& spec_valid_signing_key(self.key@)
        &&& self.address@ == spec_key_address(self.key@)
        &&& self.address@.len() == 20
    }

    /// The signing key string held by the builder.
    pub closed spec fn spec_key(&self) -> Seq<char> {
        self.key@
    }

    /// The builder's account address bytes.
    pub closed spec fn spec_address(&self) -> Seq<u8> {
        self.address@
    }

    /// The chain the builder signs for.
    pub closed spec fn spec_chain_id(&self) -> u64 {
        self.chain_id
    }

    /// Whether the builder signs against the negative-risk exchange.
    pub closed spec fn spec_neg_risk(&self) -> bool {
        self.neg_risk
    }

    /// Creates a builder from a private key string, rejecting a malformed
    /// key at construction.
    pub fn new(private_key: &str, neg_risk: bool) -> (r: Result<OrderBuilder, PolymarketError>)
        ensures
            r is Ok <==> spec_valid_signing_key(private_key@),
            r matches Ok(b) ==> b.spec_key() == private_key@ && b.spec_neg_risk() == neg_risk
                && b.spec_chain_id() == POLYGON_CHAIN_ID && b.spec_address() == spec_key_address(
                private_key@,
            ),
            r matches Err(e) ==> e.code is ConfigError,
    {
        match parse_key_address(private_key) {
            Some(address) => Ok(
                OrderBuilder {
                    key: private_key.to_owned(),
                    address,
                    chain_id: POLYGON_CHAIN_ID,
                    neg_risk,
                },
            ),
            None => Err(PolymarketError::config_error("Invalid private key".to_owned())),
        }
    }

    /// The exchange contract this builder signs against.
    pub fn exchange_address(&self) -> (r: Vec<u8>)
        ensures
            r@ == if self.spec_neg_risk() {
                spec_neg_risk_exchange_address()
            } else {
                spec_ctf_exchange_address()
            },
    {
        if self.neg_risk {
            neg_risk_exchange_address_bytes()
        } else {
            ctf_exchange_address_bytes()
        }
    }

    /// The builder's account address, as `0x`-prefixed hex.
    pub fn address_hex(&self) -> (r: String)
        ensures
            r@ == "0x"@ + spec_hex(spec_key_address(self.spec_key())),
    {
        proof {
            use_type_invariant(self);
        }
        hex_0x(&self.address)
    }

    /// The domain separator of this builder's exchange domain.
    pub fn domain_separator(&self) -> (r: Vec<u8>)
        ensures
            r@ == spec_order_domain_separator(self.spec_neg_risk(), self.spec_chain_id()),
            r@.len() == 32,
    {
        let d = self.domain();
        crate::eip712::domain_separator(&d)
    }

    /// The signing domain of the exchange: its name, version 1, the chain,
    /// and the exchange contract for this builder's risk flavor.
    fn domain(&self) -> (r: SigningDomain)
        ensures
            r.name@ == "Polymarket CTF Exchange"@,
            r.version@ == "1"@,
            r.chain_id == self.spec_chain_id(),
            r.verifying_contract@ == if self.spec_neg_risk() {
                spec_neg_risk_exchange_address()
            } else {
                spec_ctf_exchange_address()
            },
    {
        SigningDomain {
            name: "Polymarket CTF Exchange".to_owned(),
            version: "1".to_owned(),
            chain_id: self.chain_id,
            verifying_contract: self.exchange_address(),
        }
    }

    /// Builds and signs an order with explicit salt, expiration and nonce.
    /// Parameters are validated before any cryptography: a price outside
    /// (0, 1] or a zero size is rejected as `InvalidOrder`, and a token id
    /// that is not a decimal numeral of fewer than 2^256 as `InvalidToken`.
    /// A signing-backend failure surfaces as `ApiError`. On success every
    /// field of the signed order is pinned: the amounts by side, the maker
    /// and signer as the key's address, the open taker, and the signature as
    /// the key's signature over exactly the typed-data digest of the
    /// message.
    pub fn sign_order_with(
        &self,
        params: &OrderParams,
        salt: u64,
        expiration: u64,
        nonce: u64,
    ) -> (r: Result<SignedOrder, PolymarketError>)
        ensures
            r matches Err(e) ==> (e.code is InvalidOrder || e.code is InvalidToken
                || e.code is ApiError),
            !spec_valid_price_size(params.price_micros, params.size_micros) <==> (r matches Err(e)
                && e.code is InvalidOrder),
            (spec_valid_price_size(params.price_micros, params.size_micros)
                && !spec_valid_token_id(params.token_id@)) <==> (r matches Err(e)
                && e.code is InvalidToken),
            r matches Ok(so) ==> spec_valid_price_size(params.price_micros, params.size_micros)
                && spec_valid_token_id(params.token_id@) && self.spec_signed_order_matches(
                params,
                salt,
                expiration,
                nonce,
                &so,
            ),
    {
        validate_order_params(params)?;
        let token = match parse_u256_dec(params.token_id.as_str()) {
            Some(w) => w,
            None => {
                return Err(PolymarketError::invalid_token("Invalid token ID format".to_owned()));
            },
        };
        let token_word = u256_to_be_bytes(&token);
        let (maker_amount, taker_amount) = order_amounts(
            params.side,
            params.price_micros,
            params.size_micros,
        );
        proof {
            use_type_invariant(self);
        }
        let message = OrderMessage {
            salt,
            maker: slice_to_vec(self.address.as_slice()),
            signer: slice_to_vec(self.address.as_slice()),
            taker: zero_address_bytes(),
            token_id: token_word,
            maker_amount,
            taker_amount,
            expiration,
            nonce,
            fee_rate_bps: params.fee_rate_bps,
            side: params.side.as_byte(),
            signature_type: 0,
        };
        let sh = order_struct_hash(&message);
        let d = self.domain();
        let digest = typed_digest(&d, &sh);
        let signature = match sign_digest(self.key.as_str(), &digest) {
            Some(s) => s,
            None => {
                return Err(PolymarketError::api_error("Failed to sign order".to_owned()));
            },
        };
        let side_text: &str = match params.side {
            OrderSide::Buy => "0",
            OrderSide::Sell => "1",
        };
        Ok(
            SignedOrder {
                salt: u64_to_dec_string(salt),
                maker: hex_0x(&self.address),
                signer: hex_0x(&self.address),
                taker: hex_0x(&zero_address_bytes()),
                token_id: u256_to_dec_string(&token),
                maker_amount: u64_to_dec_string(maker_amount),
                taker_amount: u64_to_dec_string(taker_amount),
                expiration: u64_to_dec_string(expiration),
                nonce: u64_to_dec_string(nonce),
                fee_rate_bps: u64_to_dec_string(params.fee_rate_bps as u64),
                side: side_text.to_owned(),
                signature_type: 0,
                signature: hex_0x(&signature),
            },
        )
    }

    /// The maker amount of an order built by this builder: collateral paid
    /// when buying, tokens handed over when selling.
    pub open spec fn spec_maker_amount(&self, params: &OrderParams) -> nat {
        if params.side is Buy {
            spec_collateral_amount(params.price_micros, params.size_micros)
        } else {
            params.size_micros as nat
        }
    }

    /// The taker amount of an order built by this builder: tokens received
    /// when buying, collateral received when selling.
    pub open spec fn spec_taker_amount(&self, params: &OrderParams) -> nat {
        if params.side is Buy {
            params.size_micros as nat
        } else {
            spec_collateral_amount(params.price_micros, params.size_micros)
        }
    }

    /// What every field of a signed order produced by this builder holds,
    /// for the given parameters, salt, expiration and nonce. The signature
    /// covers exactly the typed-data digest of the encoded message.
    pub open spec fn spec_signed_order_matches(
        &self,
        params: &OrderParams,
        salt: u64,
        expiration: u64,
        nonce: u64,
        so: &SignedOrder,
    ) -> bool {
        &&& so.salt@ == spec_dec_digits(salt as nat)
        &&& so.maker@ == "0x"@ + spec_hex(spec_key_address(self.spec_key()))
        &&& so.signer@ == "0x"@ + spec_hex(spec_key_address(self.spec_key()))
        &&& so.taker@ == "0x"@ + spec_hex(spec_zero_address())
        &&& so.token_id@ == spec_dec_digits(spec_dec_value(params.token_id@) as nat)
        &&& so.maker_amount@ == spec_dec_digits(self.spec_maker_amount(params))
        &&& so.taker_amount@ == spec_dec_digits(self.spec_taker_amount(params))
        &&& so.expiration@ == spec_dec_digits(expiration as nat)
        &&& so.nonce@ == spec_dec_digits(nonce as nat)
        &&& so.fee_rate_bps@ == spec_dec_digits(params.fee_rate_bps as nat)
        &&& so.side@ == if params.side is Buy {
            "0"@
        } else {
            "1"@
        }
        &&& so.signature_type == 0
        &&& so.signature@ == "0x"@ + spec_hex(
            spec_ecdsa_sign(
                self.spec_key(),
                spec_order_digest(
                    self.spec_key(),
                    self.spec_neg_risk(),
                    self.spec_chain_id(),
                    salt,
                    crate::encoding::spec_be_bytes(spec_dec_value(params.token_id@) as nat, 32),
                    self.spec_maker_amount(params) as u64,
                    self.spec_taker_amount(params) as u64,
                    expiration,
                    nonce,
                    params.fee_rate_bps,
                    params.side.spec_byte(),
                ),
            ),
        )
    }

    /// Builds and signs an order, drawing a fresh salt, defaulting the
    /// expiration to thirty days from now and the nonce to a fresh value
    /// where the parameters leave them out. A defaulted expiration lies
    /// thirty days past some clock reading, so it is never below thirty
    /// days worth of seconds.
    pub fn create_and_sign_order(&self, params: &OrderParams) -> (r: Result<
        SignedOrder,
        PolymarketError,
    >)
        ensures
            r matches Err(e) ==> (e.code is InvalidOrder || e.code is InvalidToken
                || e.code is ApiError),
            !spec_valid_price_size(params.price_micros, params.size_micros) <==> (r matches Err(e)
                && e.code is InvalidOrder),
            (spec_valid_price_size(params.price_micros, params.size_micros)
                && !spec_valid_token_id(params.token_id@)) <==> (r matches Err(e)
                && e.code is InvalidToken),
            r matches Ok(so) ==> exists|salt: u64, expiration: u64, nonce: u64|
                #[trigger] self.spec_signed_order_matches(params, salt, expiration, nonce, &so)
                    && (params.expiration matches Some(e) ==> expiration == e) && (
                params.expiration is None ==> expiration
                    >= crate::entropy::THIRTY_DAYS_SECS) && (params.nonce matches Some(n)
                ==> nonce == n),
    {
        let salt = rand_salt();
        let expiration = match params.expiration {
            Some(e) => e,
            None => default_expiration(),
        };
        let nonce = match params.nonce {
            Some(n) => n,
            None => rand_salt(),
        };
        let r = self.sign_order_with(params, salt, expiration, nonce);
        proof {
            if r is Ok {
                let so = r->Ok_0;
                assert(self.spec_signed_order_matches(params, salt, expiration, nonce, &so));
            }
        }
        r
    }
}

/// Law: the maker and signer of a signed order depend on the builder's key
/// alone. Two orders built by the same builder carry the same maker and
/// signer addresses whatever parameters, salts, expirations and nonces they
/// were built with — independently drawn salts change the signature, never
/// the account the order speaks for.
pub proof fn lemma_signed_orders_same_maker(
    b: &OrderBuilder,
    p1: &OrderParams,
    salt1: u64,
    exp1: u64,
    nonce1: u64,
    o1: &SignedOrder,
    p2: &OrderParams,
    salt2: u64,
    exp2: u64,
    nonce2: u64,
    o2: &SignedOrder,
)
    requires
        b.spec_signed_order_matches(p1, salt1, exp1, nonce1, o1),
        b.spec_signed_order_matches(p2, salt2, exp2, nonce2, o2),
    ensures
        o1.maker@ == o2.maker@,
        o1.signer@ == o2.signer@,
        o1.maker@ == "0x"@ + spec_hex(spec_key_address(b.spec_key())),
{
}

} // verus!
