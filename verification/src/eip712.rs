//! Typed-data hashing: domain separators, struct hashes and the final
//! signing digest.
//!
//! Every integer field is encoded as a big-endian 32-byte word; address
//! fields inside a message are left-zero-padded to 32 bytes; the domain
//! separator appends the verifying contract's 20 bytes unpadded; the single
//! byte of an enum-like field sits in the lowest byte of its word. The byte
//! layout of every preimage is verified, and the encoding of a message is
//! proved injective, so two messages that differ in any field present
//! different preimages to the hash.

use vstd::prelude::*;
use vstd::utf8::encode_utf8;
use crate::crypto::{keccak256, spec_keccak256};
use crate::encoding::{be_bytes_u128, spec_be_bytes, lemma_be_bytes_len, lemma_be_bytes_injective, lemma_u64_fits_word};

verus! {

/// The type hash of a schema string: the hash of its exact ASCII bytes.
pub open spec fn spec_type_hash(schema: Seq<char>) -> Seq<u8> {
    spec_keccak256(encode_utf8(schema))
}

/// Hashes a schema string.
pub fn type_hash(schema: &str) -> (r: Vec<u8>)
    ensures
        r@ == spec_type_hash(schema@),
        r@.len() == 32,
{
    keccak256(schema.as_bytes())
}

/// An EIP-712 signing domain. One instance exists per message schema and is
/// reused for every hash in that context.
pub struct SigningDomain {
    /// Domain name, hashed into the separator.
    pub name: String,
    /// Domain version, hashed into the separator.
    pub version: String,
    /// Chain id, encoded as a 32-byte word.
    pub chain_id: u64,
    /// The verifying contract's 20-byte address.
    pub verifying_contract: Vec<u8>,
}

impl SigningDomain {
    /// A domain is well formed when its contract address has 20 bytes.
    pub open spec fn wf(&self) -> bool {
        self.verifying_contract@.len() == 20
    }
}

/// The preimage of a domain separator, over the domain's parts: the domain
/// type hash, the hashes of name and version, the chain id word, and the
/// contract's 20 raw bytes.
pub open spec fn spec_domain_preimage_parts(
    name: Seq<char>,
    version: Seq<char>,
    chain_id: u64,
    contract: Seq<u8>,
) -> Seq<u8> {
    spec_type_hash(
        "EIP712Domain(string name,string version,uint256 chainId,address verifyingContract)"@,
    ) + spec_keccak256(encode_utf8(name)) + spec_keccak256(encode_utf8(version))
        + spec_be_bytes(chain_id as nat, 32) + contract
}

/// The preimage of the domain separator of a domain value.
pub open spec fn spec_domain_preimage(d: &SigningDomain) -> Seq<u8> {
    spec_domain_preimage_parts(d.name@, d.version@, d.chain_id, d.verifying_contract@)
}

/// The domain separator: the hash that scopes every signature to one
/// application, contract and chain.
pub open spec fn spec_domain_separator(d: &SigningDomain) -> Seq<u8> {
    spec_keccak256(spec_domain_preimage(d))
}

/// Computes the domain separator of a domain.
pub fn domain_separator(d: &SigningDomain) -> (r: Vec<u8>)
    ensures
        r@ == spec_domain_separator(d),
        r@.len() == 32,
{
    let th = type_hash(
        "EIP712Domain(string name,string version,uint256 chainId,address verifyingContract)",
    );
    let nh = keccak256(d.name.as_str().as_bytes());
    let vh = keccak256(d.version.as_str().as_bytes());
    let cid = be_bytes_u128(d.chain_id as u128, 32);
    let mut data: Vec<u8> = Vec::new();
    data.extend_from_slice(th.as_slice());
    data.extend_from_slice(nh.as_slice());
    data.extend_from_slice(vh.as_slice());
    data.extend_from_slice(cid.as_slice());
    data.extend_from_slice(d.verifying_contract.as_slice());
    proof {
        assert(data@ =~= spec_domain_preimage(d));
    }
    keccak256(data.as_slice())
}

/// The final typed-data digest over a domain separator and a struct hash:
/// `hash(0x19 || 0x01 || domainSeparator || structHash)`. This is the only
/// value that is ever signed.
pub open spec fn spec_typed_digest_parts(domain_sep: Seq<u8>, struct_hash: Seq<u8>) -> Seq<u8> {
    spec_keccak256(seq![0x19u8, 0x01u8] + domain_sep + struct_hash)
}

/// The typed-data digest of a struct hash under a domain value.
pub open spec fn spec_typed_digest(d: &SigningDomain, struct_hash: Seq<u8>) -> Seq<u8> {
    spec_typed_digest_parts(spec_domain_separator(d), struct_hash)
}

/// Computes the typed-data digest of a struct hash under a domain.
pub fn typed_digest(d: &SigningDomain, struct_hash: &Vec<u8>) -> (r: Vec<u8>)
    ensures
        r@ == spec_typed_digest(d, struct_hash@),
        r@.len() == 32,
{
    let ds = domain_separator(d);
    let mut data: Vec<u8> = Vec::new();
    data.push(0x19);
    data.push(0x01);
    data.extend_from_slice(ds.as_slice());
    data.extend_from_slice(struct_hash.as_slice());
    proof {
        assert(data@ =~= seq![0x19u8, 0x01u8] + spec_domain_separator(d) + struct_hash@);
    }
    keccak256(data.as_slice())
}

/// Twelve zero bytes: the padding that widens a 20-byte address to a word.
pub open spec fn spec_address_pad() -> Seq<u8> {
    Seq::new(12, |i: int| 0u8)
}

/// An order message: the twelve typed fields that are hashed and signed.
/// Addresses are 20 bytes; the token id is already a 32-byte word; `side` is
/// 0 for a buy and 1 for a sell; `signature_type` is 0 for an externally
/// owned account.
pub struct OrderMessage {
    pub salt: u64,
    pub maker: Vec<u8>,
    pub signer: Vec<u8>,
    pub taker: Vec<u8>,
    pub token_id: Vec<u8>,
    pub maker_amount: u64,
    pub taker_amount: u64,
    pub expiration: u64,
    pub nonce: u64,
    pub fee_rate_bps: u32,
    pub side: u8,
    pub signature_type: u8,
}

impl OrderMessage {
    /// Field widths of a well-formed message: 20-byte addresses and a
    /// 32-byte token word.
    pub open spec fn wf(&self) -> bool {
        &&& self.maker@.len() == 20
        &&& self.signer@.len() == 20
        &&& self.taker@.len() == 20
        &&& self.token_id@.len() == 32
    }
}

/// The schema string of the order message, hashed into its type hash.
pub open spec fn spec_order_schema() -> Seq<char> {
    "Order(uint256 salt,address maker,address signer,address taker,uint256 tokenId,uint256 makerAmount,uint256 takerAmount,uint256 expiration,uint256 nonce,uint256 feeRateBps,uint8 side,uint8 signatureType)"@
}

/// The encoded fields of an order message over its parts, in declared order:
/// 384 bytes of twelve 32-byte words.
pub open spec fn spec_order_fields_parts(
    salt: u64,
    maker: Seq<u8>,
    signer: Seq<u8>,
    taker: Seq<u8>,
    token_id: Seq<u8>,
    maker_amount: u64,
    taker_amount: u64,
    expiration: u64,
    nonce: u64,
    fee_rate_bps: u32,
    side: u8,
    signature_type: u8,
) -> Seq<u8> {
    spec_be_bytes(salt as nat, 32) + spec_address_pad() + maker + spec_address_pad() + signer
        + spec_address_pad() + taker + token_id + spec_be_bytes(maker_amount as nat, 32)
        + spec_be_bytes(taker_amount as nat, 32) + spec_be_bytes(expiration as nat, 32)
        + spec_be_bytes(nonce as nat, 32) + spec_be_bytes(fee_rate_bps as nat, 32)
        + spec_be_bytes(side as nat, 32) + spec_be_bytes(signature_type as nat, 32)
}

/// The encoded fields of an order message, in declared order.
pub open spec fn spec_order_fields(m: &OrderMessage) -> Seq<u8> {
    spec_order_fields_parts(
        m.salt,
        m.maker@,
        m.signer@,
        m.taker@,
        m.token_id@,
        m.maker_amount,
        m.taker_amount,
        m.expiration,
        m.nonce,
        m.fee_rate_bps,
        m.side,
        m.signature_type,
    )
}

/// The struct-hash preimage of an order message: its type hash followed by
/// its encoded fields.
pub open spec fn spec_order_preimage(m: &OrderMessage) -> Seq<u8> {
    spec_type_hash(spec_order_schema()) + spec_order_fields(m)
}

/// The struct hash of an order message.
pub open spec fn spec_order_struct_hash(m: &OrderMessage) -> Seq<u8> {
    spec_keccak256(spec_order_preimage(m))
}

/// Computes the struct hash of an order message.
pub fn order_struct_hash(m: &OrderMessage) -> (r: Vec<u8>)
    requires
        m.wf(),
    ensures
        r@ == spec_order_struct_hash(m),
        r@.len() == 32,
{
    let th = type_hash(
        "Order(uint256 salt,address maker,address signer,address taker,uint256 tokenId,uint256 makerAmount,uint256 takerAmount,uint256 expiration,uint256 nonce,uint256 feeRateBps,uint8 side,uint8 signatureType)",
    );
    let mut data: Vec<u8> = Vec::new();
    data.extend_from_slice(th.as_slice());
    let w = be_bytes_u128(m.salt as u128, 32);
    data.extend_from_slice(w.as_slice());
    push_padded_address(&mut data, &m.maker);
    push_padded_address(&mut data, &m.signer);
    push_padded_address(&mut data, &m.taker);
    data.extend_from_slice(m.token_id.as_slice());
    let w = be_bytes_u128(m.maker_amount as u128, 32);
    data.extend_from_slice(w.as_slice());
    let w = be_bytes_u128(m.taker_amount as u128, 32);
    data.extend_from_slice(w.as_slice());
    let w = be_bytes_u128(m.expiration as u128, 32);
    data.extend_from_slice(w.as_slice());
    let w = be_bytes_u128(m.nonce as u128, 32);
    data.extend_from_slice(w.as_slice());
    let w = be_bytes_u128(m.fee_rate_bps as u128, 32);
    data.extend_from_slice(w.as_slice());
    let w = be_bytes_u128(m.side as u128, 32);
    data.extend_from_slice(w.as_slice());
    let w = be_bytes_u128(m.signature_type as u128, 32);
    data.extend_from_slice(w.as_slice());
    proof {
        assert(data@ =~= spec_order_preimage(m));
    }
    keccak256(data.as_slice())
}

/// Appends twelve zero bytes and then the 20 address bytes.
fn push_padded_address(data: &mut Vec<u8>, address: &Vec<u8>)
    requires
        address@.len() == 20,
    ensures
        final(data)@ == old(data)@ + spec_address_pad() + address@,
{
    let pad: Vec<u8> = vec![0u8; 12];
    data.extend_from_slice(pad.as_slice());
    data.extend_from_slice(address.as_slice());
    proof {
        assert(pad@ =~= spec_address_pad());
        assert(data@ =~= old(data)@ + spec_address_pad() + address@);
    }
}

/// The encoded fields of a well-formed order message span twelve words.
pub proof fn lemma_order_fields_len(m: &OrderMessage)
    requires
        m.wf(),
    ensures
        spec_order_fields(m).len() == 384,
{
    lemma_be_bytes_len(m.salt as nat, 32);
    lemma_be_bytes_len(m.maker_amount as nat, 32);
    lemma_be_bytes_len(m.taker_amount as nat, 32);
    lemma_be_bytes_len(m.expiration as nat, 32);
    lemma_be_bytes_len(m.nonce as nat, 32);
    lemma_be_bytes_len(m.fee_rate_bps as nat, 32);
    lemma_be_bytes_len(m.side as nat, 32);
    lemma_be_bytes_len(m.signature_type as nat, 32);
}

/// Law: the field encoding of an order message is injective. Two well-formed
/// messages with the same struct-hash preimage agree on every one of the
/// twelve fields, so no two distinct messages are aliased by padding: any
/// change to a field changes the bytes presented to the hash.
pub proof fn lemma_order_encoding_injective(m1: &OrderMessage, m2: &OrderMessage)
    requires
        m1.wf(),
        m2.wf(),
        spec_order_preimage(m1) == spec_order_preimage(m2),
    ensures
        m1.salt == m2.salt,
        m1.maker@ == m2.maker@,
        m1.signer@ == m2.signer@,
        m1.taker@ == m2.taker@,
        m1.token_id@ == m2.token_id@,
        m1.maker_amount == m2.maker_amount,
        m1.taker_amount == m2.taker_amount,
        m1.expiration == m2.expiration,
        m1.nonce == m2.nonce,
        m1.fee_rate_bps == m2.fee_rate_bps,
        m1.side == m2.side,
        m1.signature_type == m2.signature_type,
{
    lemma_order_fields_len(m1);
    lemma_order_fields_len(m2);
    lemma_be_bytes_len(m1.salt as nat, 32);
    lemma_be_bytes_len(m1.maker_amount as nat, 32);
    lemma_be_bytes_len(m1.taker_amount as nat, 32);
    lemma_be_bytes_len(m1.expiration as nat, 32);
    lemma_be_bytes_len(m1.nonce as nat, 32);
    lemma_be_bytes_len(m1.fee_rate_bps as nat, 32);
    lemma_be_bytes_len(m1.side as nat, 32);
    lemma_be_bytes_len(m1.signature_type as nat, 32);
    lemma_be_bytes_len(m2.salt as nat, 32);
    lemma_be_bytes_len(m2.maker_amount as nat, 32);
    lemma_be_bytes_len(m2.taker_amount as nat, 32);
    lemma_be_bytes_len(m2.expiration as nat, 32);
    lemma_be_bytes_len(m2.nonce as nat, 32);
    lemma_be_bytes_len(m2.fee_rate_bps as nat, 32);
    lemma_be_bytes_len(m2.side as nat, 32);
    lemma_be_bytes_len(m2.signature_type as nat, 32);
    let f1 = spec_order_fields(m1);
    let f2 = spec_order_fields(m2);
    let th = spec_type_hash(spec_order_schema());
    assert(f1 =~= f2) by {
        assert(forall|i: int| 0 <= i < 384 ==> f1[i] == f2[i]) by {
            assert(forall|i: int| 0 <= i < 384 ==> (th + f1)[th.len() + i] == f1[i]
                && (th + f2)[th.len() + i] == f2[i]);
        }
    }
    assert(f1.subrange(0, 32) =~= spec_be_bytes(m1.salt as nat, 32));
    assert(f2.subrange(0, 32) =~= spec_be_bytes(m2.salt as nat, 32));
    lemma_u64_fits_word(m1.salt);
    lemma_u64_fits_word(m2.salt);
    lemma_be_bytes_injective(m1.salt as nat, m2.salt as nat, 32);
    assert(f1.subrange(44, 64) =~= m1.maker@);
    assert(f2.subrange(44, 64) =~= m2.maker@);
    assert(f1.subrange(76, 96) =~= m1.signer@);
    assert(f2.subrange(76, 96) =~= m2.signer@);
    assert(f1.subrange(108, 128) =~= m1.taker@);
    assert(f2.subrange(108, 128) =~= m2.taker@);
    assert(f1.subrange(128, 160) =~= m1.token_id@);
    assert(f2.subrange(128, 160) =~= m2.token_id@);
    assert(f1.subrange(160, 192) =~= spec_be_bytes(m1.maker_amount as nat, 32));
    assert(f2.subrange(160, 192) =~= spec_be_bytes(m2.maker_amount as nat, 32));
    lemma_u64_fits_word(m1.maker_amount);
    lemma_u64_fits_word(m2.maker_amount);
    lemma_be_bytes_injective(m1.maker_amount as nat, m2.maker_amount as nat, 32);
    assert(f1.subrange(192, 224) =~= spec_be_bytes(m1.taker_amount as nat, 32));
    assert(f2.subrange(192, 224) =~= spec_be_bytes(m2.taker_amount as nat, 32));
    lemma_u64_fits_word(m1.taker_amount);
    lemma_u64_fits_word(m2.taker_amount);
    lemma_be_bytes_injective(m1.taker_amount as nat, m2.taker_amount as nat, 32);
    assert(f1.subrange(224, 256) =~= spec_be_bytes(m1.expiration as nat, 32));
    assert(f2.subrange(224, 256) =~= spec_be_bytes(m2.expiration as nat, 32));
    lemma_u64_fits_word(m1.expiration);
    lemma_u64_fits_word(m2.expiration);
    lemma_be_bytes_injective(m1.expiration as nat, m2.expiration as nat, 32);
    assert(f1.subrange(256, 288) =~= spec_be_bytes(m1.nonce as nat, 32));
    assert(f2.subrange(256, 288) =~= spec_be_bytes(m2.nonce as nat, 32));
    lemma_u64_fits_word(m1.nonce);
    lemma_u64_fits_word(m2.nonce);
    lemma_be_bytes_injective(m1.nonce as nat, m2.nonce as nat, 32);
    assert(f1.subrange(288, 320) =~= spec_be_bytes(m1.fee_rate_bps as nat, 32));
    assert(f2.subrange(288, 320) =~= spec_be_bytes(m2.fee_rate_bps as nat, 32));
    lemma_u64_fits_word(m1.fee_rate_bps as u64);
    lemma_u64_fits_word(m2.fee_rate_bps as u64);
    lemma_be_bytes_injective(m1.fee_rate_bps as nat, m2.fee_rate_bps as nat, 32);
    assert(f1.subrange(320, 352) =~= spec_be_bytes(m1.side as nat, 32));
    assert(f2.subrange(320, 352) =~= spec_be_bytes(m2.side as nat, 32));
    lemma_u64_fits_word(m1.side as u64);
    lemma_u64_fits_word(m2.side as u64);
    lemma_be_bytes_injective(m1.side as nat, m2.side as nat, 32);
    assert(f1.subrange(352, 384) =~= spec_be_bytes(m1.signature_type as nat, 32));
    assert(f2.subrange(352, 384) =~= spec_be_bytes(m2.signature_type as nat, 32));
    lemma_u64_fits_word(m1.signature_type as u64);
    lemma_u64_fits_word(m2.signature_type as u64);
    lemma_be_bytes_injective(m1.signature_type as nat, m2.signature_type as nat, 32);
}

/// Law: the typed-data digest is a pure function of the domain and the
/// struct hash. Equal inputs give the identical 32-byte output; no iteration
/// order or hidden state enters the computation.
pub proof fn lemma_digest_deterministic(
    d1: &SigningDomain,
    d2: &SigningDomain,
    s1: Seq<u8>,
    s2: Seq<u8>,
)
    requires
        d1.name@ == d2.name@,
        d1.version@ == d2.version@,
        d1.chain_id == d2.chain_id,
        d1.verifying_contract@ == d2.verifying_contract@,
        s1 == s2,
    ensures
        spec_typed_digest(d1, s1) == spec_typed_digest(d2, s2),
{
    assert(spec_domain_preimage(d1) == spec_domain_preimage(d2));
}

/// An authentication challenge message: the three typed fields signed to
/// mint API credentials.
pub struct AuthMessage {
    pub address: Vec<u8>,
    pub timestamp: u64,
    pub nonce: u64,
}

impl AuthMessage {
    /// A well-formed challenge carries a 20-byte address.
    pub open spec fn wf(&self) -> bool {
        self.address@.len() == 20
    }
}

/// The schema string of the authentication message.
pub open spec fn spec_auth_schema() -> Seq<char> {
    "ClobAuth(address address,uint256 timestamp,uint256 nonce)"@
}

/// The struct-hash preimage of an authentication message, over its parts.
pub open spec fn spec_auth_preimage_parts(address: Seq<u8>, timestamp: u64, nonce: u64) -> Seq<
    u8,
> {
    spec_type_hash(spec_auth_schema()) + spec_address_pad() + address
        + spec_be_bytes(timestamp as nat, 32) + spec_be_bytes(nonce as nat, 32)
}

/// The struct-hash preimage of an authentication message.
pub open spec fn spec_auth_preimage(m: &AuthMessage) -> Seq<u8> {
    spec_auth_preimage_parts(m.address@, m.timestamp, m.nonce)
}

/// The struct hash of an authentication message.
pub open spec fn spec_auth_struct_hash(m: &AuthMessage) -> Seq<u8> {
    spec_keccak256(spec_auth_preimage(m))
}

/// Computes the struct hash of an authentication message.
pub fn auth_struct_hash(m: &AuthMessage) -> (r: Vec<u8>)
    requires
        m.wf(),
    ensures
        r@ == spec_auth_struct_hash(m),
        r@.len() == 32,
{
    let th = type_hash("ClobAuth(address address,uint256 timestamp,uint256 nonce)");
    let mut data: Vec<u8> = Vec::new();
    data.extend_from_slice(th.as_slice());
    push_padded_address(&mut data, &m.address);
    let w = be_bytes_u128(m.timestamp as u128, 32);
    data.extend_from_slice(w.as_slice());
    let w = be_bytes_u128(m.nonce as u128, 32);
    data.extend_from_slice(w.as_slice());
    proof {
        assert(data@ =~= spec_auth_preimage(m));
    }
    keccak256(data.as_slice())
}

} // verus!
