//! Construction of signed authentication challenges: the payload submitted
//! to the credential-issuance endpoint to mint an API key. The pipeline is
//! the order-signing one restricted to the three-field challenge message and
//! the authentication domain, whose verifying contract is the null address
//! because the challenge never reaches a chain.

use vstd::prelude::*;
use crate::constants::{spec_zero_address, zero_address_bytes, POLYGON_CHAIN_ID,
    DEFAULT_CLOB_API_URL};
use crate::crypto::{
    spec_ecdsa_sign, spec_key_address, spec_keccak256, spec_valid_signing_key, parse_key_address,
    sign_digest,
};
use crate::eip712::{
    spec_auth_preimage_parts, spec_domain_preimage_parts, spec_typed_digest_parts, AuthMessage,
    SigningDomain, auth_struct_hash, typed_digest,
};
use crate::encoding::{spec_dec_digits, spec_hex, hex_0x, u64_to_dec_string};
use crate::entropy::{rand_salt, unix_time_secs};
use crate::error::PolymarketError;

verus! {

/// The signed authentication challenge, as the credential endpoint expects
/// it: the address in hex, timestamp and nonce as decimal strings, and the
/// signature in hex.
#[derive(Debug, Clone)]
pub struct CreateApiKeyRequest {
    pub address: String,
    pub timestamp: String,
    pub nonce: String,
    pub signature: String,
}

/// The domain separator of the authentication domain: name `ClobAuthDomain`,
/// version 1, the Polygon chain, and the null address as verifying contract.
pub open spec fn spec_auth_domain_separator() -> Seq<u8> {
    spec_keccak256(
        spec_domain_preimage_parts(
            "ClobAuthDomain"@,
            "1"@,
            POLYGON_CHAIN_ID,
            spec_zero_address(),
        ),
    )
}

/// The digest that an authentication signature covers, as a function of the
/// signer's address, the timestamp and the nonce.
pub open spec fn spec_auth_digest(address: Seq<u8>, timestamp: u64, nonce: u64) -> Seq<u8> {
    spec_typed_digest_parts(
        spec_auth_domain_separator(),
        spec_keccak256(spec_auth_preimage_parts(address, timestamp, nonce)),
    )
}

/// A base URL with its trailing slashes removed.
pub open spec fn spec_trim_trailing_slashes(s: Seq<char>) -> Seq<char>
    decreases s.len(),
{
    if s.len() > 0 && s.last() == '/' {
        spec_trim_trailing_slashes(s.drop_last())
    } else {
        s
    }
}

/// The length of a base URL once its trailing slashes are removed.
fn trimmed_len(s: &str) -> (n: usize)
    ensures
        n <= s@.len(),
        spec_trim_trailing_slashes(s@) == s@.take(n as int),
{
    let mut n = s.unicode_len();
    proof {
        assert(s@.take(n as int) =~= s@);
    }
    loop
        invariant
            n <= s@.len(),
            spec_trim_trailing_slashes(s@) == spec_trim_trailing_slashes(s@.take(n as int)),
        decreases n,
    {
        if n == 0 {
            proof {
                assert(s@.take(0) =~= Seq::<char>::empty());
            }
            return 0;
        }
        let c = s.get_char(n - 1);
        if c != '/' {
            proof {
                assert(s@.take(n as int).last() == c);
            }
            return n;
        }
        proof {
            assert(s@.take(n as int).drop_last() =~= s@.take(n - 1));
        }
        n -= 1;
    }
}

/// Removes trailing slashes from a base URL.
pub fn trim_trailing_slashes(s: &str) -> (r: String)
    ensures
        r@ == spec_trim_trailing_slashes(s@),
{
    let n = trimmed_len(s);
    let r = s.substring_char(0, n);
    proof {
        assert(s@.subrange(0, n as int) =~= s@.take(n as int));
    }
    r.to_owned()
}

/// Builds signed authentication challenges for one signing key.
pub struct ApiKeyCreator {
    key: String,
    address: Vec<u8>,
    base_url: String,
}

impl ApiKeyCreator {
    /// The held key parses as a signing key and the cached address is the
    /// one the key derives.
    #[verifier::type_invariant]
    spec fn type_inv(&self) -> bool {
        &&& spec_valid_signing_key(self.key@)
        &&& self.address@ == spec_key_address(self.key@)
        &&& self.address@.len() == 20
    }

    /// The signing key string held by the creator.
    pub closed spec fn spec_key(&self) -> Seq<char> {
        self.key@
    }

    /// The base URL the credential endpoint lives under.
    pub closed spec fn spec_base_url(&self) -> Seq<char> {
        self.base_url@
    }

    /// Creates a challenge builder from a private key, rejecting a malformed
    /// key at construction. The base URL defaults to the standard API and
    /// loses its trailing slashes.
    pub fn new(private_key: &str, base_url: Option<&str>) -> (r: Result<
        ApiKeyCreator,
        PolymarketError,
    >)
        ensures
            r is Ok <==> spec_valid_signing_key(private_key@),
            r matches Ok(c) ==> c.spec_key() == private_key@ && c.spec_base_url()
                == spec_trim_trailing_slashes(
                match base_url {
                    Some(u) => u@,
                    None => DEFAULT_CLOB_API_URL@,
                },
            ),
            r matches Err(e) ==> e.code is ConfigError,
    {
        match parse_key_address(private_key) {
            Some(address) => {
                let url = match base_url {
                    Some(u) => u,
                    None => DEFAULT_CLOB_API_URL,
                };
                Ok(
                    ApiKeyCreator {
                        key: private_key.to_owned(),
                        address,
                        base_url: trim_trailing_slashes(url),
                    },
                )
            },
            None => Err(PolymarketError::config_error("Invalid private key".to_owned())),
        }
    }

    /// The creator's base URL.
    pub fn base_url(&self) -> (r: &String)
        ensures
            r@ == self.spec_base_url(),
    {
        &self.base_url
    }

    /// The domain separator of the authentication domain.
    pub fn domain_separator(&self) -> (r: Vec<u8>)
        ensures
            r@ == spec_auth_domain_separator(),
            r@.len() == 32,
    {
        let d = SigningDomain {
            name: "ClobAuthDomain".to_owned(),
            version: "1".to_owned(),
            chain_id: POLYGON_CHAIN_ID,
            verifying_contract: zero_address_bytes(),
        };
        crate::eip712::domain_separator(&d)
    }

    /// The creator's account address, as `0x`-prefixed hex.
    pub fn address_hex(&self) -> (r: String)
        ensures
            r@ == "0x"@ + spec_hex(spec_key_address(self.spec_key())),
    {
        proof {
            use_type_invariant(self);
        }
        hex_0x(&self.address)
    }

    /// Builds the signed challenge for an explicit timestamp and nonce. On
    /// success every field is pinned: the address in hex, timestamp and
    /// nonce in decimal, and the signature as the key's signature over
    /// exactly the challenge digest. A signing-backend failure surfaces as
    /// `ApiError`.
    pub fn build_auth_payload(&self, timestamp: u64, nonce: u64) -> (r: Result<
        CreateApiKeyRequest,
        PolymarketError,
    >)
        ensures
            r matches Err(e) ==> e.code is ApiError,
            r matches Ok(p) ==> self.spec_auth_payload_matches(timestamp, nonce, &p),
    {
        proof {
            use_type_invariant(self);
        }
        let message = AuthMessage {
            address: vstd::slice::slice_to_vec(self.address.as_slice()),
            timestamp,
            nonce,
        };
        let sh = auth_struct_hash(&message);
        let d = SigningDomain {
            name: "ClobAuthDomain".to_owned(),
            version: "1".to_owned(),
            chain_id: POLYGON_CHAIN_ID,
            verifying_contract: zero_address_bytes(),
        };
        let digest = typed_digest(&d, &sh);
        let signature = match sign_digest(self.key.as_str(), &digest) {
            Some(s) => s,
            None => {
                return Err(PolymarketError::api_error("Failed to sign".to_owned()));
            },
        };
        proof {
            assert(message.address@ =~= spec_key_address(self.key@));
        }
        Ok(
            CreateApiKeyRequest {
                address: hex_0x(&self.address),
                timestamp: u64_to_dec_string(timestamp),
                nonce: u64_to_dec_string(nonce),
                signature: hex_0x(&signature),
            },
        )
    }

    /// What every field of a signed challenge holds for a given timestamp
    /// and nonce.
    pub open spec fn spec_auth_payload_matches(
        &self,
        timestamp: u64,
        nonce: u64,
        p: &CreateApiKeyRequest,
    ) -> bool {
        &&& p.address@ == "0x"@ + spec_hex(spec_key_address(self.spec_key()))
        &&& p.timestamp@ == spec_dec_digits(timestamp as nat)
        &&& p.nonce@ == spec_dec_digits(nonce as nat)
        &&& p.signature@ == "0x"@ + spec_hex(
            spec_ecdsa_sign(
                self.spec_key(),
                spec_auth_digest(spec_key_address(self.spec_key()), timestamp, nonce),
            ),
        )
    }

    /// Builds the signed challenge for the present moment: the timestamp is
    /// the current Unix time, and the nonce is that timestamp folded with a
    /// fresh unpredictable value.
    pub fn create_auth_payload(&self) -> (r: Result<CreateApiKeyRequest, PolymarketError>)
        ensures
            r matches Err(e) ==> e.code is ApiError,
            r matches Ok(p) ==> exists|timestamp: u64, nonce: u64|
                #[trigger] self.spec_auth_payload_matches(timestamp, nonce, &p),
    {
        let timestamp = unix_time_secs();
        let nonce = timestamp ^ rand_salt();
        let r = self.build_auth_payload(timestamp, nonce);
        proof {
            if r is Ok {
                assert(self.spec_auth_payload_matches(timestamp, nonce, &r->Ok_0));
            }
        }
        r
    }
}

} // verus!
