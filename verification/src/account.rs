//! Account-level helpers: address derivation from a signing key and the
//! authentication status summary.

use vstd::prelude::*;
use crate::crypto::{spec_key_address, spec_valid_signing_key, parse_key_address};
use crate::encoding::{spec_hex, hex_0x};
use crate::error::PolymarketError;
use crate::types::ApiKey;

verus! {

/// Account access status: certification requirements and managed API keys.
#[derive(Debug, Clone)]
pub struct AccountAccessStatus {
    /// Whether U.S. certification is required.
    pub cert_required: Option<bool>,
    /// List of managed API keys.
    pub api_keys: Vec<ApiKey>,
    /// Active session API key id, if any.
    pub active_session_key_id: Option<String>,
}

/// The empty access status: nothing known, no keys listed.
pub fn get_account_access_status() -> (r: AccountAccessStatus)
    ensures
        r.cert_required is None,
        r.api_keys@.len() == 0,
        r.active_session_key_id is None,
{
    AccountAccessStatus { cert_required: None, api_keys: Vec::new(), active_session_key_id: None }
}

/// Derives the account address of a signing key, as `0x`-prefixed hex, or
/// rejects a malformed key with `ConfigError`.
pub fn derive_address_hex(private_key: &str) -> (r: Result<String, PolymarketError>)
    ensures
        r is Ok <==> spec_valid_signing_key(private_key@),
        r matches Ok(a) ==> a@ == "0x"@ + spec_hex(spec_key_address(private_key@)),
        r matches Err(e) ==> e.code is ConfigError,
{
    match parse_key_address(private_key) {
        Some(address) => Ok(hex_0x(&address)),
        None => Err(PolymarketError::config_error("Invalid private key".to_owned())),
    }
}

/// The authentication status summary: whether a private key is held, and —
/// one flag per credential part — whether API credentials are set; fully
/// authenticated means both.
pub fn authentication_status(has_private_key: bool, has_credentials: bool) -> (r: (
    bool,
    bool,
    bool,
    bool,
    bool,
))
    ensures
        r.0 == has_private_key,
        r.1 == has_credentials,
        r.2 == has_credentials,
        r.3 == has_credentials,
        r.4 == (has_private_key && has_credentials),
{
    (
        has_private_key,
        has_credentials,
        has_credentials,
        has_credentials,
        has_private_key && has_credentials,
    )
}

} // verus!
