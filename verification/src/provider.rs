//! The context provider: its identity and the feature list it reports for a
//! given configuration. Rendering and delivery of the provider text live
//! outside the library.

use vstd::prelude::*;

verus! {

/// Runtime settings a provider call sees.
#[derive(Debug, Clone, Default)]
pub struct ProviderContext {
    /// CLOB API URL override.
    pub clob_api_url: Option<String>,
    /// Whether a private key is configured.
    pub has_private_key: bool,
    /// Whether API credentials are configured.
    pub has_api_creds: bool,
}

/// The Polymarket context provider.
#[derive(Debug, Clone, Copy)]
pub struct PolymarketProvider;

impl PolymarketProvider {
    /// The provider's registry name.
    pub fn name(&self) -> (r: &'static str)
        ensures
            r@ == "POLYMARKET_PROVIDER"@,
    {
        "POLYMARKET_PROVIDER"
    }

    /// The provider's one-line description.
    pub fn description(&self) -> (r: &'static str)
        ensures
            r@ == "Provides current Polymarket market information and context"@,
    {
        "Provides current Polymarket market information and context"
    }
}

/// The features available under a configuration: market data, price feeds
/// and the order book always; wallet operations with a private key; and
/// authenticated requests with API credentials.
pub open spec fn spec_features(has_private_key: bool, has_api_creds: bool) -> Seq<Seq<char>> {
    let base = seq!["market_data"@, "price_feeds"@, "order_book"@];
    let with_wallet = if has_private_key {
        base.push("wallet_operations"@)
    } else {
        base
    };
    if has_api_creds {
        with_wallet.push("authenticated_requests"@)
    } else {
        with_wallet
    }
}

/// Lists the features available under a configuration.
pub fn features_available(has_private_key: bool, has_api_creds: bool) -> (r: Vec<&'static str>)
    ensures
        r@.map_values(|s: &'static str| s@) == spec_features(has_private_key, has_api_creds),
{
    let mut r: Vec<&'static str> = Vec::new();
    r.push("market_data");
    r.push("price_feeds");
    r.push("order_book");
    if has_private_key {
        r.push("wallet_operations");
    }
    if has_api_creds {
        r.push("authenticated_requests");
    }
    proof {
        assert(r@.map_values(|s: &'static str| s@) =~= spec_features(
            has_private_key,
            has_api_creds,
        ));
    }
    r
}

} // verus!
