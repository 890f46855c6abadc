//! Validation of websocket subscription requests: channel names, URLs and
//! subscription actions. The connection itself lives outside the library.

use vstd::prelude::*;
use crate::error::PolymarketError;

verus! {

/// Connection state of a subscription.
#[derive(Debug, Clone, Copy, PartialEq, Eq, Structural)]
pub enum SubscriptionStatus {
    Disconnected,
    Connecting,
    Connected,
    Error,
}

/// A validated websocket subscription configuration.
#[derive(Debug, Clone)]
pub struct WebsocketConfig {
    /// WebSocket URL.
    pub url: String,
    /// Channels to subscribe to.
    pub channels: Vec<String>,
    /// Asset ids to subscribe to.
    pub asset_ids: Vec<String>,
    /// Whether authentication is required.
    pub authenticated: bool,
    /// Connection status.
    pub status: SubscriptionStatus,
}

/// The channel names the feed understands.
pub open spec fn spec_valid_channel(c: Seq<char>) -> bool {
    c == "book"@ || c == "price"@ || c == "trade"@ || c == "ticker"@ || c == "user"@
}

/// Whether a channel name is one the feed understands.
pub fn is_valid_channel(c: &String) -> (r: bool)
    ensures
        r == spec_valid_channel(c@),
{
    c.eq(&"book".to_owned()) || c.eq(&"price".to_owned()) || c.eq(&"trade".to_owned()) || c.eq(
        &"ticker".to_owned(),
    ) || c.eq(&"user".to_owned())
}

/// Validates a subscription request: the URL must be non-empty, at least one
/// channel must be named, and every channel must be one the feed
/// understands. A valid request becomes a configuration that starts
/// disconnected and carries the inputs unchanged.
pub fn setup_websocket(
    ws_url: &str,
    channels: &Vec<String>,
    asset_ids: &Vec<String>,
    authenticated: bool,
) -> (r: Result<WebsocketConfig, PolymarketError>)
    ensures
        r is Ok <==> ws_url@.len() > 0 && channels@.len() > 0 && (forall|i: int|
            0 <= i < channels@.len() ==> spec_valid_channel(#[trigger] channels@[i]@)),
        r matches Ok(c) ==> c.url@ == ws_url@ && c.channels@ == channels@ && c.asset_ids@
            == asset_ids@ && c.authenticated == authenticated && c.status is Disconnected,
        r matches Err(e) ==> e.code is ConfigError,
{
    if ws_url.is_empty() {
        return Err(PolymarketError::config_error("WebSocket URL is required".to_owned()));
    }
    if channels.len() == 0 {
        return Err(
            PolymarketError::config_error("At least one channel must be specified".to_owned()),
        );
    }
    let mut i: usize = 0;
    while i < channels.len()
        invariant
            0 <= i <= channels@.len(),
            forall|k: int| 0 <= k < i ==> spec_valid_channel(#[trigger] channels@[k]@),
        decreases channels@.len() - i,
    {
        if !is_valid_channel(&channels[i]) {
            let mut message = String::new();
            message.append("Invalid channel: ");
            message.append(channels[i].as_str());
            message.append(". Valid channels are: book, price, trade, ticker, user");
            return Err(PolymarketError::config_error(message));
        }
        i += 1;
    }
    let channels_copy = clone_strings(channels);
    let asset_ids_copy = clone_strings(asset_ids);
    Ok(
        WebsocketConfig {
            url: ws_url.to_owned(),
            channels: channels_copy,
            asset_ids: asset_ids_copy,
            authenticated,
            status: SubscriptionStatus::Disconnected,
        },
    )
}

/// Copies a vector of strings.
fn clone_strings(v: &Vec<String>) -> (r: Vec<String>)
    ensures
        r@ == v@,
{
    let mut r: Vec<String> = Vec::new();
    let mut i: usize = 0;
    while i < v.len()
        invariant
            0 <= i <= v@.len(),
            r@ =~= v@.take(i as int),
        decreases v@.len() - i,
    {
        r.push(v[i].clone());
        proof {
            assert(r@ =~= v@.take(i + 1));
        }
        i += 1;
    }
    proof {
        assert(v@.take(v@.len() as int) =~= v@);
    }
    r
}

/// The parts joined with a comma and a space between neighbours.
pub open spec fn spec_join_comma(parts: Seq<Seq<char>>) -> Seq<char>
    decreases parts.len(),
{
    if parts.len() == 0 {
        Seq::empty()
    } else if parts.len() == 1 {
        parts[0]
    } else {
        spec_join_comma(parts.drop_last()) + ", "@ + parts.last()
    }
}

/// Joins strings with `, ` between neighbours.
pub fn join_comma(parts: &Vec<String>) -> (r: String)
    ensures
        r@ == spec_join_comma(parts@.map_values(|s: String| s@)),
{
    let ghost views = parts@.map_values(|s: String| s@);
    let mut r = String::new();
    let mut i: usize = 0;
    while i < parts.len()
        invariant
            0 <= i <= parts@.len(),
            views == parts@.map_values(|s: String| s@),
            r@ == spec_join_comma(views.take(i as int)),
        decreases parts@.len() - i,
    {
        if i > 0 {
            r.append(", ");
        }
        r.append(parts[i].as_str());
        proof {
            assert(views.take(i + 1).drop_last() =~= views.take(i as int));
            assert(views.take(i + 1).last() == views[i as int]);
            if i == 0 {
                assert(views.take(1)[0] == views[0]);
            }
        }
        i += 1;
    }
    proof {
        assert(views.take(parts@.len() as int) =~= views);
    }
    r
}

/// Handles a subscription-management action. `subscribe` needs a channel and
/// at least one asset id, `unsubscribe` a channel, `status` nothing; any
/// other action is rejected. The returned text names the channel and, for a
/// subscription, the asset ids.
pub fn handle_realtime_updates(
    action: &str,
    channel: Option<&str>,
    asset_ids: Option<&Vec<String>>,
) -> (r: Result<String, PolymarketError>)
    ensures
        r matches Err(e) ==> e.code is ConfigError,
        (action@ == "subscribe"@ && channel is Some && asset_ids is Some && asset_ids->0@.len()
            > 0) ==> (r is Ok && r->Ok_0@ == "Subscribed to "@ + channel->0@
            + " channel for assets: "@ + spec_join_comma(
            asset_ids->0@.map_values(|s: String| s@),
        )),
        (action@ == "unsubscribe"@ && channel is Some) ==> (r is Ok && r->Ok_0@
            == "Unsubscribed from "@ + channel->0@ + " channel"@),
        action@ == "status"@ ==> (r is Ok && r->Ok_0@
            == "WebSocket status: Use PolymarketService for actual connection management"@),
        (action@ == "subscribe"@ && (channel is None || asset_ids is None || (asset_ids is Some
            && asset_ids->0@.len() == 0))) ==> r is Err,
        (action@ == "unsubscribe"@ && channel is None) ==> r is Err,
        (action@ != "subscribe"@ && action@ != "unsubscribe"@ && action@ != "status"@) ==> r is Err,
{
    proof {
        reveal_strlit("subscribe");
        reveal_strlit("unsubscribe");
        reveal_strlit("status");
        assert("subscribe"@.len() == 9 && "unsubscribe"@.len() == 11 && "status"@.len() == 6);
    }
    let action_string = action.to_owned();
    if action_string.eq(&"subscribe".to_owned()) {
        let c = match channel {
            Some(c) => c,
            None => {
                return Err(
                    PolymarketError::config_error(
                        "Channel is required for subscription".to_owned(),
                    ),
                );
            },
        };
        let ids = match asset_ids {
            Some(a) => a,
            None => {
                return Err(
                    PolymarketError::config_error(
                        "Asset IDs are required for subscription".to_owned(),
                    ),
                );
            },
        };
        if ids.len() == 0 {
            return Err(
                PolymarketError::config_error(
                    "At least one asset ID is required for subscription".to_owned(),
                ),
            );
        }
        let mut m = String::new();
        m.append("Subscribed to ");
        m.append(c);
        m.append(" channel for assets: ");
        let joined = join_comma(ids);
        m.append(joined.as_str());
        Ok(m)
    } else if action_string.eq(&"unsubscribe".to_owned()) {
        let c = match channel {
            Some(c) => c,
            None => {
                return Err(
                    PolymarketError::config_error(
                        "Channel is required for unsubscription".to_owned(),
                    ),
                );
            },
        };
        let mut m = String::new();
        m.append("Unsubscribed from ");
        m.append(c);
        m.append(" channel");
        Ok(m)
    } else if action_string.eq(&"status".to_owned()) {
        Ok("WebSocket status: Use PolymarketService for actual connection management".to_owned())
    } else {
        let mut message = String::new();
        message.append("Invalid action: ");
        message.append(action);
        message.append(". Valid actions are: subscribe, unsubscribe, status");
        Err(PolymarketError::config_error(message))
    }
}

} // verus!
