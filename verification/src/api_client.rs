//! The brokerage API client's pure parts: endpoint URLs, the wire
//! authorization and synchronization requests, and token-lifetime decisions.
//! The HTTP exchanges themselves live outside the library; this module only
//! states what is sent and when renewal is due.

use vstd::prelude::*;
use vstd::string::StringExecFns;

use crate::decimal::{dec_int, i64_to_string};
use crate::outside::{parse_url_normalized, url_normalized};
use crate::settings::{
    DEMO_TRADING_URL, LIVE_MARKET_DATA_URL, LIVE_TRADING_URL, TOKEN_RENEWAL_WINDOW_MS,
};

verus! {

/// Which deployment the client talks to.
#[derive(Debug, Clone, Copy, PartialEq, Eq, Structural)]
pub enum Server {
    Live,
    Demo,
}

/// Which of the two services a request addresses.
#[derive(Debug, Clone, Copy, PartialEq, Eq, Structural)]
pub enum ResourceType {
    Trading,
    MarketData,
    Any,
}

/// The scheme a URL is built under.
#[derive(Debug, Clone, Copy, PartialEq, Eq, Structural)]
pub enum Protocol {
    Https,
    Wss,
}

/// The websocket URL text assembled for a host, before normalization.
pub open spec fn wss_raw(base: Seq<char>) -> Seq<char> {
    "wss://"@ + base + "/v1/websocket"@
}

impl Protocol {
    /// Prefix a host with the scheme; websocket URLs are normalized through
    /// the URL parser, falling back to the assembled text when it is not a
    /// parseable URL.
    pub fn add_prefix(&self, base_url: &str) -> (r: String)
        ensures
            match self {
                Protocol::Https => r@ == "https://"@ + base_url@,
                Protocol::Wss => match url_normalized(wss_raw(base_url@)) {
                    Some(t) => r@ == t,
                    None => r@ == wss_raw(base_url@),
                },
            },
    {
        match self {
            Protocol::Https => {
                let mut s: String = String::from_str("https://");
                s.append(base_url);
                s
            },
            Protocol::Wss => {
                let mut s: String = String::from_str("wss://");
                s.append(base_url);
                s.append("/v1/websocket");
                match parse_url_normalized(s.as_str()) {
                    Some(t) => t,
                    None => s,
                }
            },
        }
    }
}

/// The client's identity and current access token.
#[derive(Debug, Clone)]
pub struct TradovateAPIClient {
    pub server_type: Server,
    pub app_id: String,
    pub app_version: String,
    pub device_id: String,
    pub access_token: String,
    pub token_expiration_time: i64,
    pub user_id: i64,
}

impl TradovateAPIClient {
    /// A fresh client with no token yet; the device id is supplied by the
    /// caller (it identifies the machine to the credential service).
    pub fn new(server_type: Server, app_id: &str, app_version: &str, device_id: String) -> (r:
        Self)
        ensures
            r.server_type == server_type,
            r.app_id@ == app_id@,
            r.app_version@ == app_version@,
            r.device_id == device_id,
            r.access_token@ == Seq::<char>::empty(),
            r.token_expiration_time == 0,
            r.user_id == 0,
    {
        TradovateAPIClient {
            app_id: app_id.to_owned(),
            app_version: app_version.to_owned(),
            device_id,
            access_token: String::new(),
            token_expiration_time: 0,
            server_type,
            user_id: 0,
        }
    }

    /// The host a resource lives on for this client's deployment.
    pub open spec fn host_of(self, resource_type: ResourceType) -> Seq<char> {
        match self.server_type {
            Server::Live => match resource_type {
                ResourceType::MarketData => LIVE_MARKET_DATA_URL@,
                _ => LIVE_TRADING_URL@,
            },
            Server::Demo => match resource_type {
                ResourceType::MarketData => LIVE_MARKET_DATA_URL@,
                _ => DEMO_TRADING_URL@,
            },
        }
    }

    /// The service URL for a resource under a scheme.
    pub fn url(&self, resource_type: ResourceType, protocol: Protocol) -> (r: String)
        requires
            !(resource_type is Any),
        ensures
            match protocol {
                Protocol::Https => r@ == "https://"@ + self.host_of(resource_type),
                Protocol::Wss => match url_normalized(wss_raw(self.host_of(resource_type))) {
                    Some(t) => r@ == t,
                    None => r@ == wss_raw(self.host_of(resource_type)),
                },
            },
    {
        match self.server_type {
            Server::Live => match resource_type {
                ResourceType::MarketData => protocol.add_prefix(LIVE_MARKET_DATA_URL),
                _ => protocol.add_prefix(LIVE_TRADING_URL),
            },
            Server::Demo => match resource_type {
                ResourceType::MarketData => protocol.add_prefix(LIVE_MARKET_DATA_URL),
                _ => protocol.add_prefix(DEMO_TRADING_URL),
            },
        }
    }

    /// The websocket authorization request: the `authorize` endpoint under
    /// request id 1, carrying the bearer token.
    pub fn ws_auth_msg(&self, resource_type: ResourceType) -> (r: String)
        requires
            !(resource_type is Any),
        ensures
            r@ == "authorize\n1\n\n"@ + self.access_token@,
    {
        let mut s: String = String::from_str("authorize\n1\n\n");
        s.append(self.access_token.as_str());
        s
    }

    /// The account synchronization request under request id 2.
    pub fn get_user_sync_request(&self) -> (r: String)
        ensures
            r@ == "user/syncrequest\n2\n\n{\"users\":["@ + dec_int(self.user_id as int)
                + "]}"@,
    {
        let mut s: String = String::from_str("user/syncrequest\n2\n\n{\"users\":[");
        let uid = i64_to_string(self.user_id);
        s.append(uid.as_str());
        s.append("]}");
        s
    }

    /// True while the token has not yet expired.
    pub fn token_is_valid(&self, now_ms: i64) -> (r: bool)
        ensures
            r == (now_ms < self.token_expiration_time),
    {
        now_ms < self.token_expiration_time
    }

    /// True once renewal is due: less than the renewal window remains
    /// before the token expires.
    pub fn needs_renewal(&self, now_ms: i64) -> (r: bool)
        ensures
            r == (now_ms > self.token_expiration_time - TOKEN_RENEWAL_WINDOW_MS),
    {
        now_ms as i128 > self.token_expiration_time as i128 - TOKEN_RENEWAL_WINDOW_MS as i128
    }
}

} // verus!
