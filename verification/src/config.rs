//! The API server's configuration, read from a resolved environment map.

use std::collections::BTreeMap;
use vstd::prelude::*;

verus! {

/// Environment key that holds the HTTP bind address.
pub const BIND: &'static str = "API_BIND";

/// Environment key that holds the optional raw TCP bind address.
pub const TCP_BIND: &'static str = "API_TCP_BIND";

/// Environment key that holds the optional NATS connection URL.
pub const NATS_URL: &'static str = "NATS_URL";

/// Bind address used when the environment names none.
pub const DEFAULT_BIND: &'static str = "127.0.0.1:8080";

/// The value that a resolved environment holds under `key`, if any.
pub open spec fn env_value(environment: Map<Seq<char>, Seq<char>>, key: Seq<char>) -> Option<
    Seq<char>,
> {
    if environment.contains_key(key) {
        Some(environment[key])
    } else {
        None
    }
}

/// Looks `key` up in the resolved environment (`BTreeMap::get`, then a clone
/// of the value). The contract claims that a value comes back exactly when
/// the map holds an entry whose key has the same text as `key`, and that it
/// is that entry's value.
#[verifier::external_body]
fn lookup(environment: &BTreeMap<String, String>, key: &str) -> (value: Option<String>)
    ensures
        match value {
            Some(v) => env_value(environment.deep_view(), key@) == Some(v@),
            None => env_value(environment.deep_view(), key@) is None,
        },
{
    environment.get(key).cloned()
}

/// The server's settings: where HTTP is served, and the optional raw TCP
/// listener and NATS connection.
#[derive(Clone, Debug)]
pub struct ApiConfig {
    pub bind: String,
    pub tcp_bind: Option<String>,
    pub nats_url: Option<String>,
}

/// The text of an optional string.
pub open spec fn opt_text(s: Option<String>) -> Option<Seq<char>> {
    match s {
        Some(v) => Some(v@),
        None => None,
    }
}

impl ApiConfig {
    /// Reads the configuration from a resolved environment: the bind address
    /// falls back to `127.0.0.1:8080`; the other two settings stay absent
    /// when the environment does not name them.
    pub fn from_map(environment: &BTreeMap<String, String>) -> (config: Self)
        ensures
            config.bind@ == match env_value(environment.deep_view(), BIND@) {
                Some(v) => v,
                None => DEFAULT_BIND@,
            },
            opt_text(config.tcp_bind) == env_value(environment.deep_view(), TCP_BIND@),
            opt_text(config.nats_url) == env_value(environment.deep_view(), NATS_URL@),
            !environment.deep_view().contains_key(BIND@) ==> config.bind@ == DEFAULT_BIND@,
            environment.deep_view().contains_key(BIND@) ==> config.bind@
                == environment.deep_view()[BIND@],
            config.tcp_bind is None <==> !environment.deep_view().contains_key(TCP_BIND@),
            config.tcp_bind matches Some(v) ==> v@ == environment.deep_view()[TCP_BIND@],
            config.nats_url is None <==> !environment.deep_view().contains_key(NATS_URL@),
            config.nats_url matches Some(v) ==> v@ == environment.deep_view()[NATS_URL@],
    {
        let bind = match lookup(environment, BIND) {
            Some(v) => v,
            None => DEFAULT_BIND.to_owned(),
        };
        ApiConfig {
            bind,
            tcp_bind: lookup(environment, TCP_BIND),
            nats_url: lookup(environment, NATS_URL),
        }
    }
}

} // verus!
