//! Where the daemon is found: its base address, and whether it is reached
//! over a Unix socket or over plain TCP.

use vstd::prelude::*;
use vstd::string::StringExecFns;

verus! {

/// The base address used when none is configured.
pub open spec fn default_url() -> Seq<char> {
    "http://localhost"@
}

/// The socket path used when none is configured.
pub open spec fn default_socket() -> Seq<char> {
    "/var/run/docker.sock"@
}

/// The path of the container list below the daemon's base address.
pub open spec fn list_path() -> Seq<char> {
    "/containers/json"@
}

/// A configured text, or `fallback` where nothing is configured. An empty
/// text counts as configured.
pub open spec fn configured_or(value: Option<Seq<char>>, fallback: Seq<char>) -> Seq<char> {
    match value {
        Some(v) => v,
        None => fallback,
    }
}

/// The resolved settings of one run.
#[derive(Debug, Clone, PartialEq, Eq)]
pub struct Config {
    /// Base address of the daemon's HTTP interface.
    pub url: String,
    /// Path of the daemon's Unix socket; empty to use plain TCP.
    pub unix: String,
}

/// How the daemon is reached.
#[derive(Debug, Clone, PartialEq, Eq)]
pub enum Transport {
    /// A plain HTTP/1 connection over TCP.
    Tcp,
    /// A connection through the Unix socket at this path.
    UnixSocket(String),
}

/// The transport that a socket setting asks for: TCP for the empty text, the
/// socket at that path for any other.
pub open spec fn transport_for(unix: Seq<char>, transport: Transport) -> bool {
    if unix.len() == 0 {
        transport is Tcp
    } else {
        transport matches Transport::UnixSocket(path) && path@ == unix
    }
}

fn text_or(value: Option<String>, fallback: &str) -> (text: String)
    ensures
        text@ == configured_or(
            match value {
                Some(v) => Some(v@),
                None => None,
            },
            fallback@,
        ),
{
    match value {
        Some(v) => v,
        None => String::from_str(fallback),
    }
}

/// Resolves the settings from what the environment holds. Either value may
/// be missing, and its default then applies; resolution cannot fail.
pub fn resolve_config(url: Option<String>, unix: Option<String>) -> (config: Config)
    ensures
        config.url@ == configured_or(
            match url {
                Some(v) => Some(v@),
                None => None,
            },
            default_url(),
        ),
        config.unix@ == configured_or(
            match unix {
                Some(v) => Some(v@),
                None => None,
            },
            default_socket(),
        ),
{
    Config { url: text_or(url, "http://localhost"), unix: text_or(unix, "/var/run/docker.sock") }
}

/// Chooses the transport for the resolved settings.
pub fn select_transport(config: &Config) -> (transport: Transport)
    ensures
        transport_for(config.unix@, transport),
{
    if config.unix.as_str().is_empty() {
        Transport::Tcp
    } else {
        Transport::UnixSocket(config.unix.clone())
    }
}

/// The address of the container list for a base address.
pub fn containers_endpoint(base_url: &str) -> (endpoint: String)
    ensures
        endpoint@ == base_url@ + list_path(),
{
    let mut endpoint = String::from_str(base_url);
    endpoint.append("/containers/json");
    endpoint
}

} // verus!
