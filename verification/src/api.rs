//! The client's identity, and the errors of the connectivity probe.
//!
//! The network calls themselves live outside the library; what is kept
//! here is the data they need: the endpoint URL derived from the
//! controller's base URL, the API key, and the error vocabulary of the
//! URL probe.

use vstd::prelude::*;

verus! {

/// Where and how to reach the controller: the JSON-RPC endpoint URL, the
/// API key, and whether to report verbosely.
#[derive(Debug, Clone, PartialEq)]
pub struct JeedomClient {
    pub url: String,
    pub apikey: String,
    pub debug: bool,
}

impl JeedomClient {
    /// Builds a client for the controller at `jeedom_url`, pointing at
    /// its JSON-RPC endpoint path.
    pub fn new(jeedom_url: String, apikey: String, debug: bool) -> (r: Self)
        ensures
            r.url@ == jeedom_url@ + "/core/api/jeeApi.php"@,
            r.apikey == apikey,
            r.debug == debug,
    {
        let mut url = jeedom_url;
        url.append("/core/api/jeeApi.php");
        Self { url, apikey, debug }
    }
}

/// Why no reachable controller URL could be chosen.
#[derive(Debug, Clone, PartialEq)]
pub enum ConnectivityErrors {
    /// The URL could not be parsed; carries the parser's message.
    UrlNotParsable(String),
    /// No candidate URL answered.
    NoGivenUrlCanBeReached,
    /// The URL names no host.
    UrlHostUnknown(String),
    /// The URL names no usable port.
    UrlPortUnknown(String),
}

} // verus!
