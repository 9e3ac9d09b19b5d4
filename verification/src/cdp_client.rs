//! The client of a browser's Chrome DevTools Protocol HTTP endpoint.
//!
//! The requests themselves are sent by the program around the library; this
//! module holds the client and builds the endpoint URLs.

use vstd::prelude::*;
use vstd::string::StringExecFns;
use crate::text::{decimal, push_decimal, names_number, lemma_decimal_names};

verus! {

/// `reqwest::Client`, the HTTP client, known to Verus only by name.
#[verifier::external_type_specification]
#[verifier::external_body]
pub struct ExHttpClient(reqwest::Client);

/// `reqwest::Client::builder().timeout(..).build()`, falling back to
/// `reqwest::Client::default()` if building fails (that fallback panics if no
/// client can be built at all, which depends on the machine, not on `secs`).
/// Nothing is stated of the client, not even its timeout: it is only carried
/// along to make requests with.
#[verifier::external_body]
fn http_client_with_timeout(secs: u64) -> (c: reqwest::Client) {
    reqwest::Client::builder().timeout(std::time::Duration::from_secs(secs)).build().unwrap_or_default()
}

/// The timeout of every request, in seconds.
pub const CDP_CLIENT_TIMEOUT_SECS: u64 = 30;

/// `http://{host}:{port}/json{path}`
pub open spec fn cdp_url(host: Seq<char>, port: u16, path: Seq<char>) -> Seq<char> {
    "http://"@ + host + ":"@ + decimal(port as nat) + "/json"@ + path
}

/// An endpoint URL names the client's host, its whole port in decimal, and
/// the path under `/json`.
pub proof fn lemma_cdp_url_names_port(host: Seq<char>, port: u16, path: Seq<char>)
    ensures
        exists|d: Seq<char>|
            #[trigger] names_number(d, port as int) && cdp_url(host, port, path) == "http://"@ + host
                + ":"@ + d + "/json"@ + path,
{
    lemma_decimal_names(port as nat);
    let d = decimal(port as nat);
    assert(cdp_url(host, port, path) == "http://"@ + host + ":"@ + d + "/json"@ + path);
}

/// A client of the CDP endpoint at one host and port.
pub struct CdpClient {
    client: reqwest::Client,
    host: String,
    port: u16,
    timeout_secs: u64,
}

impl CdpClient {
    /// A client of `host:port` whose requests time out after 30 seconds.
    pub fn new(host: &str, port: u16) -> (c: Self)
        ensures
            c.host() == host@,
            c.port() == port,
            c.timeout_secs() == CDP_CLIENT_TIMEOUT_SECS,
    {
        let timeout_secs = CDP_CLIENT_TIMEOUT_SECS;
        CdpClient {
            client: http_client_with_timeout(timeout_secs),
            host: String::from_str(host),
            port,
            timeout_secs,
        }
    }

    /// The request timeout, in seconds, that the HTTP client was built with.
    pub closed spec fn timeout_secs(&self) -> u64 {
        self.timeout_secs
    }

    /// The request timeout, in seconds, that the HTTP client was built with.
    pub fn request_timeout_secs(&self) -> (t: u64)
        ensures
            t == self.timeout_secs(),
    {
        self.timeout_secs
    }

    /// The host the client talks to.
    pub closed spec fn host(&self) -> Seq<char> {
        self.host@
    }

    /// The port the client talks to.
    pub closed spec fn port(&self) -> u16 {
        self.port
    }

    /// The URL of `path` under the endpoint's `/json`.
    pub fn endpoint(&self, path: &str) -> (s: String)
        ensures
            s@ == cdp_url(self.host(), self.port(), path@),
    {
        let mut s = String::from_str("http://");
        s.append(self.host.as_str());
        s.append(":");
        push_decimal(&mut s, self.port as u64);
        s.append("/json");
        s.append(path);
        s
    }

    /// The HTTP client that the client holds.
    pub closed spec fn http_client(&self) -> reqwest::Client {
        self.client
    }

    /// The HTTP client that requests go through: the one this client holds.
    pub fn http(&self) -> (c: &reqwest::Client)
        ensures
            *c == self.http_client(),
    {
        &self.client
    }
}

/// A page or worker that the browser exposes.
#[derive(Debug, Clone)]
pub struct CdpTarget {
    pub id: String,
    pub target_type: String,
    pub title: String,
    pub url: String,
    pub web_socket_debugger_url: Option<String>,
}

/// The browser's version document.
#[derive(Debug, Clone)]
pub struct CdpVersion {
    pub browser: String,
    pub protocol_version: String,
    pub webkit_version: String,
    pub js_version: String,
}

} // verus!
