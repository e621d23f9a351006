//! Configuration of the client of the feed service: where the
//! active-statuses resource lives, the credential sent to it, and the HTTP
//! client that carries the requests.

use vstd::prelude::*;
use vstd::string::StringExecFns;

verus! {

#[verifier::external_type_specification]
#[verifier::external_body]
pub struct ExClient(reqwest::Client);

/// The service's API root, unless configured otherwise.
pub const DEFAULT_TRAEWELLING_BASE_URL: &'static str = "https://traewelling.de/api/v1";

/// The `User-Agent` the exporter identifies itself with.
pub const USER_AGENT: &'static str = "traewelling_exporter/0.1.0";

/// Seconds a request may take, connecting and reading included.
pub const REQUEST_TIMEOUT_SECS: u64 = 10;

/// Relies on `reqwest::Client::builder`, `ClientBuilder::user_agent`,
/// `ClientBuilder::timeout` and `ClientBuilder::build`: an HTTP client sending
/// the given `User-Agent` and giving up on a request after the given seconds,
/// or the text of the error that kept it from being built.
#[verifier::external_body]
fn create_default_client(user_agent: &str, timeout_secs: u64) -> (r: Result<reqwest::Client, String>) {
    let timeout = std::time::Duration::from_secs(timeout_secs);
    reqwest::Client::builder()
        .user_agent(user_agent)
        .timeout(timeout)
        .build()
        .map_err(|e| e.to_string())
}

/// A client of the feed service: its API root (an absolute URL, as text),
/// the HTTP client, and the bearer token sent, if any.
pub struct TraewellingClient {
    pub base_url: String,
    pub client: reqwest::Client,
    pub token: Option<String>,
}

/// The settings a client is built from; those left unset take their default.
pub struct TraewellingClientBuilder {
    pub base_url: Option<String>,
    pub client: Option<reqwest::Client>,
    pub token: Option<String>,
}

impl TraewellingClientBuilder {
    /// Sets the API root.
    pub fn with_base_url(self, base_url: String) -> (r: Self)
        ensures
            r.base_url == Some(base_url),
            r.client == self.client,
            r.token == self.token,
    {
        TraewellingClientBuilder { base_url: Some(base_url), ..self }
    }

    /// Records an HTTP client; `build` makes its own client and does not use it.
    pub fn with_client(self, client: reqwest::Client) -> (r: Self)
        ensures
            r.base_url == self.base_url,
            r.client == Some(client),
            r.token == self.token,
    {
        TraewellingClientBuilder { client: Some(client), ..self }
    }

    /// Sets or clears the bearer token.
    pub fn with_token(self, token: Option<String>) -> (r: Self)
        ensures
            r.base_url == self.base_url,
            r.client == self.client,
            r.token == token,
    {
        TraewellingClientBuilder { token, ..self }
    }

    /// Builds the client: the API root defaults to the service's public one.
    /// The HTTP client is always a new one that sends the exporter's
    /// `User-Agent`; one set with `with_client` is not used.
    pub fn build(self) -> (r: Result<TraewellingClient, String>)
        ensures
            r matches Ok(c) ==> c.token == self.token && (self.base_url matches Some(u) ==> c.base_url
                == u) && (self.base_url is None ==> c.base_url@
                == DEFAULT_TRAEWELLING_BASE_URL@),
    {
        let base_url = match self.base_url {
            Some(u) => u,
            None => String::from_str(DEFAULT_TRAEWELLING_BASE_URL),
        };
        let client = match create_default_client(USER_AGENT, REQUEST_TIMEOUT_SECS) {
            Ok(h) => h,
            Err(e) => {
                return Err(e);
            },
        };
        Ok(TraewellingClient { base_url, client, token: self.token })
    }
}

impl TraewellingClient {
    /// The client with every setting at its default: the service's public
    /// API root and no token.
    pub fn default_client() -> (r: Result<TraewellingClient, String>)
        ensures
            r matches Ok(c) ==> c.token is None && c.base_url@ == DEFAULT_TRAEWELLING_BASE_URL@,
    {
        TraewellingClient::builder().build()
    }

    /// A builder with every setting unset.
    pub fn builder() -> (r: TraewellingClientBuilder)
        ensures
            r.base_url is None,
            r.client is None,
            r.token is None,
    {
        TraewellingClientBuilder { base_url: None, client: None, token: None }
    }

    /// The statuses resources of the service.
    pub fn statuses(&self) -> (r: StatusCategory<'_>)
        ensures
            r.client == self,
    {
        StatusCategory { client: self }
    }
}

/// The statuses resources of a client.
pub struct StatusCategory<'a> {
    pub client: &'a TraewellingClient,
}

impl<'a> StatusCategory<'a> {
    /// The URL of the active-statuses resource: `/statuses` under the API root.
    pub fn active_statuses_url(&self) -> (r: String)
        ensures
            r@ == self.client.base_url@ + "/statuses"@,
    {
        self.client.base_url.clone().concat("/statuses")
    }
}

} // verus!
