use std::time::Duration;

use vstd::prelude::*;

verus! {

#[verifier::external_type_specification]
#[verifier::external_body]
pub struct ExUrl(url::Url);

#[verifier::external_type_specification]
#[verifier::external_body]
pub struct ExUrlParseError(url::ParseError);

/// Whether a text parses as an absolute URL.
pub uninterp spec fn url_parses(s: Seq<char>) -> bool;

/// Relies on url::Url::parse: whether a text parses as a URL depends on the
/// text alone.
#[verifier::external_body]
fn parse_url(s: &str) -> (r: Result<url::Url, url::ParseError>)
    ensures
        r is Ok <==> url_parses(s@),
{
    url::Url::parse(s)
}

/// Client certificate and private key paths for TLS mutual authentication.
#[derive(Debug)]
pub struct ClientCreds {
    pub cert: String,
    pub key: String,
}

impl ClientCreds {
    /// Credentials when both a certificate and a key are given, else none.
    pub fn from_options(cert: Option<String>, key: Option<String>) -> (r: Option<ClientCreds>)
        ensures
            r is Some <==> (cert is Some && key is Some),
            r is Some ==> r->Some_0.cert == cert->Some_0 && r->Some_0.key == key->Some_0,
    {
        match (cert, key) {
            (Some(cert), Some(key)) => Some(ClientCreds { cert, key }),
            _ => None,
        }
    }
}

/// Why a client configuration is unusable.
#[derive(Debug)]
pub enum ConfigError {
    MissingUrl,
    InvalidUrl(url::ParseError),
}

/// Builder for the configuration of an EdenAPI client.
#[derive(Debug)]
pub struct Builder {
    pub server_url: Option<url::Url>,
    pub client_creds: Option<ClientCreds>,
    pub ca_bundle: Option<String>,
    pub headers: Vec<(String, String)>,
    pub max_files: Option<usize>,
    pub max_trees: Option<usize>,
    pub max_history: Option<usize>,
    pub timeout: Option<Duration>,
}

/// A validated client configuration: the server URL is present and batch
/// sizes of zero mean no limit.
#[derive(Debug)]
pub struct Config {
    pub server_url: url::Url,
    pub client_creds: Option<ClientCreds>,
    pub ca_bundle: Option<String>,
    pub headers: Vec<(String, String)>,
    pub max_files: Option<usize>,
    pub max_trees: Option<usize>,
    pub max_history: Option<usize>,
    pub timeout: Option<Duration>,
}

/// A batch size of zero means no limit.
pub open spec fn positive_limit(n: Option<usize>) -> Option<usize> {
    match n {
        Some(k) => if k > 0 {
            Some(k)
        } else {
            None
        },
        None => None,
    }
}

fn limit(n: Option<usize>) -> (r: Option<usize>)
    ensures
        r == positive_limit(n),
{
    match n {
        Some(k) => if k > 0 {
            Some(k)
        } else {
            None
        },
        None => None,
    }
}

/// The server URL of a configuration: required, and it must parse.
pub fn server_url_from_value(value: Option<String>) -> (r: Result<url::Url, ConfigError>)
    ensures
        value is None ==> r matches Err(ConfigError::MissingUrl),
        value is Some ==> (r is Ok <==> url_parses(value->Some_0@)),
        value is Some && !url_parses(value->Some_0@) ==> r matches Err(ConfigError::InvalidUrl(_)),
{
    match value {
        None => Err(ConfigError::MissingUrl),
        Some(s) => match parse_url(s.as_str()) {
            Ok(u) => Ok(u),
            Err(e) => Err(ConfigError::InvalidUrl(e)),
        },
    }
}

impl Builder {
    /// A builder with nothing set.
    pub fn new() -> (r: Builder)
        ensures
            r.server_url is None,
            r.client_creds is None,
            r.ca_bundle is None,
            r.headers@.len() == 0,
            r.max_files is None,
            r.max_trees is None,
            r.max_history is None,
            r.timeout is None,
    {
        Builder {
            server_url: None,
            client_creds: None,
            ca_bundle: None,
            headers: Vec::new(),
            max_files: None,
            max_trees: None,
            max_history: None,
            timeout: None,
        }
    }

    /// A builder from configuration values: the server URL is required and
    /// must parse; the other values are taken as they are.
    pub fn from_config(
        url: Option<String>,
        client_creds: Option<ClientCreds>,
        ca_bundle: Option<String>,
        headers: Vec<(String, String)>,
        max_files: Option<usize>,
        max_trees: Option<usize>,
        max_history: Option<usize>,
        timeout: Option<Duration>,
    ) -> (r: Result<Builder, ConfigError>)
        ensures
            url is None ==> r matches Err(ConfigError::MissingUrl),
            url is Some ==> (r is Ok <==> url_parses(url->Some_0@)),
            url is Some && !url_parses(url->Some_0@) ==> r matches Err(ConfigError::InvalidUrl(_)),
            r is Ok ==> {
                let b = r->Ok_0;
                &&& b.server_url is Some
                &&& b.client_creds == client_creds
                &&& b.ca_bundle == ca_bundle
                &&& b.headers == headers
                &&& b.max_files == max_files
                &&& b.max_trees == max_trees
                &&& b.max_history == max_history
                &&& b.timeout == timeout
            },
    {
        let server_url = match server_url_from_value(url) {
            Ok(u) => u,
            Err(e) => {
                return Err(e);
            },
        };
        Ok(
            Builder {
                server_url: Some(server_url),
                client_creds,
                ca_bundle,
                headers,
                max_files,
                max_trees,
                max_history,
                timeout,
            },
        )
    }

    /// Sets the server URL.
    pub fn server_url(self, url: url::Url) -> (r: Builder)
        ensures
            r == (Builder { server_url: Some(url), ..self }),
    {
        Builder { server_url: Some(url), ..self }
    }

    /// Sets the client certificate and key paths.
    pub fn client_creds(self, cert: String, key: String) -> (r: Builder)
        ensures
            r == (Builder { client_creds: Some(ClientCreds { cert, key }), ..self }),
    {
        Builder { client_creds: Some(ClientCreds { cert, key }), ..self }
    }

    /// Sets the CA certificate bundle that validates the server.
    pub fn ca_bundle(self, ca: String) -> (r: Builder)
        ensures
            r == (Builder { ca_bundle: Some(ca), ..self }),
    {
        Builder { ca_bundle: Some(ca), ..self }
    }

    /// Sets the extra HTTP headers sent with each request.
    pub fn headers(self, headers: Vec<(String, String)>) -> (r: Builder)
        ensures
            r == (Builder { headers, ..self }),
    {
        Builder { headers, ..self }
    }

    /// Sets the maximum number of keys per file request.
    pub fn max_files(self, size: Option<usize>) -> (r: Builder)
        ensures
            r == (Builder { max_files: size, ..self }),
    {
        Builder { max_files: size, ..self }
    }

    /// Sets the maximum number of keys per tree request.
    pub fn max_trees(self, size: Option<usize>) -> (r: Builder)
        ensures
            r == (Builder { max_trees: size, ..self }),
    {
        Builder { max_trees: size, ..self }
    }

    /// Sets the maximum number of keys per history request.
    pub fn max_history(self, size: Option<usize>) -> (r: Builder)
        ensures
            r == (Builder { max_history: size, ..self }),
    {
        Builder { max_history: size, ..self }
    }

    /// Sets the timeout of HTTP requests.
    pub fn timeout(self, timeout: Duration) -> (r: Builder)
        ensures
            r == (Builder { timeout: Some(timeout), ..self }),
    {
        Builder { timeout: Some(timeout), ..self }
    }

    /// The validated configuration: fails without a server URL; batch sizes
    /// of zero become no limit.
    pub fn build(self) -> (r: Result<Config, ConfigError>)
        ensures
            self.server_url is None ==> r matches Err(ConfigError::MissingUrl),
            self.server_url is Some ==> r is Ok && r->Ok_0 == (Config {
                server_url: self.server_url->Some_0,
                client_creds: self.client_creds,
                ca_bundle: self.ca_bundle,
                headers: self.headers,
                max_files: positive_limit(self.max_files),
                max_trees: positive_limit(self.max_trees),
                max_history: positive_limit(self.max_history),
                timeout: self.timeout,
            }),
    {
        let Builder {
            server_url,
            client_creds,
            ca_bundle,
            headers,
            max_files,
            max_trees,
            max_history,
            timeout,
        } = self;
        let server_url = match server_url {
            Some(u) => u,
            None => {
                return Err(ConfigError::MissingUrl);
            },
        };
        Ok(
            Config {
                server_url,
                client_creds,
                ca_bundle,
                headers,
                max_files: limit(max_files),
                max_trees: limit(max_trees),
                max_history: limit(max_history),
                timeout,
            },
        )
    }
}

} // verus!
