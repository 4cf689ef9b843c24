use vstd::prelude::*;
use crate::retry::RetryPolicy;

verus! {

/// Process-wide defaults for every connection.
#[derive(Debug, Clone, Copy, PartialEq, Eq, Structural)]
pub struct GlobalConfigOptions {
    pub max_retries: usize,
    pub retry_timeout_sec: u64,
}

/// The parameters of a connection to a storage container. An empty string
/// stands for a parameter that is not given, and a zero retry setting for the
/// global default.
#[derive(Debug, Clone)]
pub struct AzureConnection {
    pub account: String,
    pub container: String,
    pub access_key: String,
    pub host: String,
    pub sas_token: String,
    pub max_retries: usize,
    pub retry_timeout_sec: u64,
}

/// Account, container, key and host: a connection without a SAS token or
/// retry overrides.
#[derive(Debug)]
pub struct AzureCredentials {
    pub account: String,
    pub container: String,
    pub key: String,
    pub host: String,
}

impl AzureCredentials {
    /// The connection that these credentials describe, with the global retry
    /// defaults.
    pub fn to_connection(&self) -> (r: AzureConnection)
        ensures
            r.account@ == self.account@,
            r.container@ == self.container@,
            r.access_key@ == self.key@,
            r.host@ == self.host@,
            r.sas_token@.len() == 0,
            r.max_retries == 0,
            r.retry_timeout_sec == 0,
    {
        AzureConnection {
            account: self.account.clone(),
            container: self.container.clone(),
            access_key: self.key.clone(),
            host: self.host.clone(),
            sas_token: String::new(),
            max_retries: 0,
            retry_timeout_sec: 0,
        }
    }
}

/// The cache key of a connection: every one of its fields.
pub type ConnectionKey = (String, String, String, String, String, usize, u64);

pub open spec fn connection_key(c: AzureConnection) -> (
    Seq<char>,
    Seq<char>,
    Seq<char>,
    Seq<char>,
    Seq<char>,
    usize,
    u64,
) {
    (c.account@, c.container@, c.access_key@, c.host@, c.sas_token@, c.max_retries, c.retry_timeout_sec)
}

pub open spec fn key_view(k: ConnectionKey) -> (
    Seq<char>,
    Seq<char>,
    Seq<char>,
    Seq<char>,
    Seq<char>,
    usize,
    u64,
) {
    (k.0@, k.1@, k.2@, k.3@, k.4@, k.5, k.6)
}

/// The retry count that applies to a connection.
pub open spec fn effective_max_retries(c: AzureConnection, g: GlobalConfigOptions) -> usize {
    if c.max_retries > 0 {
        c.max_retries
    } else {
        g.max_retries
    }
}

/// The retry timeout, in seconds, that applies to a connection.
pub open spec fn effective_retry_timeout_sec(c: AzureConnection, g: GlobalConfigOptions) -> u64 {
    if c.retry_timeout_sec > 0 {
        c.retry_timeout_sec
    } else {
        g.retry_timeout_sec
    }
}

impl AzureConnection {
    /// The key under which the client of this connection is cached.
    pub fn cache_key(&self) -> (r: ConnectionKey)
        ensures
            key_view(r) == connection_key(*self),
    {
        (
            self.account.clone(),
            self.container.clone(),
            self.access_key.clone(),
            self.host.clone(),
            self.sas_token.clone(),
            self.max_retries,
            self.retry_timeout_sec,
        )
    }

    /// The retry count for this connection: its own when it sets one, else
    /// the global default.
    pub fn max_retries_or(&self, config: &GlobalConfigOptions) -> (r: usize)
        ensures
            r == effective_max_retries(*self, *config),
    {
        if self.max_retries > 0 {
            self.max_retries
        } else {
            config.max_retries
        }
    }

    /// The retry timeout for this connection, in seconds: its own when it
    /// sets one, else the global default.
    pub fn retry_timeout_sec_or(&self, config: &GlobalConfigOptions) -> (r: u64)
        ensures
            r == effective_retry_timeout_sec(*self, *config),
    {
        if self.retry_timeout_sec > 0 {
            self.retry_timeout_sec
        } else {
            config.retry_timeout_sec
        }
    }
}

/// Two connections that differ in any field have different cache keys, so
/// they never share a client.
pub proof fn lemma_distinct_connections_distinct_keys(a: AzureConnection, b: AzureConnection)
    requires
        a.account@ != b.account@ || a.container@ != b.container@ || a.access_key@ != b.access_key@
            || a.host@ != b.host@ || a.sas_token@ != b.sas_token@ || a.max_retries != b.max_retries
            || a.retry_timeout_sec != b.retry_timeout_sec,
    ensures
        connection_key(a) != connection_key(b),
{
}

/// Everything needed to build the storage client of a connection.
#[derive(Debug)]
pub struct ConnectionPlan {
    pub account: String,
    pub container: String,
    /// The access key, when one is given.
    pub access_key: Option<String>,
    /// The SAS token, when one is given.
    pub sas_token: Option<String>,
    /// The emulator's base URL, when a host override is given.
    pub emulator_url: Option<String>,
    pub max_retries: usize,
    pub retry_timeout_sec: u64,
}

/// The fixed wait between two runs of a failed operation, in milliseconds.
pub const RETRY_DELAY_MS: u64 = 500;

impl ConnectionPlan {
    /// The retry policy of operations on this connection: a first run and up
    /// to `max_retries` more, `RETRY_DELAY_MS` apart.
    pub fn retry_policy(&self) -> (r: RetryPolicy)
        ensures
            r.max_attempts == (if self.max_retries == usize::MAX {
                usize::MAX as int
            } else {
                self.max_retries + 1
            }),
            r.delay_ms == RETRY_DELAY_MS,
    {
        let attempts: usize = if self.max_retries == usize::MAX {
            usize::MAX
        } else {
            self.max_retries + 1
        };
        RetryPolicy::new(attempts, RETRY_DELAY_MS)
    }
}

/// Why a storage client could not be planned.
#[derive(Debug)]
pub enum ConnectError {
    /// The host override is not a valid URL; the message says why.
    InvalidHost(String),
}

impl ConnectError {
    /// A human-readable description of the error.
    pub fn message(&self) -> (r: String)
        ensures
            match self {
                ConnectError::InvalidHost(m) => r@ == m@,
            },
    {
        match self {
            ConnectError::InvalidHost(m) => m.clone(),
        }
    }
}

pub open spec fn optional(s: Seq<char>) -> Option<Seq<char>> {
    if s.len() == 0 {
        None
    } else {
        Some(s)
    }
}

pub open spec fn option_view(o: Option<String>) -> Option<Seq<char>> {
    match o {
        Some(s) => Some(s@),
        None => None,
    }
}

fn non_empty(s: &String) -> (r: Option<String>)
    ensures
        option_view(r) == optional(s@),
{
    if s.as_str().is_empty() {
        None
    } else {
        Some(s.clone())
    }
}

/// The plan for a connection, given the emulator URL derived from its host
/// override, if any.
pub fn assemble_plan(
    connection: &AzureConnection,
    config: &GlobalConfigOptions,
    emulator_url: Option<String>,
) -> (r: ConnectionPlan)
    ensures
        r.account@ == connection.account@,
        r.container@ == connection.container@,
        option_view(r.access_key) == optional(connection.access_key@),
        option_view(r.sas_token) == optional(connection.sas_token@),
        r.emulator_url == emulator_url,
        r.max_retries == effective_max_retries(*connection, *config),
        r.retry_timeout_sec == effective_retry_timeout_sec(*connection, *config),
{
    ConnectionPlan {
        account: connection.account.clone(),
        container: connection.container.clone(),
        access_key: non_empty(&connection.access_key),
        sas_token: non_empty(&connection.sas_token),
        emulator_url,
        max_retries: connection.max_retries_or(config),
        retry_timeout_sec: connection.retry_timeout_sec_or(config),
    }
}

/// The text of `host` parsed as a URL with its path cleared, or `None` when
/// it does not parse.
pub uninterp spec fn url_base_of(host: Seq<char>) -> Option<Seq<char>>;

/// Relies on url::Url::parse, Url::set_path and Url::as_str: parses the host
/// override, clears its path and gives back its text; a parse failure gives
/// the parser's message.
#[verifier::external_body]
fn emulator_base_url(host: &str) -> (r: Result<String, String>)
    ensures
        match r {
            Ok(u) => url_base_of(host@) == Some(u@),
            Err(_) => url_base_of(host@) is None,
        },
{
    match url::Url::parse(host) {
        Ok(mut url) => {
            url.set_path("");
            Ok(url.as_str().to_string())
        },
        Err(e) => Err(e.to_string()),
    }
}

/// Plans the storage client of a connection: its own retry settings where
/// it sets them, the global ones elsewhere, the credentials that are given,
/// and the emulator URL when a host override is given. A host override that
/// is not a URL is an error.
pub fn plan_connection(connection: &AzureConnection, config: &GlobalConfigOptions) -> (r: Result<
    ConnectionPlan,
    ConnectError,
>)
    ensures
        r.is_err() <==> connection.host@.len() > 0 && url_base_of(connection.host@) is None,
        r.is_ok() ==> {
            let p = r.unwrap();
            &&& p.account@ == connection.account@
            &&& p.container@ == connection.container@
            &&& option_view(p.access_key) == optional(connection.access_key@)
            &&& option_view(p.sas_token) == optional(connection.sas_token@)
            &&& option_view(p.emulator_url) == (if connection.host@.len() == 0 {
                None
            } else {
                url_base_of(connection.host@)
            })
            &&& p.max_retries == effective_max_retries(*connection, *config)
            &&& p.retry_timeout_sec == effective_retry_timeout_sec(*connection, *config)
        },
{
    let emulator_url = if connection.host.as_str().is_empty() {
        None
    } else {
        match emulator_base_url(connection.host.as_str()) {
            Ok(u) => Some(u),
            Err(m) => {
                return Err(ConnectError::InvalidHost(m));
            },
        }
    };
    Ok(assemble_plan(connection, config, emulator_url))
}

} // verus!
