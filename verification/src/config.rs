//! Configuration data model: ingestion mode, per-mode settings, and the sink
//! endpoint block, together with their defaults and validation.

use vstd::prelude::*;

use crate::strutil::all_digits;
use crate::strutil::ascii_lower;
use crate::strutil::dec_val;
use crate::strutil::lower_chars;
use crate::strutil::parse_bool;
use crate::strutil::parse_u64;
use crate::strutil::str_eq;
use crate::strutil::strip_prefix_str;

verus! {

/// HTTP method used against the sink.
#[derive(Clone, Copy, Debug, PartialEq, Eq, Structural)]
pub enum HttpMethod {
    Get,
    Post,
    Put,
    Delete,
    Patch,
    Head,
    Options,
}

/// Sink endpoint block: target method, authentication, TLS posture, extra
/// headers, timeouts and the retry budget. Immutable for the process
/// lifetime. Durations are carried in milliseconds.
#[derive(Clone, Debug, PartialEq, Eq)]
pub struct EndpointConfig {
    pub method: HttpMethod,
    pub username: Option<String>,
    pub password: Option<String>,
    pub token: Option<String>,
    pub tls_insecure: bool,
    pub tls_certificate: Option<String>,
    pub headers: Vec<(String, String)>,
    pub timeout_ms: Option<u64>,
    pub error_delay_ms: u64,
    pub retries: usize,
}

/// Default inter-retry delay, in milliseconds.
pub fn default_error_delay() -> (r: u64)
    ensures
        r == 1000u64,
{
    1000
}

/// Default retry budget.
pub fn default_retries() -> (r: usize)
    ensures
        r == 5usize,
{
    5
}

/// Default HTTP method for the sink.
pub fn default_method() -> (r: HttpMethod)
    ensures
        r == HttpMethod::Post,
{
    HttpMethod::Post
}

/// Whether an endpoint configuration holds every default.
pub open spec fn is_default_endpoint(e: EndpointConfig) -> bool {
    &&& e.method == HttpMethod::Post
    &&& e.username is None
    &&& e.password is None
    &&& e.token is None
    &&& e.tls_insecure == false
    &&& e.tls_certificate is None
    &&& e.headers@ == Seq::<(String, String)>::empty()
    &&& e.timeout_ms is None
    &&& e.error_delay_ms == 1000u64
    &&& e.retries == 5usize
}

impl Default for EndpointConfig {
    /// The endpoint block used when no endpoint key is configured.
    fn default() -> (r: Self)
        ensures
            is_default_endpoint(r),
    {
        let r = EndpointConfig {
            method: default_method(),
            username: None,
            password: None,
            token: None,
            tls_insecure: false,
            tls_certificate: None,
            headers: Vec::new(),
            timeout_ms: None,
            error_delay_ms: default_error_delay(),
            retries: default_retries(),
        };
        proof {
            assert(r.headers@ =~= Seq::<(String, String)>::empty());
        }
        r
    }
}

/// Settings of the partitioned-log ingestion mode.
#[derive(Clone, Debug, PartialEq, Eq)]
pub struct KafkaConfig {
    pub topic: String,
    pub bootstrap_servers: String,
    /// Free-form client properties; keys are handed to the client with `_`
    /// translated to `.`.
    pub properties: Vec<(String, String)>,
}

/// Settings of the socket-stream ingestion mode.
#[derive(Clone, Debug, PartialEq, Eq)]
pub struct WebsocketConfig {
    pub drogue_endpoint: String,
    pub drogue_app: String,
    pub drogue_user: Option<String>,
    pub drogue_token: Option<String>,
}

/// The ingestion mode, chosen once at process start.
#[derive(Clone, Debug, PartialEq, Eq)]
pub enum Mode {
    Kafka(KafkaConfig),
    Websocket(WebsocketConfig),
}

/// The whole process configuration.
#[derive(Clone, Debug, PartialEq, Eq)]
pub struct Config {
    pub endpoint: EndpointConfig,
    /// Target URL of the HTTP sink.
    pub k_sink: String,
    pub mode: Mode,
}

/// Why a configuration map was rejected.
#[derive(Clone, Debug, PartialEq, Eq)]
pub enum ConfigError {
    /// A required key (its canonical lower-case name is carried) is absent.
    MissingKey(String),
    /// The value of this key does not parse.
    InvalidValue(String),
    /// Both basic credentials and a bearer token were configured.
    ConflictingAuth,
}

// ----------------------------------------------------------------------
// The specification-level mirror of the configuration: the same shape, over
// character sequences, so that parsing can be pinned down exactly.
// ----------------------------------------------------------------------

/// Specification-level endpoint block.
#[verifier::ext_equal]
pub struct SpecEndpoint {
    pub method: HttpMethod,
    pub username: Option<Seq<char>>,
    pub password: Option<Seq<char>>,
    pub token: Option<Seq<char>>,
    pub tls_insecure: bool,
    pub tls_certificate: Option<Seq<char>>,
    pub headers: Seq<(Seq<char>, Seq<char>)>,
    pub timeout_ms: Option<u64>,
    pub error_delay_ms: u64,
    pub retries: usize,
}

/// Specification-level log-mode settings.
#[verifier::ext_equal]
pub struct SpecKafka {
    pub topic: Seq<char>,
    pub bootstrap_servers: Seq<char>,
    pub properties: Seq<(Seq<char>, Seq<char>)>,
}

/// Specification-level socket-mode settings.
#[verifier::ext_equal]
pub struct SpecWebsocket {
    pub drogue_endpoint: Seq<char>,
    pub drogue_app: Seq<char>,
    pub drogue_user: Option<Seq<char>>,
    pub drogue_token: Option<Seq<char>>,
}

/// Specification-level ingestion mode.
pub enum SpecMode {
    Kafka(SpecKafka),
    Websocket(SpecWebsocket),
}

/// Specification-level process configuration.
#[verifier::ext_equal]
pub struct SpecConfig {
    pub endpoint: SpecEndpoint,
    pub k_sink: Seq<char>,
    pub mode: SpecMode,
}

/// Specification-level rejection reason.
pub enum SpecConfigError {
    MissingKey(Seq<char>),
    InvalidValue(Seq<char>),
    ConflictingAuth,
}

/// An optional string, viewed.
pub open spec fn opt_view(o: Option<String>) -> Option<Seq<char>> {
    match o {
        Some(s) => Some(s@),
        None => None,
    }
}

/// A key/value list, viewed as character sequences.
pub open spec fn pairs_view(ps: Seq<(String, String)>) -> Seq<(Seq<char>, Seq<char>)> {
    ps.map_values(|p: (String, String)| (p.0@, p.1@))
}

impl View for EndpointConfig {
    type V = SpecEndpoint;

    open spec fn view(&self) -> SpecEndpoint {
        SpecEndpoint {
            method: self.method,
            username: opt_view(self.username),
            password: opt_view(self.password),
            token: opt_view(self.token),
            tls_insecure: self.tls_insecure,
            tls_certificate: opt_view(self.tls_certificate),
            headers: pairs_view(self.headers@),
            timeout_ms: self.timeout_ms,
            error_delay_ms: self.error_delay_ms,
            retries: self.retries,
        }
    }
}

impl View for KafkaConfig {
    type V = SpecKafka;

    open spec fn view(&self) -> SpecKafka {
        SpecKafka {
            topic: self.topic@,
            bootstrap_servers: self.bootstrap_servers@,
            properties: pairs_view(self.properties@),
        }
    }
}

impl View for WebsocketConfig {
    type V = SpecWebsocket;

    open spec fn view(&self) -> SpecWebsocket {
        SpecWebsocket {
            drogue_endpoint: self.drogue_endpoint@,
            drogue_app: self.drogue_app@,
            drogue_user: opt_view(self.drogue_user),
            drogue_token: opt_view(self.drogue_token),
        }
    }
}

impl View for Mode {
    type V = SpecMode;

    open spec fn view(&self) -> SpecMode {
        match self {
            Mode::Kafka(k) => SpecMode::Kafka(k@),
            Mode::Websocket(w) => SpecMode::Websocket(w@),
        }
    }
}

impl View for Config {
    type V = SpecConfig;

    open spec fn view(&self) -> SpecConfig {
        SpecConfig { endpoint: self.endpoint@, k_sink: self.k_sink@, mode: self.mode@ }
    }
}

impl View for ConfigError {
    type V = SpecConfigError;

    open spec fn view(&self) -> SpecConfigError {
        match self {
            ConfigError::MissingKey(k) => SpecConfigError::MissingKey(k@),
            ConfigError::InvalidValue(k) => SpecConfigError::InvalidValue(k@),
            ConfigError::ConflictingAuth => SpecConfigError::ConflictingAuth,
        }
    }
}

// ----------------------------------------------------------------------
// The parsing model: keys canonicalized to lower case, `__` as the nesting
// separator, first binding of a key wins.
// ----------------------------------------------------------------------

/// Keys canonicalized: every ASCII upper-case letter lowered.
pub open spec fn canon(ps: Seq<(Seq<char>, Seq<char>)>) -> Seq<(Seq<char>, Seq<char>)> {
    ps.map_values(|p: (Seq<char>, Seq<char>)| (lower_chars(p.0), p.1))
}

/// The first value bound to `key`.
pub open spec fn lookup(ps: Seq<(Seq<char>, Seq<char>)>, key: Seq<char>) -> Option<Seq<char>>
    decreases ps.len(),
{
    if ps.len() == 0 {
        None
    } else if ps[0].0 == key {
        Some(ps[0].1)
    } else {
        lookup(ps.drop_first(), key)
    }
}

/// Whether `p` opens `k`.
pub open spec fn has_prefix(k: Seq<char>, p: Seq<char>) -> bool {
    k.len() >= p.len() && k.subrange(0, p.len() as int) == p
}

/// The entries whose key opens with `prefix`, that part stripped, in order.
pub open spec fn with_prefix(ps: Seq<(Seq<char>, Seq<char>)>, prefix: Seq<char>) -> Seq<
    (Seq<char>, Seq<char>),
>
    decreases ps.len(),
{
    if ps.len() == 0 {
        Seq::empty()
    } else {
        let front = with_prefix(ps.drop_last(), prefix);
        if has_prefix(ps.last().0, prefix) {
            front.push((ps.last().0.skip(prefix.len() as int), ps.last().1))
        } else {
            front
        }
    }
}

/// The method names the sink accepts.
pub open spec fn spec_method_of(v: Seq<char>) -> Option<HttpMethod> {
    if v == "GET"@ {
        Some(HttpMethod::Get)
    } else if v == "POST"@ {
        Some(HttpMethod::Post)
    } else if v == "PUT"@ {
        Some(HttpMethod::Put)
    } else if v == "DELETE"@ {
        Some(HttpMethod::Delete)
    } else if v == "PATCH"@ {
        Some(HttpMethod::Patch)
    } else if v == "HEAD"@ {
        Some(HttpMethod::Head)
    } else if v == "OPTIONS"@ {
        Some(HttpMethod::Options)
    } else {
        None
    }
}

/// A configured duration: a non-negative number of milliseconds that fits in
/// a `u64`.
pub open spec fn spec_field_u64(
    cs: Seq<(Seq<char>, Seq<char>)>,
    key: Seq<char>,
) -> Result<Option<u64>, SpecConfigError> {
    match lookup(cs, key) {
        None => Ok(None),
        Some(v) => if v.len() > 0 && all_digits(v) && dec_val(v) <= u64::MAX {
            Ok(Some(dec_val(v) as u64))
        } else {
            Err(SpecConfigError::InvalidValue(key))
        },
    }
}

/// The endpoint block of a canonical key/value list. A value error is
/// reported for the first offending key, in the order: method, tls_insecure,
/// timeout, error_delay, retries.
pub open spec fn spec_parse_endpoint(cs: Seq<(Seq<char>, Seq<char>)>) -> Result<
    SpecEndpoint,
    SpecConfigError,
> {
    let method = match lookup(cs, "endpoint__method"@) {
        None => Ok(HttpMethod::Post),
        Some(v) => match spec_method_of(v) {
            Some(m) => Ok(m),
            None => Err(SpecConfigError::InvalidValue("endpoint__method"@)),
        },
    };
    let tls_insecure = match lookup(cs, "endpoint__tls_insecure"@) {
        None => Ok(false),
        Some(v) => if v == "true"@ {
            Ok(true)
        } else if v == "false"@ {
            Ok(false)
        } else {
            Err(SpecConfigError::InvalidValue("endpoint__tls_insecure"@))
        },
    };
    let timeout_ms = spec_field_u64(cs, "endpoint__timeout"@);
    let error_delay = spec_field_u64(cs, "endpoint__error_delay"@);
    let retries = match lookup(cs, "endpoint__retries"@) {
        None => Ok(5usize),
        Some(v) => if v.len() > 0 && all_digits(v) && dec_val(v) <= usize::MAX {
            Ok(dec_val(v) as usize)
        } else {
            Err(SpecConfigError::InvalidValue("endpoint__retries"@))
        },
    };
    match (method, tls_insecure, timeout_ms, error_delay, retries) {
        (Ok(method), Ok(tls_insecure), Ok(timeout_ms), Ok(error_delay), Ok(retries)) => Ok(
            SpecEndpoint {
                method,
                username: lookup(cs, "endpoint__username"@),
                password: lookup(cs, "endpoint__password"@),
                token: lookup(cs, "endpoint__token"@),
                tls_insecure,
                tls_certificate: lookup(cs, "endpoint__tls_certificate"@),
                headers: with_prefix(cs, "endpoint__headers__"@),
                timeout_ms,
                error_delay_ms: match error_delay {
                    Some(d) => d,
                    None => 1000u64,
                },
                retries,
            },
        ),
        (Err(e), _, _, _, _) => Err(e),
        (_, Err(e), _, _, _) => Err(e),
        (_, _, Err(e), _, _) => Err(e),
        (_, _, _, Err(e), _) => Err(e),
        (_, _, _, _, Err(e)) => Err(e),
    }
}

/// Log-mode settings of a canonical key/value list.
pub open spec fn spec_parse_kafka(cs: Seq<(Seq<char>, Seq<char>)>) -> Result<
    SpecKafka,
    SpecConfigError,
> {
    match lookup(cs, "topic"@) {
        None => Err(SpecConfigError::MissingKey("topic"@)),
        Some(topic) => match lookup(cs, "bootstrap_servers"@) {
            None => Err(SpecConfigError::MissingKey("bootstrap_servers"@)),
            Some(bootstrap_servers) => Ok(
                SpecKafka {
                    topic,
                    bootstrap_servers,
                    properties: with_prefix(cs, "properties__"@),
                },
            ),
        },
    }
}

/// Socket-mode settings of a canonical key/value list.
pub open spec fn spec_parse_websocket(cs: Seq<(Seq<char>, Seq<char>)>) -> Result<
    SpecWebsocket,
    SpecConfigError,
> {
    match lookup(cs, "drogue_endpoint"@) {
        None => Err(SpecConfigError::MissingKey("drogue_endpoint"@)),
        Some(drogue_endpoint) => match lookup(cs, "drogue_app"@) {
            None => Err(SpecConfigError::MissingKey("drogue_app"@)),
            Some(drogue_app) => Ok(
                SpecWebsocket {
                    drogue_endpoint,
                    drogue_app,
                    drogue_user: lookup(cs, "drogue_user"@),
                    drogue_token: lookup(cs, "drogue_token"@),
                },
            ),
        },
    }
}

/// The sink URL and the endpoint block, closed around a parsed mode.
pub open spec fn spec_parse_rest(cs: Seq<(Seq<char>, Seq<char>)>, mode: SpecMode) -> Result<
    SpecConfig,
    SpecConfigError,
> {
    match lookup(cs, "k_sink"@) {
        None => Err(SpecConfigError::MissingKey("k_sink"@)),
        Some(k_sink) => match spec_parse_endpoint(cs) {
            Err(e) => Err(e),
            Ok(endpoint) => Ok(SpecConfig { endpoint, k_sink, mode }),
        },
    }
}

/// The whole configuration of a key/value list: keys are canonicalized to
/// lower case, the mode is dispatched, and the mode settings, the sink URL
/// and the endpoint block are read, in that order.
pub open spec fn spec_parse_config(ps: Seq<(Seq<char>, Seq<char>)>) -> Result<
    SpecConfig,
    SpecConfigError,
> {
    let cs = canon(ps);
    match lookup(cs, "mode"@) {
        None => Err(SpecConfigError::MissingKey("mode"@)),
        Some(m) => if m == "kafka"@ {
            match spec_parse_kafka(cs) {
                Err(e) => Err(e),
                Ok(k) => spec_parse_rest(cs, SpecMode::Kafka(k)),
            }
        } else if m == "websocket"@ || m == "ws"@ {
            match spec_parse_websocket(cs) {
                Err(e) => Err(e),
                Ok(w) => spec_parse_rest(cs, SpecMode::Websocket(w)),
            }
        } else {
            Err(SpecConfigError::InvalidValue("mode"@))
        },
    }
}

// ----------------------------------------------------------------------
// The executable parser, verified against the model above.
// ----------------------------------------------------------------------

/// The canonical form of a key/value list: every key lowered.
fn canonicalize(src: &Vec<(String, String)>) -> (r: Vec<(String, String)>)
    ensures
        pairs_view(r@) == canon(pairs_view(src@)),
{
    let mut r: Vec<(String, String)> = Vec::new();
    let n = src.len();
    let mut i: usize = 0;
    while i < n
        invariant
            n == src@.len(),
            i <= n,
            r@.len() == i,
            forall|j: int|
                0 <= j < i ==> (#[trigger] r@[j]).0@ == lower_chars(src@[j].0@) && r@[j].1@
                    == src@[j].1@,
        decreases n - i,
    {
        let k = ascii_lower(src[i].0.as_str());
        let v = src[i].1.clone();
        r.push((k, v));
        i += 1;
    }
    proof {
        assert(pairs_view(r@) =~= canon(pairs_view(src@)));
    }
    r
}

/// The first value bound to `key` in the list.
fn lookup_value<'a>(ps: &'a Vec<(String, String)>, key: &str) -> (r: Option<&'a String>)
    ensures
        match r {
            Some(v) => lookup(pairs_view(ps@), key@) == Some(v@),
            None => lookup(pairs_view(ps@), key@) is None,
        },
{
    let n = ps.len();
    let mut i: usize = 0;
    proof {
        assert(pairs_view(ps@).skip(0) =~= pairs_view(ps@));
    }
    while i < n
        invariant
            n == ps@.len(),
            i <= n,
            lookup(pairs_view(ps@), key@) == lookup(pairs_view(ps@).skip(i as int), key@),
        decreases n - i,
    {
        proof {
            assert(pairs_view(ps@).skip(i as int)[0] == pairs_view(ps@)[i as int]);
            assert(pairs_view(ps@).skip(i as int).drop_first() =~= pairs_view(ps@).skip(i + 1));
        }
        if str_eq(ps[i].0.as_str(), key) {
            return Some(&ps[i].1);
        }
        i += 1;
    }
    proof {
        assert(pairs_view(ps@).skip(n as int) =~= Seq::<(Seq<char>, Seq<char>)>::empty());
    }
    None
}

/// The entries whose key opens with `prefix`, that part stripped.
fn collect_prefix(ps: &Vec<(String, String)>, prefix: &str) -> (r: Vec<(String, String)>)
    ensures
        pairs_view(r@) == with_prefix(pairs_view(ps@), prefix@),
{
    let mut r: Vec<(String, String)> = Vec::new();
    let n = ps.len();
    let mut i: usize = 0;
    proof {
        assert(pairs_view(ps@).subrange(0, 0) =~= Seq::<(Seq<char>, Seq<char>)>::empty());
        assert(pairs_view(r@) =~= with_prefix(pairs_view(ps@).subrange(0, 0), prefix@));
    }
    while i < n
        invariant
            n == ps@.len(),
            i <= n,
            pairs_view(r@) == with_prefix(pairs_view(ps@).subrange(0, i as int), prefix@),
        decreases n - i,
    {
        proof {
            assert(pairs_view(ps@).subrange(0, i + 1).drop_last() =~= pairs_view(ps@).subrange(
                0,
                i as int,
            ));
            assert(pairs_view(ps@).subrange(0, i + 1).last() == pairs_view(ps@)[i as int]);
        }
        match strip_prefix_str(ps[i].0.as_str(), prefix) {
            Some(rest) => {
                let stripped = String::from_str(rest);
                let v = ps[i].1.clone();
                r.push((stripped, v));
                proof {
                    assert(pairs_view(r@) =~= pairs_view(r@.drop_last()).push(
                        (r@.last().0@, r@.last().1@),
                    ));
                    assert(pairs_view(r@) =~= with_prefix(
                        pairs_view(ps@).subrange(0, i + 1),
                        prefix@,
                    ));
                }
            },
            None => {
                proof {
                    assert(pairs_view(r@) =~= with_prefix(
                        pairs_view(ps@).subrange(0, i + 1),
                        prefix@,
                    ));
                }
            },
        }
        i += 1;
    }
    proof {
        assert(pairs_view(ps@).subrange(0, n as int) =~= pairs_view(ps@));
    }
    r
}

/// The method name, decoded.
fn method_of(v: &str) -> (r: Option<HttpMethod>)
    ensures
        r == spec_method_of(v@),
{
    if str_eq(v, "GET") {
        Some(HttpMethod::Get)
    } else if str_eq(v, "POST") {
        Some(HttpMethod::Post)
    } else if str_eq(v, "PUT") {
        Some(HttpMethod::Put)
    } else if str_eq(v, "DELETE") {
        Some(HttpMethod::Delete)
    } else if str_eq(v, "PATCH") {
        Some(HttpMethod::Patch)
    } else if str_eq(v, "HEAD") {
        Some(HttpMethod::Head)
    } else if str_eq(v, "OPTIONS") {
        Some(HttpMethod::Options)
    } else {
        None
    }
}

/// An optional owned copy.
fn clone_opt(v: Option<&String>) -> (r: Option<String>)
    ensures
        opt_view(r) == match v {
            Some(s) => Some(s@),
            None => None::<Seq<char>>,
        },
{
    match v {
        Some(s) => Some(s.clone()),
        None => None,
    }
}

/// The endpoint block of a canonical key/value list.
fn parse_endpoint(cs: &Vec<(String, String)>) -> (r: Result<EndpointConfig, ConfigError>)
    ensures
        match spec_parse_endpoint(pairs_view(cs@)) {
            Ok(se) => r matches Ok(c) && c@ == se,
            Err(ee) => r matches Err(e) && e@ == ee,
        },
{
    let method: HttpMethod = match lookup_value(cs, "endpoint__method") {
        None => default_method(),
        Some(v) => match method_of(v.as_str()) {
            Some(m) => m,
            None => {
                return Err(ConfigError::InvalidValue(String::from_str("endpoint__method")));
            },
        },
    };
    let tls_insecure: bool = match lookup_value(cs, "endpoint__tls_insecure") {
        None => false,
        Some(v) => match parse_bool(v.as_str()) {
            Some(b) => b,
            None => {
                return Err(ConfigError::InvalidValue(String::from_str("endpoint__tls_insecure")));
            },
        },
    };
    proof {
        // The equality proof at the end needs the two boolean literals to be
        // known distinct; their lengths pin them apart.
        reveal_strlit("true");
        reveal_strlit("false");
        assert("true"@.len() == 4);
        assert("false"@.len() == 5);
        assert("true"@ != "false"@);
    }
    let timeout_ms: Option<u64> = match lookup_value(cs, "endpoint__timeout") {
        None => None,
        Some(v) => match parse_u64(v.as_str()) {
            Some(x) => Some(x),
            None => {
                return Err(ConfigError::InvalidValue(String::from_str("endpoint__timeout")));
            },
        },
    };
    let error_delay_ms: u64 = match lookup_value(cs, "endpoint__error_delay") {
        None => default_error_delay(),
        Some(v) => match parse_u64(v.as_str()) {
            Some(x) => x,
            None => {
                return Err(ConfigError::InvalidValue(String::from_str("endpoint__error_delay")));
            },
        },
    };
    let retries: usize = match lookup_value(cs, "endpoint__retries") {
        None => default_retries(),
        Some(v) => match parse_u64(v.as_str()) {
            Some(x) => {
                if x > usize::MAX as u64 {
                    return Err(ConfigError::InvalidValue(String::from_str("endpoint__retries")));
                }
                x as usize
            },
            None => {
                return Err(ConfigError::InvalidValue(String::from_str("endpoint__retries")));
            },
        },
    };
    let username = clone_opt(lookup_value(cs, "endpoint__username"));
    let password = clone_opt(lookup_value(cs, "endpoint__password"));
    let token = clone_opt(lookup_value(cs, "endpoint__token"));
    let tls_certificate = clone_opt(lookup_value(cs, "endpoint__tls_certificate"));
    let headers = collect_prefix(cs, "endpoint__headers__");
    let c = EndpointConfig {
        method,
        username,
        password,
        token,
        tls_insecure,
        tls_certificate,
        headers,
        timeout_ms,
        error_delay_ms,
        retries,
    };
    proof {
        match spec_parse_endpoint(pairs_view(cs@)) {
            Ok(se) => {
                assert(c@ =~= se);
            },
            Err(e) => {
                assert(false);
            },
        }
    }
    Ok(c)
}

/// Log-mode settings of a canonical key/value list.
fn parse_kafka(cs: &Vec<(String, String)>) -> (r: Result<KafkaConfig, ConfigError>)
    ensures
        match spec_parse_kafka(pairs_view(cs@)) {
            Ok(sk) => r matches Ok(k) && k@ == sk,
            Err(ee) => r matches Err(e) && e@ == ee,
        },
{
    let topic: String = match lookup_value(cs, "topic") {
        None => {
            return Err(ConfigError::MissingKey(String::from_str("topic")));
        },
        Some(v) => v.clone(),
    };
    let bootstrap_servers: String = match lookup_value(cs, "bootstrap_servers") {
        None => {
            return Err(ConfigError::MissingKey(String::from_str("bootstrap_servers")));
        },
        Some(v) => v.clone(),
    };
    let properties = collect_prefix(cs, "properties__");
    Ok(KafkaConfig { topic, bootstrap_servers, properties })
}

/// Socket-mode settings of a canonical key/value list.
fn parse_websocket(cs: &Vec<(String, String)>) -> (r: Result<WebsocketConfig, ConfigError>)
    ensures
        match spec_parse_websocket(pairs_view(cs@)) {
            Ok(sw) => r matches Ok(w) && w@ == sw,
            Err(ee) => r matches Err(e) && e@ == ee,
        },
{
    let drogue_endpoint: String = match lookup_value(cs, "drogue_endpoint") {
        None => {
            return Err(ConfigError::MissingKey(String::from_str("drogue_endpoint")));
        },
        Some(v) => v.clone(),
    };
    let drogue_app: String = match lookup_value(cs, "drogue_app") {
        None => {
            return Err(ConfigError::MissingKey(String::from_str("drogue_app")));
        },
        Some(v) => v.clone(),
    };
    let drogue_user = clone_opt(lookup_value(cs, "drogue_user"));
    let drogue_token = clone_opt(lookup_value(cs, "drogue_token"));
    Ok(WebsocketConfig { drogue_endpoint, drogue_app, drogue_user, drogue_token })
}

/// The sink URL and the endpoint block, closed around a parsed mode.
fn parse_rest(cs: &Vec<(String, String)>, mode: Mode) -> (r: Result<Config, ConfigError>)
    ensures
        match spec_parse_rest(pairs_view(cs@), mode@) {
            Ok(sc) => r matches Ok(c) && c@ == sc,
            Err(ee) => r matches Err(e) && e@ == ee,
        },
{
    let k_sink: String = match lookup_value(cs, "k_sink") {
        None => {
            return Err(ConfigError::MissingKey(String::from_str("k_sink")));
        },
        Some(v) => v.clone(),
    };
    let endpoint = match parse_endpoint(cs) {
        Ok(e) => e,
        Err(e) => {
            return Err(e);
        },
    };
    Ok(Config { endpoint, k_sink, mode })
}

impl Config {
    /// Parse a configuration from an explicit, environment-like key/value
    /// list. Keys are case-insensitive (canonicalized to lower case), `__`
    /// is the nesting separator, and the first binding of a key wins. The
    /// result, and each rejection, is pinned down by [`spec_parse_config`].
    pub fn from_env_source(source: Vec<(String, String)>) -> (r: Result<Config, ConfigError>)
        ensures
            match spec_parse_config(pairs_view(source@)) {
                Ok(sc) => r matches Ok(c) && c@ == sc,
                Err(ee) => r matches Err(e) && e@ == ee,
            },
    {
        let cs = canonicalize(&source);
        let is_kafka: bool;
        let is_ws: bool;
        match lookup_value(&cs, "mode") {
            None => {
                return Err(ConfigError::MissingKey(String::from_str("mode")));
            },
            Some(m) => {
                is_kafka = str_eq(m.as_str(), "kafka");
                is_ws = str_eq(m.as_str(), "websocket") || str_eq(m.as_str(), "ws");
            },
        }
        if is_kafka {
            let k = match parse_kafka(&cs) {
                Ok(k) => k,
                Err(e) => {
                    return Err(e);
                },
            };
            parse_rest(&cs, Mode::Kafka(k))
        } else if is_ws {
            let w = match parse_websocket(&cs) {
                Ok(w) => w,
                Err(e) => {
                    return Err(e);
                },
            };
            parse_rest(&cs, Mode::Websocket(w))
        } else {
            Err(ConfigError::InvalidValue(String::from_str("mode")))
        }
    }
}

/// Parsing is deterministic: one key/value list denotes one configuration,
/// so reading the same environment twice yields identical settings — the
/// client property sets included.
pub proof fn lemma_parse_deterministic(
    a: Seq<(Seq<char>, Seq<char>)>,
    b: Seq<(Seq<char>, Seq<char>)>,
)
    requires
        a == b,
    ensures
        spec_parse_config(a) == spec_parse_config(b),
{
}

/// Anything that can be read from an environment-like key/value source.
pub trait ConfigFromEnv: Sized {
    /// Parse this value from an explicit key/value source.
    fn from_env_source(source: Vec<(String, String)>) -> Result<Self, ConfigError>;
}

impl ConfigFromEnv for Config {
    fn from_env_source(source: Vec<(String, String)>) -> Result<Config, ConfigError> {
        Config::from_env_source(source)
    }
}

impl Config {
    /// Basic credentials and a bearer token are mutually exclusive; anything
    /// else passes. Checked once at startup, before any ingestion begins.
    pub fn validate(&self) -> (r: Result<(), ConfigError>)
        ensures
            r is Ok <==> !(self.endpoint.username is Some && self.endpoint.token is Some),
            r is Err ==> r == Result::<(), ConfigError>::Err(ConfigError::ConflictingAuth),
    {
        if self.endpoint.username.is_some() && self.endpoint.token.is_some() {
            Err(ConfigError::ConflictingAuth)
        } else {
            Ok(())
        }
    }
}

} // verus!
