//! Settings of a client.
//!
//! A [`ClientBuilder`] collects the settings one by one: each method takes the
//! builder, changes what it is named after, and gives the builder back.

use vstd::prelude::*;
use vstd::std_specs::convert::FromSpecImpl;

use crate::bridge::{Client, Timeout, DEFAULT_TIMEOUT_SECS};
use crate::error::{builder, Cause, CauseView, Error, ErrorView, Kind};
use crate::headers::{
    check_header_value, is_header_value, lemma_standard_names_are_lower, names_of, without_name,
    without_names, Header, HeaderMap,
};
use crate::time::Span;
use crate::url::Url;

verus! {

/// The redirects that a client follows unless it is told otherwise.
pub const DEFAULT_REDIRECT_LIMIT: usize = 10;

/// The seconds that an idle connection is kept unless the client is told otherwise.
pub const DEFAULT_POOL_IDLE_SECS: u64 = 90;

/// What to do with redirects.
#[derive(Clone, Copy, Debug, PartialEq, Eq, Structural)]
pub enum Policy {
    /// Follow them, but no more than this many for one request.
    Limited(usize),
    /// Follow none.
    NoRedirects,
}

/// Which requests a proxy is for.
#[derive(Clone, Copy, Debug, PartialEq, Eq, Structural)]
pub enum Intercept {
    Http,
    Https,
    All,
}

/// A proxy: the requests that it is for, and where it is.
#[derive(Debug)]
pub struct Proxy {
    pub intercept: Intercept,
    pub url: Url,
}

/// A certificate, in DER.
#[derive(Debug)]
pub struct Certificate {
    pub der: Vec<u8>,
}

/// A client's own certificate and key, as a PKCS #12 archive with its password.
#[derive(Debug)]
pub struct Identity {
    pub archive: Vec<u8>,
    pub password: String,
}

/// The TLS implementation in use.
#[derive(Clone, Copy, Debug, PartialEq, Eq, Structural)]
pub enum TlsBackend {
    /// Whichever the client was built with.
    Default,
    /// The TLS of the system.
    Native,
    /// The TLS written in Rust.
    Rustls,
    /// A connector of the system's TLS that was set up elsewhere.
    BuiltNative,
    /// A configuration of the TLS written in Rust that was set up elsewhere.
    BuiltRustls,
}

/// A TLS setup that was made elsewhere, by what it was recognised as.
#[derive(Clone, Copy, Debug, PartialEq, Eq, Structural)]
pub enum Preconfigured {
    /// A connector of the system's TLS.
    NativeTls,
    /// A configuration of the TLS written in Rust.
    Rustls,
    /// Neither.
    Unknown,
}

/// The settings of the client that carries the requests out.
#[derive(Debug)]
pub struct Config {
    /// The headers that every request starts with.
    pub headers: HeaderMap,
    /// Whether cookies are kept between requests.
    pub cookie_store: bool,
    /// Whether compressed responses are asked for and unpacked.
    pub gzip: bool,
    /// What to do with redirects.
    pub redirect_policy: Policy,
    /// Whether a redirect names the page that it came from.
    pub referer: bool,
    /// The proxies, in the order in which they are tried.
    pub proxies: Vec<Proxy>,
    /// Whether the proxies of the system are used while none is set.
    pub auto_sys_proxy: bool,
    /// The time allowed for connecting.
    pub connect_timeout: Option<Span>,
    /// Whether connections log what they read and write.
    pub connection_verbose: bool,
    /// How long an idle connection is kept.
    pub pool_idle_timeout: Option<Span>,
    /// How many idle connections are kept for one host.
    pub pool_max_idle_per_host: usize,
    /// Whether header names go out in title case.
    pub http1_title_case_headers: bool,
    /// Whether HTTP/2 is spoken without asking first.
    pub http2_only: bool,
    /// The first window of an HTTP/2 stream.
    pub http2_initial_stream_window_size: Option<u32>,
    /// The first window of an HTTP/2 connection.
    pub http2_initial_connection_window_size: Option<u32>,
    /// Whether small writes go out at once.
    pub nodelay: bool,
    /// Further certificates to trust.
    pub root_certs: Vec<Certificate>,
    /// The identity to show to servers that ask for one.
    pub identity: Option<Identity>,
    /// Whether a certificate must name the host.
    pub hostname_verification: bool,
    /// Whether certificates are checked at all.
    pub certs_verification: bool,
    /// The TLS implementation.
    pub tls: TlsBackend,
    /// Whether names are resolved by the built-in resolver.
    pub trust_dns: bool,
    /// The last setting that could not be taken, if there was one.
    pub error: Option<Error>,
}

impl Config {
    /// Whether every setting is as in a client that was told nothing.
    pub open spec fn is_default(self) -> bool {
        &&& self.headers@ == Seq::<Header>::empty()
        &&& !self.cookie_store
        &&& self.gzip
        &&& self.redirect_policy == Policy::Limited(DEFAULT_REDIRECT_LIMIT)
        &&& self.referer
        &&& self.proxies@.len() == 0
        &&& self.auto_sys_proxy
        &&& self.connect_timeout is None
        &&& !self.connection_verbose
        &&& self.pool_idle_timeout == Some(Span { secs: DEFAULT_POOL_IDLE_SECS, nanos: 0 })
        &&& self.pool_max_idle_per_host == usize::MAX
        &&& !self.http1_title_case_headers
        &&& !self.http2_only
        &&& self.http2_initial_stream_window_size is None
        &&& self.http2_initial_connection_window_size is None
        &&& self.nodelay
        &&& self.root_certs@.len() == 0
        &&& self.identity is None
        &&& self.hostname_verification
        &&& self.certs_verification
        &&& self.tls == TlsBackend::Default
        &&& !self.trust_dns
        &&& self.error is None
    }

    /// The settings of a client that was told nothing.
    pub fn new() -> (out: Config)
        ensures
            out.is_default(),
    {
        Config {
            headers: HeaderMap::new(),
            cookie_store: false,
            gzip: true,
            redirect_policy: Policy::Limited(DEFAULT_REDIRECT_LIMIT),
            referer: true,
            proxies: Vec::new(),
            auto_sys_proxy: true,
            connect_timeout: None,
            connection_verbose: false,
            pool_idle_timeout: Some(Span::from_secs(DEFAULT_POOL_IDLE_SECS)),
            pool_max_idle_per_host: usize::MAX,
            http1_title_case_headers: false,
            http2_only: false,
            http2_initial_stream_window_size: None,
            http2_initial_connection_window_size: None,
            nodelay: true,
            root_certs: Vec::new(),
            identity: None,
            hostname_verification: true,
            certs_verification: true,
            tls: TlsBackend::Default,
            trust_dns: false,
            error: None,
        }
    }
}

/// The settings of a client for callers that block: those of the client that
/// carries the requests out, and the time allowed for each request.
#[derive(Debug)]
pub struct ClientBuilder {
    pub inner: Config,
    pub timeout: Timeout,
}

impl ClientBuilder {
    /// A builder with every setting at its default. Each request is allowed thirty
    /// seconds.
    pub fn new() -> (out: ClientBuilder)
        ensures
            out.timeout == Timeout(Some(Span { secs: DEFAULT_TIMEOUT_SECS, nanos: 0 })),
            out.inner.is_default(),
    {
        ClientBuilder { inner: Config::new(), timeout: Timeout::default() }
    }

    /// Ends the collecting. Where a setting could not be taken, the result is the
    /// error that it left. Otherwise it is the caller's side of the client, which
    /// holds the time allowed for each request, and the settings for the worker.
    pub fn build(self) -> (out: Result<(Client, Config), Error>)
        ensures
            self.inner.error is Some ==> out == Err::<(Client, Config), Error>(
                self.inner.error.unwrap(),
            ),
            self.inner.error is None ==> out is Ok && out->Ok_0.0.timeout == self.timeout
                && out->Ok_0.1 == self.inner,
    {
        let ClientBuilder { inner, timeout } = self;
        match inner.error {
            Some(e) => Err(e),
            None => Ok((Client::with_timeout(timeout), Config { error: None, ..inner })),
        }
    }

    /// Sets the `User-Agent` that every request starts with. A value that cannot
    /// stand in a header is not taken: it leaves a builder error, and the headers
    /// as they are.
    pub fn user_agent(self, value: &[u8]) -> (out: ClientBuilder)
        ensures
            is_header_value(value@) ==> out.inner.headers@ == without_name(
                self.inner.headers@,
                "user-agent"@,
            ).push(Header { name: "user-agent"@, value: value@, sensitive: false })
                && out.inner.error == self.inner.error,
            !is_header_value(value@) ==> out.inner.headers == self.inner.headers
                && out.inner.error is Some && out.inner.error.unwrap()@ == (ErrorView {
                kind: Kind::Builder,
                cause: CauseView::Other("failed to parse header value"@),
                url: None,
            }),
            out == (ClientBuilder {
                inner: Config {
                    headers: out.inner.headers,
                    error: out.inner.error,
                    ..self.inner
                },
                ..self
            }),
    {
        proof {
            lemma_standard_names_are_lower();
        }
        let ClientBuilder { inner, timeout } = self;
        if check_header_value(value) {
            let mut headers = inner.headers;
            let mut bytes: Vec<u8> = Vec::new();
            bytes.extend_from_slice(value);
            assert(bytes@ =~= value@);
            headers.insert("user-agent".to_owned(), bytes, false);
            ClientBuilder { inner: Config { headers, ..inner }, timeout }
        } else {
            let failure = builder(Cause::Other("failed to parse header value".to_owned()));
            ClientBuilder { inner: Config { error: Some(failure), ..inner }, timeout }
        }
    }

    /// Keeps cookies between requests, or not.
    pub fn cookie_store(self, enable: bool) -> (out: ClientBuilder)
        ensures
            out == (ClientBuilder {
                inner: Config {
                    cookie_store: enable,
                    ..self.inner
                },
                ..self
            }),
    {
        ClientBuilder { inner: Config { cookie_store: enable, ..self.inner }, ..self }
    }

    /// Asks for compressed responses and unpacks them, or not.
    pub fn gzip(self, enable: bool) -> (out: ClientBuilder)
        ensures
            out == (ClientBuilder {
                inner: Config {
                    gzip: enable,
                    ..self.inner
                },
                ..self
            }),
    {
        ClientBuilder { inner: Config { gzip: enable, ..self.inner }, ..self }
    }

    /// Asks for no compressed responses.
    pub fn no_gzip(self) -> (out: ClientBuilder)
        ensures
            out == (ClientBuilder {
                inner: Config {
                    gzip: false,
                    ..self.inner
                },
                ..self
            }),
    {
        ClientBuilder { inner: Config { gzip: false, ..self.inner }, ..self }
    }

    /// Sets what to do with redirects.
    pub fn redirect(self, policy: Policy) -> (out: ClientBuilder)
        ensures
            out == (ClientBuilder {
                inner: Config {
                    redirect_policy: policy,
                    ..self.inner
                },
                ..self
            }),
    {
        ClientBuilder { inner: Config { redirect_policy: policy, ..self.inner }, ..self }
    }

    /// Lets a redirect name the page that it came from, or not.
    pub fn referer(self, enable: bool) -> (out: ClientBuilder)
        ensures
            out == (ClientBuilder {
                inner: Config {
                    referer: enable,
                    ..self.inner
                },
                ..self
            }),
    {
        ClientBuilder { inner: Config { referer: enable, ..self.inner }, ..self }
    }

    /// Removes every proxy, those of the system included.
    pub fn no_proxy(self) -> (out: ClientBuilder)
        ensures
            out.inner.proxies@.len() == 0,
            out == (ClientBuilder {
                inner: Config {
                    proxies: out.inner.proxies,
                    auto_sys_proxy: false,
                    ..self.inner
                },
                ..self
            }),
    {
        ClientBuilder {
            inner: Config { proxies: Vec::new(), auto_sys_proxy: false, ..self.inner },
            ..self
        }
    }

    /// Does nothing: the proxies of the system are used without being asked for.
    pub fn use_sys_proxy(self) -> (out: ClientBuilder)
        ensures
            out == self,
    {
        self
    }

    /// Sets the time allowed for each request; `None` allows any.
    pub fn timeout(self, timeout: Option<Span>) -> (out: ClientBuilder)
        ensures
            out == (ClientBuilder { timeout: Timeout(timeout), ..self }),
    {
        ClientBuilder { timeout: Timeout(timeout), ..self }
    }

    /// Sets the time allowed for connecting. `None` leaves the setting as it is.
    pub fn connect_timeout(self, timeout: Option<Span>) -> (out: ClientBuilder)
        ensures
            timeout is None ==> out == self,
            timeout is Some ==> out == (ClientBuilder {
                inner: Config { connect_timeout: timeout, ..self.inner },
                ..self
            }),
    {
        match timeout {
            Some(span) => ClientBuilder {
                inner: Config { connect_timeout: Some(span), ..self.inner },
                ..self
            },
            None => self,
        }
    }

    /// Lets connections log what they read and write, or not.
    pub fn connection_verbose(self, verbose: bool) -> (out: ClientBuilder)
        ensures
            out == (ClientBuilder {
                inner: Config {
                    connection_verbose: verbose,
                    ..self.inner
                },
                ..self
            }),
    {
        ClientBuilder { inner: Config { connection_verbose: verbose, ..self.inner }, ..self }
    }

    /// Sets how long an idle connection is kept; `None` keeps it for good.
    pub fn pool_idle_timeout(self, val: Option<Span>) -> (out: ClientBuilder)
        ensures
            out == (ClientBuilder {
                inner: Config {
                    pool_idle_timeout: val,
                    ..self.inner
                },
                ..self
            }),
    {
        ClientBuilder { inner: Config { pool_idle_timeout: val, ..self.inner }, ..self }
    }

    /// Sets how many idle connections are kept for one host.
    pub fn pool_max_idle_per_host(self, max: usize) -> (out: ClientBuilder)
        ensures
            out == (ClientBuilder {
                inner: Config {
                    pool_max_idle_per_host: max,
                    ..self.inner
                },
                ..self
            }),
    {
        ClientBuilder { inner: Config { pool_max_idle_per_host: max, ..self.inner }, ..self }
    }

    /// Sets how many idle connections are kept for one host.
    pub fn max_idle_per_host(self, max: usize) -> (out: ClientBuilder)
        ensures
            out == (ClientBuilder {
                inner: Config { pool_max_idle_per_host: max, ..self.inner },
                ..self
            }),
    {
        self.pool_max_idle_per_host(max)
    }

    /// Sends header names in title case.
    pub fn http1_title_case_headers(self) -> (out: ClientBuilder)
        ensures
            out == (ClientBuilder {
                inner: Config {
                    http1_title_case_headers: true,
                    ..self.inner
                },
                ..self
            }),
    {
        ClientBuilder { inner: Config { http1_title_case_headers: true, ..self.inner }, ..self }
    }

    /// Speaks HTTP/2 without asking first.
    pub fn http2_prior_knowledge(self) -> (out: ClientBuilder)
        ensures
            out == (ClientBuilder {
                inner: Config {
                    http2_only: true,
                    ..self.inner
                },
                ..self
            }),
    {
        ClientBuilder { inner: Config { http2_only: true, ..self.inner }, ..self }
    }

    /// Sets the first window of an HTTP/2 stream; `None` leaves it to the transport.
    pub fn http2_initial_stream_window_size(self, sz: Option<u32>) -> (out: ClientBuilder)
        ensures
            out == (ClientBuilder {
                inner: Config {
                    http2_initial_stream_window_size: sz,
                    ..self.inner
                },
                ..self
            }),
    {
        ClientBuilder { inner: Config { http2_initial_stream_window_size: sz, ..self.inner }, ..self }
    }

    /// Sets the first window of an HTTP/2 connection; `None` leaves it to the
    /// transport.
    pub fn http2_initial_connection_window_size(self, sz: Option<u32>) -> (out: ClientBuilder)
        ensures
            out == (ClientBuilder {
                inner: Config {
                    http2_initial_connection_window_size: sz,
                    ..self.inner
                },
                ..self
            }),
    {
        ClientBuilder { inner: Config { http2_initial_connection_window_size: sz, ..self.inner }, ..self }
    }

    /// Sends small writes at once.
    pub fn tcp_nodelay(self) -> (out: ClientBuilder)
        ensures
            out == (ClientBuilder { inner: Config { nodelay: true, ..self.inner }, ..self }),
    {
        self.tcp_nodelay_(true)
    }

    /// Sends small writes at once, or gathers them.
    pub fn tcp_nodelay_(self, enabled: bool) -> (out: ClientBuilder)
        ensures
            out == (ClientBuilder {
                inner: Config {
                    nodelay: enabled,
                    ..self.inner
                },
                ..self
            }),
    {
        ClientBuilder { inner: Config { nodelay: enabled, ..self.inner }, ..self }
    }

    /// Sets the identity to show to servers that ask for one.
    pub fn identity(self, identity: Identity) -> (out: ClientBuilder)
        ensures
            out == (ClientBuilder {
                inner: Config {
                    identity: Some(identity),
                    ..self.inner
                },
                ..self
            }),
    {
        ClientBuilder { inner: Config { identity: Some(identity), ..self.inner }, ..self }
    }

    /// Accepts certificates that do not name the host, or not.
    pub fn danger_accept_invalid_hostnames(self, accept_invalid_hostname: bool) -> (out: ClientBuilder)
        ensures
            out == (ClientBuilder {
                inner: Config {
                    hostname_verification: !accept_invalid_hostname,
                    ..self.inner
                },
                ..self
            }),
    {
        ClientBuilder { inner: Config { hostname_verification: !accept_invalid_hostname, ..self.inner }, ..self }
    }

    /// Accepts any certificate, or not.
    pub fn danger_accept_invalid_certs(self, accept_invalid_certs: bool) -> (out: ClientBuilder)
        ensures
            out == (ClientBuilder {
                inner: Config {
                    certs_verification: !accept_invalid_certs,
                    ..self.inner
                },
                ..self
            }),
    {
        ClientBuilder { inner: Config { certs_verification: !accept_invalid_certs, ..self.inner }, ..self }
    }

    /// Uses the TLS of the system.
    pub fn use_native_tls(self) -> (out: ClientBuilder)
        ensures
            out == (ClientBuilder {
                inner: Config {
                    tls: TlsBackend::Native,
                    ..self.inner
                },
                ..self
            }),
    {
        ClientBuilder { inner: Config { tls: TlsBackend::Native, ..self.inner }, ..self }
    }

    /// Uses the TLS written in Rust.
    pub fn use_rustls_tls(self) -> (out: ClientBuilder)
        ensures
            out == (ClientBuilder {
                inner: Config {
                    tls: TlsBackend::Rustls,
                    ..self.inner
                },
                ..self
            }),
    {
        ClientBuilder { inner: Config { tls: TlsBackend::Rustls, ..self.inner }, ..self }
    }

    /// Uses a TLS setup that was made elsewhere. One that is neither of the two
    /// kinds that the client knows is not taken: it leaves a builder error.
    pub fn use_preconfigured_tls(self, tls: Preconfigured) -> (out: ClientBuilder)
        ensures
            tls == Preconfigured::NativeTls ==> out == (ClientBuilder {
                inner: Config { tls: TlsBackend::BuiltNative, ..self.inner },
                ..self
            }),
            tls == Preconfigured::Rustls ==> out == (ClientBuilder {
                inner: Config { tls: TlsBackend::BuiltRustls, ..self.inner },
                ..self
            }),
            tls == Preconfigured::Unknown ==> out == (ClientBuilder {
                inner: Config { error: out.inner.error, ..self.inner },
                ..self
            }) && out.inner.error is Some && out.inner.error.unwrap()@ == (ErrorView {
                kind: Kind::Builder,
                cause: CauseView::Other("Unknown TLS backend passed to `use_preconfigured_tls`"@),
                url: None,
            }),
    {
        match tls {
            Preconfigured::NativeTls => ClientBuilder {
                inner: Config { tls: TlsBackend::BuiltNative, ..self.inner },
                ..self
            },
            Preconfigured::Rustls => ClientBuilder {
                inner: Config { tls: TlsBackend::BuiltRustls, ..self.inner },
                ..self
            },
            Preconfigured::Unknown => {
                let failure = builder(
                    Cause::Other("Unknown TLS backend passed to `use_preconfigured_tls`".to_owned()),
                );
                ClientBuilder { inner: Config { error: Some(failure), ..self.inner }, ..self }
            },
        }
    }

    /// Resolves names by the built-in resolver, or by the system's.
    pub fn trust_dns(self, enable: bool) -> (out: ClientBuilder)
        ensures
            out == (ClientBuilder {
                inner: Config {
                    trust_dns: enable,
                    ..self.inner
                },
                ..self
            }),
    {
        ClientBuilder { inner: Config { trust_dns: enable, ..self.inner }, ..self }
    }

    /// Resolves names by the system's resolver.
    pub fn no_trust_dns(self) -> (out: ClientBuilder)
        ensures
            out == (ClientBuilder {
                inner: Config {
                    trust_dns: false,
                    ..self.inner
                },
                ..self
            }),
    {
        ClientBuilder { inner: Config { trust_dns: false, ..self.inner }, ..self }
    }

    /// Sets headers that every request starts with: they take the place of the
    /// headers of the same names that were set before.
    pub fn default_headers(self, headers: HeaderMap) -> (out: ClientBuilder)
        ensures
            out.inner.headers@ == without_names(self.inner.headers@, names_of(headers@))
                + headers@,
            out == (ClientBuilder {
                inner: Config { headers: out.inner.headers, ..self.inner },
                ..self
            }),
    {
        let ClientBuilder { inner, timeout } = self;
        let mut merged = inner.headers;
        merged.replace_headers(headers);
        ClientBuilder { inner: Config { headers: merged, ..inner }, timeout }
    }

    /// Adds a proxy after those that are set. The proxies of the system are no
    /// longer used.
    pub fn proxy(self, proxy: Proxy) -> (out: ClientBuilder)
        ensures
            out.inner.proxies@ == self.inner.proxies@.push(proxy),
            out == (ClientBuilder {
                inner: Config {
                    proxies: out.inner.proxies,
                    auto_sys_proxy: false,
                    ..self.inner
                },
                ..self
            }),
    {
        let ClientBuilder { inner, timeout } = self;
        let mut proxies = inner.proxies;
        proxies.push(proxy);
        ClientBuilder { inner: Config { proxies, auto_sys_proxy: false, ..inner }, timeout }
    }

    /// Adds a certificate to those that are trusted.
    pub fn add_root_certificate(self, cert: Certificate) -> (out: ClientBuilder)
        ensures
            out.inner.root_certs@ == self.inner.root_certs@.push(cert),
            out == (ClientBuilder {
                inner: Config { root_certs: out.inner.root_certs, ..self.inner },
                ..self
            }),
    {
        let ClientBuilder { inner, timeout } = self;
        let mut root_certs = inner.root_certs;
        root_certs.push(cert);
        ClientBuilder { inner: Config { root_certs, ..inner }, timeout }
    }
}

impl FromSpecImpl<Config> for ClientBuilder {
    open spec fn obeys_from_spec() -> bool {
        true
    }

    open spec fn from_spec(inner: Config) -> ClientBuilder {
        ClientBuilder {
            inner,
            timeout: Timeout(Some(Span { secs: DEFAULT_TIMEOUT_SECS, nanos: 0 })),
        }
    }
}

impl From<Config> for ClientBuilder {
    /// A builder over settings that were made elsewhere. Each request is allowed
    /// thirty seconds.
    fn from(inner: Config) -> (out: ClientBuilder)
        ensures
            out.inner == inner,
            out.timeout == Timeout(Some(Span { secs: DEFAULT_TIMEOUT_SECS, nanos: 0 })),
    {
        ClientBuilder { inner, timeout: Timeout::default() }
    }
}

impl Default for ClientBuilder {
    fn default() -> (out: ClientBuilder)
        ensures
            out.timeout == Timeout(Some(Span { secs: DEFAULT_TIMEOUT_SECS, nanos: 0 })),
            out.inner.is_default(),
    {
        ClientBuilder::new()
    }
}

} // verus!
